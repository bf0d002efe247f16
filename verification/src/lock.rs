//! Whether a companion application is installed, and whether this one is
//! locked to it, as the registry of the platform tells.

use crate::text::optional_text;
use vstd::prelude::*;
use vstd::string::*;

verus! {

/// What the registry tells about the companion application.
#[derive(Clone, Debug, PartialEq, Eq)]
pub struct JanLockStatus {
    pub jan_installed: bool,
    pub jan_version: Option<String>,
    pub jan_install_path: Option<String>,
    pub mobius_locked: bool,
}

/// The uninstall entry of the current user, where it could be opened:
/// the two values read from it, each `None` where it could not be read.
#[derive(Debug)]
pub struct UninstallEntry {
    pub install_location: Option<String>,
    pub display_version: Option<String>,
}

/// What was read from the registry.
#[derive(Debug)]
pub struct RegistryProbe {
    /// The uninstall entry of the current user, if there is one.
    pub user_entry: Option<UninstallEntry>,
    /// Whether the machine has an uninstall entry. It is looked for only
    /// where the current user has none.
    pub machine_entry: bool,
    /// The number under the lock value, if the value could be read.
    pub lock_value: Option<u32>,
}

/// The number that marks the lock as set.
pub const LOCKED: u32 = 1;

/// The number of UTF-16 units of a registry text of `bytes` bytes,
/// without the unit that ends it.
pub open spec fn text_units(bytes: nat) -> nat {
    if bytes / 2 >= 1 {
        (bytes / 2 - 1) as nat
    } else {
        0
    }
}

/// The number of UTF-16 units of a registry text of `bytes` bytes,
/// without the unit that ends it.
pub fn registry_text_units(bytes: u32) -> (units: usize)
    ensures
        units == text_units(bytes as nat),
{
    let pairs: u32 = bytes / 2;
    if pairs >= 1 {
        (pairs - 1) as usize
    } else {
        0
    }
}

/// The status that follows from what was read: the companion counts as
/// installed where either entry exists, its path and version are taken
/// from the entry of the current user alone, and the lock is set exactly
/// where the lock value is `LOCKED`.
pub fn resolve_lock_status(probe: RegistryProbe) -> (status: JanLockStatus)
    ensures
        status.jan_installed == (probe.user_entry is Some || probe.machine_entry),
        status.mobius_locked == (probe.lock_value == Some(LOCKED)),
        match probe.user_entry {
            Some(entry) => optional_text(status.jan_install_path) == optional_text(entry.install_location)
                && optional_text(status.jan_version) == optional_text(entry.display_version),
            None => status.jan_install_path is None && status.jan_version is None,
        },
{
    let mobius_locked = match probe.lock_value {
        Some(value) => value == LOCKED,
        None => false,
    };
    match probe.user_entry {
        Some(entry) => JanLockStatus {
            jan_installed: true,
            jan_version: entry.display_version,
            jan_install_path: entry.install_location,
            mobius_locked,
        },
        None => JanLockStatus {
            jan_installed: probe.machine_entry,
            jan_version: None,
            jan_install_path: None,
            mobius_locked,
        },
    }
}

/// The status on a platform without registry: nothing installed, nothing
/// locked.
pub fn unlocked_status() -> (status: JanLockStatus)
    ensures
        !status.jan_installed,
        !status.mobius_locked,
        status.jan_version is None,
        status.jan_install_path is None,
{
    resolve_lock_status(RegistryProbe { user_entry: None, machine_entry: false, lock_value: None })
}

} // verus!
