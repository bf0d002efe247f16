//! What the host is told about the interpreter and about the store.

use crate::text::{optional_text, trimmed, trimmed_of};
use vstd::prelude::*;
use vstd::string::*;

verus! {

/// Whether the interpreter can be used.
#[derive(Debug, PartialEq, Eq)]
pub struct PythonStatus {
    pub available: bool,
    pub version: Option<String>,
    pub script_path: Option<String>,
    pub error: Option<String>,
}

/// What a collection of the store holds.
#[derive(Clone, Debug, PartialEq, Eq)]
pub struct CollectionStats {
    pub collection: String,
    pub document_count: usize,
    pub all_collections: Vec<String>,
}

/// Whether the store is sound.
#[derive(Debug, PartialEq, Eq)]
pub struct ChromaDbHealth {
    pub healthy: bool,
    pub document_count: usize,
    pub error: Option<String>,
    pub recovered: bool,
}

/// `PythonStatus` with its texts as sequences of characters.
pub struct PythonStatusModel {
    pub available: bool,
    pub version: Option<Seq<char>>,
    pub script_path: Option<Seq<char>>,
    pub error: Option<Seq<char>>,
}

impl View for PythonStatus {
    type V = PythonStatusModel;

    open spec fn view(&self) -> PythonStatusModel {
        PythonStatusModel {
            available: self.available,
            version: optional_text(self.version),
            script_path: optional_text(self.script_path),
            error: optional_text(self.error),
        }
    }
}

/// What was found when the interpreter was looked for, in the order in
/// which it is looked for: the first thing that is wrong ends the search.
#[derive(Debug)]
pub enum StatusProbe {
    /// The installation failed for `reason`.
    InstallFailed { reason: String },
    /// The binary is not there; `binary` is its path as reports show it.
    BinaryMissing { binary: String },
    /// The binary is there, the main script is not. `scripts` is the
    /// directory of the scripts, `scripts_shown` the same as reports show
    /// it.
    ScriptsMissing { version: Option<String>, scripts: String, scripts_shown: String },
    /// Binary and main script are there.
    Ready { version: Option<String>, scripts: String },
}

/// `StatusProbe` with its texts as sequences of characters.
pub enum StatusProbeModel {
    InstallFailed { reason: Seq<char> },
    BinaryMissing { binary: Seq<char> },
    ScriptsMissing { version: Option<Seq<char>>, scripts: Seq<char>, scripts_shown: Seq<char> },
    Ready { version: Option<Seq<char>>, scripts: Seq<char> },
}

impl View for StatusProbe {
    type V = StatusProbeModel;

    open spec fn view(&self) -> StatusProbeModel {
        match self {
            StatusProbe::InstallFailed { reason } => StatusProbeModel::InstallFailed {
                reason: reason@,
            },
            StatusProbe::BinaryMissing { binary } => StatusProbeModel::BinaryMissing {
                binary: binary@,
            },
            StatusProbe::ScriptsMissing { version, scripts, scripts_shown } => {
                StatusProbeModel::ScriptsMissing {
                    version: optional_text(*version),
                    scripts: scripts@,
                    scripts_shown: scripts_shown@,
                }
            },
            StatusProbe::Ready { version, scripts } => StatusProbeModel::Ready {
                version: optional_text(*version),
                scripts: scripts@,
            },
        }
    }
}

/// The status that follows from what was found: the interpreter counts as
/// available as soon as its binary is there, and the status carries an
/// error for everything but a complete installation.
pub open spec fn status_of(probe: StatusProbeModel) -> PythonStatusModel {
    match probe {
        StatusProbeModel::InstallFailed { reason } => PythonStatusModel {
            available: false,
            version: None,
            script_path: None,
            error: Some("Failed to extract Python: "@ + reason),
        },
        StatusProbeModel::BinaryMissing { binary } => PythonStatusModel {
            available: false,
            version: None,
            script_path: None,
            error: Some("Bundled Python not found at: "@ + binary),
        },
        StatusProbeModel::ScriptsMissing { version, scripts, scripts_shown } => PythonStatusModel {
            available: true,
            version,
            script_path: Some(scripts),
            error: Some("Python scripts not found at: "@ + scripts_shown),
        },
        StatusProbeModel::Ready { version, scripts } => PythonStatusModel {
            available: true,
            version,
            script_path: Some(scripts),
            error: None,
        },
    }
}

/// The status of the interpreter, from what was found.
pub fn python_status(probe: StatusProbe) -> (status: PythonStatus)
    ensures
        status@ == status_of(probe@),
{
    match probe {
        StatusProbe::InstallFailed { reason } => {
            let mut error = String::from_str("Failed to extract Python: ");
            error.append(reason.as_str());
            PythonStatus { available: false, version: None, script_path: None, error: Some(error) }
        },
        StatusProbe::BinaryMissing { binary } => {
            let mut error = String::from_str("Bundled Python not found at: ");
            error.append(binary.as_str());
            PythonStatus { available: false, version: None, script_path: None, error: Some(error) }
        },
        StatusProbe::ScriptsMissing { version, scripts, scripts_shown } => {
            let mut error = String::from_str("Python scripts not found at: ");
            error.append(scripts_shown.as_str());
            PythonStatus {
                available: true,
                version,
                script_path: Some(scripts),
                error: Some(error),
            }
        },
        StatusProbe::Ready { version, scripts } => PythonStatus {
            available: true,
            version,
            script_path: Some(scripts),
            error: None,
        },
    }
}

/// The version that the interpreter reports, given how the call for it
/// went: what it printed, without the white space at the ends, where it
/// ran and left with status zero; else none.
pub open spec fn version_of(ran: bool, success: bool, printed: Seq<char>) -> Option<Seq<char>> {
    if ran && success {
        Some(trimmed_of(printed))
    } else {
        None
    }
}

/// Reads the version of the interpreter from the outcome of the call
/// for it.
pub fn interpreter_version(ran: bool, success: bool, printed: &str) -> (version: Option<String>)
    ensures
        optional_text(version) == version_of(ran, success, printed@),
{
    if ran && success {
        Some(trimmed(printed))
    } else {
        None
    }
}

/// What the host is told about a processed document when it is done.
pub open spec fn completion_label(success: bool) -> Seq<char> {
    if success {
        "complete"@
    } else {
        "failed"@
    }
}

/// The status word of the event that ends the processing of a document.
pub fn completion_status(success: bool) -> (label: &'static str)
    ensures
        label@ == completion_label(success),
{
    if success {
        "complete"
    } else {
        "failed"
    }
}

} // verus!
