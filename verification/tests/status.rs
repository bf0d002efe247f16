use python_supervisor::lock::{
    registry_text_units, resolve_lock_status, unlocked_status, JanLockStatus, RegistryProbe,
    UninstallEntry,
};
use python_supervisor::status::{
    completion_status, interpreter_version, python_status, ChromaDbHealth, CollectionStats,
    PythonStatus, StatusProbe,
};

#[test]
fn failed_installation_makes_the_interpreter_unavailable() {
    let status = python_status(StatusProbe::InstallFailed {
        reason: "Python archive not found at: \"x\". Reinstall MOBIUS.".to_string(),
    });
    assert_eq!(
        status,
        PythonStatus {
            available: false,
            version: None,
            script_path: None,
            error: Some(
                "Failed to extract Python: Python archive not found at: \"x\". Reinstall MOBIUS."
                    .to_string()
            ),
        }
    );
}

#[test]
fn missing_binary_makes_the_interpreter_unavailable() {
    let status = python_status(StatusProbe::BinaryMissing { binary: "\"/d/python.exe\"".to_string() });
    assert_eq!(
        status,
        PythonStatus {
            available: false,
            version: None,
            script_path: None,
            error: Some("Bundled Python not found at: \"/d/python.exe\"".to_string()),
        }
    );
}

#[test]
fn missing_scripts_leave_the_interpreter_available() {
    let status = python_status(StatusProbe::ScriptsMissing {
        version: Some("Python 3.12.1".to_string()),
        scripts: "/d/scripts".to_string(),
        scripts_shown: "\"/d/scripts\"".to_string(),
    });
    assert_eq!(
        status,
        PythonStatus {
            available: true,
            version: Some("Python 3.12.1".to_string()),
            script_path: Some("/d/scripts".to_string()),
            error: Some("Python scripts not found at: \"/d/scripts\"".to_string()),
        }
    );
}

#[test]
fn complete_installation_has_no_error() {
    let status = python_status(StatusProbe::Ready { version: None, scripts: "/d/scripts".to_string() });
    assert_eq!(
        status,
        PythonStatus {
            available: true,
            version: None,
            script_path: Some("/d/scripts".to_string()),
            error: None,
        }
    );
}

#[test]
fn version_is_what_the_interpreter_printed_without_white_space() {
    assert_eq!(interpreter_version(true, true, "Python 3.12.1\r\n"), Some("Python 3.12.1".to_string()));
    assert_eq!(interpreter_version(true, true, "  \n"), Some(String::new()));
    assert_eq!(interpreter_version(true, false, "Python 3.12.1\n"), None);
    assert_eq!(interpreter_version(false, true, "Python 3.12.1\n"), None);
}

#[test]
fn completion_is_named_by_success() {
    assert_eq!(completion_status(true), "complete");
    assert_eq!(completion_status(false), "failed");
}

#[test]
fn plain_results_hold_their_fields() {
    let stats = CollectionStats {
        collection: "documents".to_string(),
        document_count: 3,
        all_collections: vec!["documents".to_string()],
    };
    assert_eq!(stats.clone(), stats);
    let health = ChromaDbHealth { healthy: true, document_count: 3, error: None, recovered: false };
    assert!(health.healthy && !health.recovered);
}

#[test]
fn lock_status_follows_the_registry() {
    let status = resolve_lock_status(RegistryProbe {
        user_entry: Some(UninstallEntry {
            install_location: Some("C:\\Jan".to_string()),
            display_version: None,
        }),
        machine_entry: false,
        lock_value: Some(1),
    });
    assert_eq!(
        status,
        JanLockStatus {
            jan_installed: true,
            jan_version: None,
            jan_install_path: Some("C:\\Jan".to_string()),
            mobius_locked: true,
        }
    );
    let status = resolve_lock_status(RegistryProbe {
        user_entry: None,
        machine_entry: true,
        lock_value: Some(0),
    });
    assert_eq!(
        status,
        JanLockStatus {
            jan_installed: true,
            jan_version: None,
            jan_install_path: None,
            mobius_locked: false,
        }
    );
    let status = resolve_lock_status(RegistryProbe {
        user_entry: None,
        machine_entry: false,
        lock_value: Some(2),
    });
    assert_eq!(status, unlocked_status());
    assert!(!unlocked_status().jan_installed);
}

#[test]
fn registry_text_length_leaves_out_the_end_mark() {
    assert_eq!(registry_text_units(0), 0);
    assert_eq!(registry_text_units(1), 0);
    assert_eq!(registry_text_units(2), 0);
    assert_eq!(registry_text_units(3), 0);
    assert_eq!(registry_text_units(4), 1);
    assert_eq!(registry_text_units(1024), 511);
    assert_eq!(registry_text_units(u32::MAX), (u32::MAX / 2 - 1) as usize);
}
