use python_supervisor::bootstrap::{
    ArchiveLocation, BootstrapAction, BootstrapError, BootstrapEvent, Bootstrapper, IoStep,
    ARCHIVE_NAME, BINARY_NAME, FALLBACK_DIR, RUNTIME_DIR, SCRIPTS_DIR,
};

fn start() -> Bootstrapper {
    Bootstrapper::new("\"/res/resources/python312.zip\"".to_string())
}

fn opened(entries: usize) -> Bootstrapper {
    start()
        .step(BootstrapEvent::Exists { present: false })
        .step(BootstrapEvent::Exists { present: true })
        .step(BootstrapEvent::Done)
        .step(BootstrapEvent::Done)
        .step(BootstrapEvent::Indexed { entries })
}

fn failed(reason: &str) -> BootstrapEvent {
    BootstrapEvent::Failed { reason: reason.to_string() }
}

fn entry(is_dir: bool, target: &str) -> BootstrapEvent {
    BootstrapEvent::Entry { is_dir, target: target.to_string() }
}

#[test]
fn present_binary_ends_the_run_without_the_archive() {
    let run = start();
    assert_eq!(run.action(), BootstrapAction::ProbeBinary);
    let run = run.step(BootstrapEvent::Exists { present: true });
    assert_eq!(run.action(), BootstrapAction::Finish);
    let run = run
        .step(BootstrapEvent::Exists { present: false })
        .step(BootstrapEvent::Indexed { entries: 3 })
        .step(failed("late"));
    assert_eq!(run.action(), BootstrapAction::Finish);
    assert_eq!(run.into_result(), Some(Ok(())));
}

#[test]
fn archive_is_looked_for_in_two_places() {
    let run = start().step(BootstrapEvent::Exists { present: false });
    assert_eq!(run.action(), BootstrapAction::ProbeArchive { location: ArchiveLocation::Primary });
    let nested = run.step(BootstrapEvent::Exists { present: false });
    assert_eq!(
        nested.action(),
        BootstrapAction::ProbeArchive { location: ArchiveLocation::Fallback }
    );
    let found = nested.step(BootstrapEvent::Exists { present: true });
    assert_eq!(found.action(), BootstrapAction::CreateRoot);
    let found = found.step(BootstrapEvent::Done);
    assert_eq!(found.action(), BootstrapAction::OpenArchive { location: ArchiveLocation::Fallback });
}

#[test]
fn missing_archive_fails_the_run() {
    let run = start()
        .step(BootstrapEvent::Exists { present: false })
        .step(BootstrapEvent::Exists { present: false })
        .step(BootstrapEvent::Exists { present: false });
    assert_eq!(run.action(), BootstrapAction::Abort);
    let error = BootstrapError::MissingArchive {
        searched: "\"/res/resources/python312.zip\"".to_string(),
    };
    assert_eq!(
        error.message(),
        "Python archive not found at: \"/res/resources/python312.zip\". Reinstall MOBIUS."
    );
    assert_eq!(run.into_result(), Some(Err(error)));
}

#[test]
fn every_entry_is_unpacked_in_order() {
    let mut run = opened(3);
    assert_eq!(run.action(), BootstrapAction::ReadEntry { index: 0 });
    run = run.step(entry(true, "\"/data/python312/Lib\""));
    assert_eq!(run.action(), BootstrapAction::CreateDirectory { index: 0 });
    run = run.step(BootstrapEvent::Done);
    assert_eq!(run.action(), BootstrapAction::ReadEntry { index: 1 });
    run = run.step(entry(false, "\"/data/python312/Lib/os.py\""));
    assert_eq!(run.action(), BootstrapAction::CreateParent { index: 1 });
    run = run.step(BootstrapEvent::Done);
    assert_eq!(run.action(), BootstrapAction::CreateFile { index: 1 });
    run = run.step(BootstrapEvent::Done);
    assert_eq!(run.action(), BootstrapAction::CopyEntry { index: 1 });
    run = run.step(BootstrapEvent::Done);
    assert_eq!(run.action(), BootstrapAction::ReadEntry { index: 2 });
    run = run.step(entry(false, "\"/data/python312/python.exe\""));
    run = run.step(BootstrapEvent::Done).step(BootstrapEvent::Done);
    assert_eq!(run.action(), BootstrapAction::CopyEntry { index: 2 });
    run = run.step(BootstrapEvent::Done);
    assert_eq!(run.action(), BootstrapAction::Finish);
    assert_eq!(run.into_result(), Some(Ok(())));
}

#[test]
fn empty_archive_installs_nothing_and_ends() {
    let run = opened(0);
    assert_eq!(run.action(), BootstrapAction::Finish);
    assert_eq!(run.into_result(), Some(Ok(())));
}

#[test]
fn unfinished_run_has_no_result() {
    assert_eq!(start().into_result(), None);
    assert_eq!(opened(2).into_result(), None);
}

#[test]
fn each_step_fails_with_its_own_report() {
    let probe = start()
        .step(BootstrapEvent::Exists { present: false })
        .step(BootstrapEvent::Exists { present: true });
    let cases = [
        (probe.step(failed("denied")), IoStep::CreateRoot, "", "Failed to create Python directory: denied"),
        (
            start()
                .step(BootstrapEvent::Exists { present: false })
                .step(BootstrapEvent::Exists { present: true })
                .step(BootstrapEvent::Done)
                .step(failed("denied")),
            IoStep::OpenArchive,
            "",
            "Failed to open Python archive: denied",
        ),
        (
            start()
                .step(BootstrapEvent::Exists { present: false })
                .step(BootstrapEvent::Exists { present: true })
                .step(BootstrapEvent::Done)
                .step(BootstrapEvent::Done)
                .step(failed("denied")),
            IoStep::IndexArchive,
            "",
            "Failed to read Python archive: denied",
        ),
        (opened(2).step(failed("denied")), IoStep::ReadEntry, "", "Failed to read archive entry: denied"),
        (
            opened(2).step(entry(true, "\"/d/Lib\"")).step(failed("denied")),
            IoStep::CreateDirectory,
            "\"/d/Lib\"",
            "Failed to create directory \"/d/Lib\": denied",
        ),
        (
            opened(2).step(entry(false, "\"/d/a.py\"")).step(failed("denied")),
            IoStep::CreateParent,
            "\"/d/a.py\"",
            "Failed to create parent dir: denied",
        ),
        (
            opened(2).step(entry(false, "\"/d/a.py\"")).step(BootstrapEvent::Done).step(failed("denied")),
            IoStep::CreateFile,
            "\"/d/a.py\"",
            "Failed to create file \"/d/a.py\": denied",
        ),
        (
            opened(2)
                .step(entry(false, "\"/d/a.py\""))
                .step(BootstrapEvent::Done)
                .step(BootstrapEvent::Done)
                .step(failed("denied")),
            IoStep::CopyEntry,
            "\"/d/a.py\"",
            "Failed to extract \"/d/a.py\": denied",
        ),
    ];
    for (run, step, target, message) in cases {
        assert_eq!(run.action(), BootstrapAction::Abort);
        let error = BootstrapError::Io {
            step,
            target: target.to_string(),
            reason: "denied".to_string(),
        };
        assert_eq!(error.message(), message);
        assert_eq!(run.into_result(), Some(Err(error)));
    }
}

#[test]
fn failed_run_stays_failed() {
    let run = opened(1).step(failed("denied")).step(BootstrapEvent::Done).step(entry(true, "x"));
    assert_eq!(run.action(), BootstrapAction::Abort);
}

#[test]
fn events_out_of_turn_leave_the_run_as_it_is() {
    let run = start().step(BootstrapEvent::Done).step(BootstrapEvent::Indexed { entries: 4 });
    assert_eq!(run.action(), BootstrapAction::ProbeBinary);
    let run = opened(2).step(BootstrapEvent::Done).step(BootstrapEvent::Exists { present: true });
    assert_eq!(run.action(), BootstrapAction::ReadEntry { index: 0 });
}

#[test]
fn installation_layout_is_fixed() {
    assert_eq!(RUNTIME_DIR, "python312");
    assert_eq!(BINARY_NAME, "python.exe");
    assert_eq!(SCRIPTS_DIR, "scripts");
    assert_eq!(ARCHIVE_NAME, "python312.zip");
    assert_eq!(FALLBACK_DIR, "resources");
}
