use python_supervisor::executor::{Executor, ExecutorAction, ExecutorEvent};
use python_supervisor::job::Job;
use python_supervisor::outcome::{format_exit_code, ExecutionOutcome};

fn launch() -> Executor {
    let job = Job::stats("/data/chroma_db", None).unwrap();
    Executor::new(
        &job,
        "\"/data/python312/python.exe\"".to_string(),
        "\"/data/python312/scripts/document_processor.py\"".to_string(),
    )
}

fn running() -> Executor {
    launch()
        .step(ExecutorEvent::Exists { present: true })
        .step(ExecutorEvent::Exists { present: true })
        .step(ExecutorEvent::Spawned)
}

fn drained(stdout: &str, diagnostics: &str) -> Executor {
    running()
        .step(ExecutorEvent::StdoutDrained { text: stdout.to_string() })
        .step(ExecutorEvent::StderrJoined { diagnostics: diagnostics.to_string() })
}

#[test]
fn actions_follow_the_protocol() {
    let mut executor = launch();
    assert_eq!(executor.timeout_secs(), 60);
    assert_eq!(executor.action(), ExecutorAction::ProbeBinary);
    executor = executor.step(ExecutorEvent::Exists { present: true });
    assert_eq!(executor.action(), ExecutorAction::ProbeScript);
    executor = executor.step(ExecutorEvent::Exists { present: true });
    assert_eq!(executor.action(), ExecutorAction::Spawn);
    executor = executor.step(ExecutorEvent::Spawned);
    assert_eq!(executor.action(), ExecutorAction::DrainStdout);
    executor = executor.step(ExecutorEvent::StdoutDrained { text: "{}".to_string() });
    assert_eq!(executor.action(), ExecutorAction::JoinStderr);
    executor = executor.step(ExecutorEvent::StderrJoined { diagnostics: String::new() });
    assert_eq!(executor.action(), ExecutorAction::AwaitExit);
    assert!(!executor.is_finished());
    executor = executor.step(ExecutorEvent::Exited { success: true, code: Some(0) });
    assert!(executor.is_finished());
    assert_eq!(executor.action(), ExecutorAction::Report);
    assert_eq!(executor.into_outcome(), Some(ExecutionOutcome::Success { stdout: "{}".to_string() }));
}

#[test]
fn unfinished_launch_has_no_outcome() {
    assert_eq!(launch().into_outcome(), None);
    assert_eq!(running().into_outcome(), None);
    assert_eq!(drained("", "").into_outcome(), None);
}

#[test]
fn missing_binary_and_script_are_spawn_errors() {
    let executor = launch().step(ExecutorEvent::Exists { present: false });
    assert_eq!(executor.action(), ExecutorAction::Report);
    assert_eq!(
        executor.into_outcome(),
        Some(ExecutionOutcome::SpawnError {
            message: "Bundled Python not found: \"/data/python312/python.exe\"".to_string()
        })
    );
    let executor = launch()
        .step(ExecutorEvent::Exists { present: true })
        .step(ExecutorEvent::Exists { present: false });
    assert_eq!(
        executor.into_outcome(),
        Some(ExecutionOutcome::SpawnError {
            message: "Python script not found: \"/data/python312/scripts/document_processor.py\""
                .to_string()
        })
    );
}

#[test]
fn failed_spawn_is_a_spawn_error() {
    let executor = launch()
        .step(ExecutorEvent::Exists { present: true })
        .step(ExecutorEvent::Exists { present: true })
        .step(ExecutorEvent::SpawnFailed { reason: "permission denied".to_string() });
    assert_eq!(executor.action(), ExecutorAction::Report);
    assert_eq!(
        executor.into_outcome(),
        Some(ExecutionOutcome::SpawnError {
            message: "Failed to spawn Python process: permission denied".to_string()
        })
    );
}

#[test]
fn missing_pipe_ends_the_launch_and_kills_the_child() {
    for (primary, message) in [(true, "Failed to capture stdout"), (false, "Failed to capture stderr")] {
        let executor = launch()
            .step(ExecutorEvent::Exists { present: true })
            .step(ExecutorEvent::Exists { present: true })
            .step(ExecutorEvent::CaptureFailed { primary });
        assert_eq!(executor.action(), ExecutorAction::Kill);
        assert_eq!(
            executor.into_outcome(),
            Some(ExecutionOutcome::SpawnError { message: message.to_string() })
        );
    }
}

#[test]
fn nonzero_exit_carries_code_and_diagnostics() {
    let executor = drained("partial", "ValueError: bad input")
        .step(ExecutorEvent::Exited { success: false, code: Some(2) });
    assert_eq!(executor.action(), ExecutorAction::Report);
    assert_eq!(
        executor.into_outcome(),
        Some(ExecutionOutcome::Failure {
            exit_code: Some(2),
            stderr: "ValueError: bad input".to_string()
        })
    );
}

#[test]
fn deadline_kills_at_every_running_stage() {
    let stages = [
        running(),
        running().step(ExecutorEvent::StdoutDrained { text: "{\"ok\":true}".to_string() }),
        drained("{\"ok\":true}", "noise"),
    ];
    for stage in stages {
        let ended = stage.step(ExecutorEvent::DeadlineElapsed);
        assert_eq!(ended.action(), ExecutorAction::Kill);
        assert_eq!(ended.into_outcome(), Some(ExecutionOutcome::Timeout));
    }
}

#[test]
fn no_success_after_the_deadline() {
    let ended = drained("{\"ok\":true}", "")
        .step(ExecutorEvent::DeadlineElapsed)
        .step(ExecutorEvent::Exited { success: true, code: Some(0) })
        .step(ExecutorEvent::StdoutDrained { text: "late".to_string() });
    assert_eq!(ended.action(), ExecutorAction::Kill);
    assert_eq!(ended.into_outcome(), Some(ExecutionOutcome::Timeout));
}

#[test]
fn deadline_before_the_spawn_changes_nothing() {
    let executor = launch().step(ExecutorEvent::DeadlineElapsed);
    assert_eq!(executor.action(), ExecutorAction::ProbeBinary);
    let executor = executor
        .step(ExecutorEvent::Exists { present: true })
        .step(ExecutorEvent::Exists { present: true })
        .step(ExecutorEvent::DeadlineElapsed);
    assert_eq!(executor.action(), ExecutorAction::Spawn);
}

#[test]
fn events_out_of_turn_change_nothing() {
    let executor = launch()
        .step(ExecutorEvent::Spawned)
        .step(ExecutorEvent::Exited { success: true, code: Some(0) })
        .step(ExecutorEvent::StdoutDrained { text: "x".to_string() });
    assert_eq!(executor.action(), ExecutorAction::ProbeBinary);
    let executor = running().step(ExecutorEvent::Exited { success: true, code: Some(0) });
    assert_eq!(executor.action(), ExecutorAction::DrainStdout);
}

#[test]
fn read_failures_interrupt_the_launch() {
    let cases = [
        (running(), "Failed to read stdout: broken pipe"),
        (
            running().step(ExecutorEvent::StdoutDrained { text: String::new() }),
            "stderr task failed: broken pipe",
        ),
        (drained("", ""), "broken pipe"),
    ];
    for (stage, message) in cases {
        let ended = stage.step(ExecutorEvent::IoFailed { reason: "broken pipe".to_string() });
        assert_eq!(ended.action(), ExecutorAction::Kill);
        assert_eq!(
            ended.into_outcome(),
            Some(ExecutionOutcome::Interrupted { message: message.to_string() })
        );
    }
}

#[test]
fn outcomes_turn_into_results() {
    let success = ExecutionOutcome::Success { stdout: "{\"a\":1}".to_string() };
    assert!(success.is_success());
    assert_eq!(success.failure_message(60), "");
    assert_eq!(success.into_result(60), Ok("{\"a\":1}".to_string()));
    let failure = ExecutionOutcome::Failure { exit_code: Some(1), stderr: "boom".to_string() };
    assert!(!failure.is_success());
    assert_eq!(
        failure.into_result(60),
        Err("Python process failed with exit code Some(1): boom".to_string())
    );
    let killed = ExecutionOutcome::Failure { exit_code: None, stderr: String::new() };
    assert_eq!(killed.failure_message(60), "Python process failed with exit code None: ");
    assert_eq!(
        ExecutionOutcome::Timeout.into_result(300),
        Err("Python command timed out after 300s".to_string())
    );
    assert_eq!(ExecutionOutcome::Timeout.failure_message(0), "Python command timed out after 0s");
    assert_eq!(
        ExecutionOutcome::SpawnError { message: "no".to_string() }.into_result(1),
        Err("no".to_string())
    );
    assert_eq!(
        ExecutionOutcome::Interrupted { message: "cut".to_string() }.into_result(1),
        Err("cut".to_string())
    );
}

#[test]
fn exit_codes_are_shown_as_options() {
    assert_eq!(format_exit_code(Some(0)), "Some(0)");
    assert_eq!(format_exit_code(Some(137)), "Some(137)");
    assert_eq!(format_exit_code(Some(-1)), "Some(-1)");
    assert_eq!(format_exit_code(Some(i32::MIN)), format!("{:?}", Some(i32::MIN)));
    assert_eq!(format_exit_code(Some(i32::MAX)), format!("{:?}", Some(i32::MAX)));
    assert_eq!(format_exit_code(None), "None");
}
