use python_supervisor::backoff::calculate_python_backoff_delay;
use python_supervisor::outcome::ExecutionOutcome;
use python_supervisor::retry::{
    classify_failure, ErrorKind, PythonErrorEvent, RetryDecision, RetryState, RetrySupervisor,
    ERROR_CHANNEL, PYTHON_MAX_RETRIES,
};

fn failure() -> ExecutionOutcome {
    ExecutionOutcome::Failure { exit_code: Some(1), stderr: "boom".to_string() }
}

fn event(error_type: &str, message: &str, attempt: u32, max_attempts: u32) -> PythonErrorEvent {
    PythonErrorEvent {
        error_type: error_type.to_string(),
        message: message.to_string(),
        attempt,
        max_attempts,
    }
}

#[test]
fn failures_are_classified_by_their_cause() {
    assert_eq!(classify_failure(&ExecutionOutcome::Timeout), ErrorKind::Timeout);
    assert_eq!(
        classify_failure(&ExecutionOutcome::SpawnError { message: String::new() }),
        ErrorKind::SpawnError
    );
    assert_eq!(classify_failure(&failure()), ErrorKind::ExecutionError);
    assert_eq!(
        classify_failure(&ExecutionOutcome::Interrupted { message: String::new() }),
        ErrorKind::ExecutionError
    );
    assert_eq!(ErrorKind::Timeout.name(), "timeout");
    assert_eq!(ErrorKind::SpawnError.name(), "spawn_error");
    assert_eq!(ErrorKind::ExecutionError.name(), "execution_error");
    assert_eq!(ERROR_CHANNEL, "python-error");
}

#[test]
fn job_that_always_fails_uses_every_attempt() {
    let mut supervisor = RetrySupervisor::new(PYTHON_MAX_RETRIES, 60);
    assert_eq!(supervisor.max_attempts(), 3);
    let mut events = Vec::new();
    let mut launches = 0;
    let message = loop {
        let attempt = match supervisor.state() {
            RetryState::Attempting { attempt } => attempt,
            other => panic!("ended without a decision: {:?}", other),
        };
        launches += 1;
        assert_eq!(attempt, launches);
        match supervisor.conclude(failure()) {
            Some(RetryDecision::RetryAfter { event, delay_ms }) => {
                assert_eq!(delay_ms, calculate_python_backoff_delay(attempt));
                events.push(event);
            }
            Some(RetryDecision::Exhausted { event, message }) => {
                events.push(event);
                break message;
            }
            other => panic!("unexpected decision: {:?}", other),
        }
    };
    assert_eq!(launches, 3);
    assert_eq!(supervisor.state(), RetryState::Exhausted);
    let text = "Python process failed with exit code Some(1): boom";
    assert_eq!(
        events,
        vec![
            event("execution_error", text, 1, 3),
            event("execution_error", text, 2, 3),
            event("execution_error", text, 3, 3),
        ]
    );
    assert_eq!(message, format!("Python command failed after 3 attempts: {}", text));
    assert_eq!(supervisor.conclude(failure()), None);
    assert_eq!(supervisor.state(), RetryState::Exhausted);
}

#[test]
fn success_ends_the_job_at_once() {
    let mut supervisor = RetrySupervisor::new(3, 60);
    assert!(matches!(
        supervisor.conclude(ExecutionOutcome::Timeout),
        Some(RetryDecision::RetryAfter { .. })
    ));
    assert_eq!(supervisor.state(), RetryState::Attempting { attempt: 2 });
    assert_eq!(
        supervisor.conclude(ExecutionOutcome::Success { stdout: "{}".to_string() }),
        Some(RetryDecision::Succeeded { stdout: "{}".to_string() })
    );
    assert_eq!(supervisor.state(), RetryState::Succeeded);
    assert_eq!(supervisor.conclude(failure()), None);
    assert_eq!(supervisor.state(), RetryState::Succeeded);
}

#[test]
fn events_name_cause_attempt_and_maximum() {
    let mut supervisor = RetrySupervisor::new(2, 300);
    assert_eq!(
        supervisor.conclude(ExecutionOutcome::Timeout),
        Some(RetryDecision::RetryAfter {
            event: event("timeout", "Python command timed out after 300s", 1, 2),
            delay_ms: calculate_python_backoff_delay(1),
        })
    );
    let spawn = ExecutionOutcome::SpawnError {
        message: "Failed to spawn Python process: not found".to_string(),
    };
    assert_eq!(
        supervisor.conclude(spawn),
        Some(RetryDecision::Exhausted {
            event: event("spawn_error", "Failed to spawn Python process: not found", 2, 2),
            message: "Python command failed after 2 attempts: Failed to spawn Python process: not found"
                .to_string(),
        })
    );
}

#[test]
fn single_attempt_is_exhausted_by_one_failure() {
    let mut supervisor = RetrySupervisor::new(1, 60);
    assert!(matches!(supervisor.conclude(failure()), Some(RetryDecision::Exhausted { .. })));
    assert_eq!(supervisor.state(), RetryState::Exhausted);
}

#[test]
fn no_attempts_means_nothing_to_decide() {
    let mut supervisor = RetrySupervisor::new(0, 60);
    assert_eq!(supervisor.state(), RetryState::Exhausted);
    assert_eq!(supervisor.conclude(ExecutionOutcome::Success { stdout: String::new() }), None);
}
