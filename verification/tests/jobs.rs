use python_supervisor::executor::{Executor, ExecutorAction, ExecutorEvent};
use python_supervisor::job::{Job, Verb, DEFAULT_COLLECTION, DEFAULT_TOP_K, SCRIPT_NAME};
use python_supervisor::retry::{RetryDecision, RetrySupervisor, PYTHON_MAX_RETRIES};
use python_supervisor::schedule::{
    batch_timeout_secs, BATCH_BASE_SECS, BATCH_MAX_SECS, BATCH_PER_FILE_SECS, COMMAND_TIMEOUT_SECS,
    PROCESS_TIMEOUT_SECS,
};
use python_supervisor::validate::ValidationError;

fn strings(items: &[&str]) -> Vec<String> {
    items.iter().map(|item| item.to_string()).collect()
}

#[test]
fn process_of_a_traversal_is_refused_before_any_spawn() {
    let result = Job::process("/data/chroma_db", "../etc/passwd", None, None, None, None);
    assert_eq!(result.err(), Some(ValidationError::PathTraversal));
}

#[test]
fn batch_with_a_traversal_is_refused() {
    let paths = strings(&["a.txt", "../b.txt", "c.txt"]);
    let result = Job::batch("/data/chroma_db", &paths, None, None);
    assert_eq!(result.err(), Some(ValidationError::PathTraversal));
}

#[test]
fn batch_reports_the_first_refused_path() {
    let paths = strings(&["a.txt", "b.exe", "../c.txt"]);
    let result = Job::batch("/data/chroma_db", &paths, None, None);
    assert_eq!(
        result.err(),
        Some(ValidationError::UnsupportedType { extension: Some(".exe".to_string()) })
    );
}

#[test]
fn empty_batch_is_refused() {
    let result = Job::batch("/data/chroma_db", &Vec::new(), None, Some(true));
    assert_eq!(result.err(), Some(ValidationError::EmptyBatch));
}

#[test]
fn process_arguments_follow_the_verb_contract() {
    let job = Job::process("/data/chroma_db", "docs/report.docx", None, None, None, None).unwrap();
    assert_eq!(job.verb(), Verb::Process);
    assert_eq!(
        job.args(),
        &strings(&[
            "--json",
            "--db-path",
            "/data/chroma_db",
            "process",
            "docs/report.docx",
            "--collection",
            "documents"
        ])
    );
    assert_eq!(job.timeout_secs(), 300);
    assert!(job.retry_eligible());
}

#[test]
fn process_flags_come_in_their_order() {
    let job = Job::process(
        "/db",
        "a.txt",
        Some("papers".to_string()),
        Some(false),
        Some("secret".to_string()),
        Some(true),
    )
    .unwrap();
    assert_eq!(
        job.args(),
        &strings(&[
            "--json",
            "--db-path",
            "/db",
            "process",
            "a.txt",
            "--collection",
            "papers",
            "--no-ocr",
            "--password",
            "secret",
            "--smart"
        ])
    );
    let job = Job::process("/db", "a.txt", None, Some(true), None, Some(false)).unwrap();
    assert_eq!(job.args().len(), 7);
}

#[test]
fn process_refuses_dangerous_arguments_after_the_path() {
    let result = Job::process("/db", "a.txt", None, None, Some("pa$$".to_string()), None);
    assert_eq!(
        result.err(),
        Some(ValidationError::DangerousArgument { found: '$', argument: "pa$$".to_string() })
    );
    let result = Job::process("/db;x", "a>b.txt", None, None, None, None);
    assert_eq!(result.err(), Some(ValidationError::ForbiddenCharacter { found: '>' }));
}

#[test]
fn query_arguments_follow_the_verb_contract() {
    let job = Job::query("/db", "abc", Some("documents".to_string()), Some(5)).unwrap();
    assert_eq!(job.verb(), Verb::Query);
    assert_eq!(
        job.args(),
        &strings(&["--json", "--db-path", "/db", "query", "abc", "--collection", "documents", "--top-k", "5"])
    );
    assert_eq!(job.timeout_secs(), 60);
    assert!(job.retry_eligible());
    let job = Job::query("/db", "what is new?", None, None).unwrap();
    assert_eq!(job.args()[6], DEFAULT_COLLECTION);
    assert_eq!(job.args()[8], DEFAULT_TOP_K.to_string());
    let job = Job::query("/db", "x", None, Some(1200)).unwrap();
    assert_eq!(job.args()[8], "1200");
    let job = Job::query("/db", "x", None, Some(0)).unwrap();
    assert_eq!(job.args()[8], "0");
    let job = Job::query("/db", "x", None, Some(usize::MAX)).unwrap();
    assert_eq!(job.args()[8], usize::MAX.to_string());
}

#[test]
fn query_text_is_sanitized() {
    let result = Job::query("/db", "cats & dogs", None, None);
    assert_eq!(
        result.err(),
        Some(ValidationError::DangerousArgument { found: '&', argument: "cats & dogs".to_string() })
    );
}

#[test]
fn stats_and_health_arguments_follow_the_verb_contract() {
    let job = Job::stats("/db", None).unwrap();
    assert_eq!(job.verb(), Verb::Stats);
    assert_eq!(job.args(), &strings(&["--json", "--db-path", "/db", "stats", "--collection", "documents"]));
    assert_eq!(job.timeout_secs(), COMMAND_TIMEOUT_SECS);
    let job = Job::health("/db", Some("notes".to_string()), Some(true)).unwrap();
    assert_eq!(job.verb(), Verb::Health);
    assert_eq!(
        job.args(),
        &strings(&["--json", "--db-path", "/db", "health", "--collection", "notes", "--auto-recover"])
    );
    let job = Job::health("/db", None, Some(false)).unwrap();
    assert_eq!(job.args().len(), 6);
    let job = Job::health("/db", None, None).unwrap();
    assert_eq!(job.args().len(), 6);
    assert!(job.retry_eligible());
}

#[test]
fn batch_of_ten_files_gets_1500_seconds_and_one_launch() {
    let paths: Vec<String> = (0..10).map(|i| format!("file{}.txt", i)).collect();
    let job = Job::batch("/db", &paths, None, Some(true)).unwrap();
    assert_eq!(job.verb(), Verb::Batch);
    assert_eq!(job.timeout_secs(), 1500);
    assert!(!job.retry_eligible());
    let mut expected = strings(&["--json", "--db-path", "/db", "batch", "--files"]);
    expected.extend(paths.clone());
    expected.extend(strings(&["--collection", "documents", "--smart"]));
    assert_eq!(job.args(), &expected);
}

#[test]
fn batch_deadline_grows_with_the_files_up_to_the_cap() {
    assert_eq!(batch_timeout_secs(0), 300);
    assert_eq!(batch_timeout_secs(1), 420);
    assert_eq!(batch_timeout_secs(10), 1500);
    assert_eq!(batch_timeout_secs(27), 3540);
    assert_eq!(batch_timeout_secs(28), 3600);
    assert_eq!(batch_timeout_secs(29), 3600);
    assert_eq!(batch_timeout_secs(usize::MAX), 3600);
    assert_eq!((BATCH_BASE_SECS, BATCH_PER_FILE_SECS, BATCH_MAX_SECS), (300, 120, 3600));
    assert_eq!(PROCESS_TIMEOUT_SECS, 300);
}

#[test]
fn decode_failures_name_the_verb() {
    assert_eq!(Verb::Process.decode_failure("EOF"), "Failed to parse Python output: EOF");
    assert_eq!(Verb::Query.decode_failure("EOF"), "Failed to parse Python output: EOF");
    assert_eq!(Verb::Stats.decode_failure("EOF"), "Failed to parse Python output: EOF");
    assert_eq!(Verb::Health.decode_failure("EOF"), "Failed to parse ChromaDB health output: EOF");
    assert_eq!(Verb::Batch.decode_failure("EOF"), "Failed to parse batch output: EOF");
    assert_eq!(SCRIPT_NAME, "document_processor.py");
}

#[test]
fn query_scenario_hands_the_result_to_the_decoder() {
    let job = Job::query("/db", "abc", Some("documents".to_string()), Some(5)).unwrap();
    let mut supervisor = RetrySupervisor::new(PYTHON_MAX_RETRIES, job.timeout_secs());
    let stdout = "{\"query\":\"abc\",\"results\":[],\"error\":null}";
    let executor = Executor::new(&job, "python.exe".to_string(), SCRIPT_NAME.to_string())
        .step(ExecutorEvent::Exists { present: true })
        .step(ExecutorEvent::Exists { present: true })
        .step(ExecutorEvent::Spawned)
        .step(ExecutorEvent::StdoutDrained { text: stdout.to_string() })
        .step(ExecutorEvent::StderrJoined { diagnostics: String::new() })
        .step(ExecutorEvent::Exited { success: true, code: Some(0) });
    assert_eq!(executor.action(), ExecutorAction::Report);
    let outcome = executor.into_outcome().unwrap();
    let text = match supervisor.conclude(outcome) {
        Some(RetryDecision::Succeeded { stdout }) => stdout,
        other => panic!("unexpected decision: {:?}", other),
    };
    let decoded: serde_json::Value = serde_json::from_str(&text).unwrap();
    assert_eq!(decoded.get("query").and_then(|value| value.as_str()), Some("abc"));
    assert_eq!(decoded.get("results").and_then(|value| value.as_array()).map(|list| list.len()), Some(0));
    assert!(decoded.get("error").unwrap().is_null());
}

#[test]
fn failed_batch_is_reported_without_another_launch() {
    let paths = strings(&["a.txt", "b.md"]);
    let job = Job::batch("/db", &paths, None, None).unwrap();
    assert!(!job.retry_eligible());
    let executor = Executor::new(&job, "python.exe".to_string(), SCRIPT_NAME.to_string())
        .step(ExecutorEvent::Exists { present: true })
        .step(ExecutorEvent::Exists { present: true })
        .step(ExecutorEvent::Spawned)
        .step(ExecutorEvent::StdoutDrained { text: String::new() })
        .step(ExecutorEvent::StderrJoined { diagnostics: "out of memory".to_string() })
        .step(ExecutorEvent::Exited { success: false, code: Some(1) });
    let result = executor.into_outcome().unwrap().into_result(job.timeout_secs());
    assert_eq!(
        result,
        Err("Python process failed with exit code Some(1): out of memory".to_string())
    );
}
