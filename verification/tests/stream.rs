use python_supervisor::stream::{
    classify_line, classify_markers, LineClass, StderrCollector, FILE_RESULT_CHANNEL,
    PROGRESS_CHANNEL,
};

#[test]
fn markers_decide_the_class() {
    assert_eq!(classify_markers(Some(true), None), LineClass::Progress);
    assert_eq!(classify_markers(Some(true), Some(true)), LineClass::Progress);
    assert_eq!(classify_markers(None, Some(true)), LineClass::FileResult);
    assert_eq!(classify_markers(Some(false), Some(true)), LineClass::FileResult);
    assert_eq!(classify_markers(Some(false), Some(false)), LineClass::Diagnostic);
    assert_eq!(classify_markers(None, None), LineClass::Diagnostic);
}

#[test]
fn lines_are_classified_by_their_json() {
    assert_eq!(classify_line("{\"progress\": true, \"step\": 3}"), LineClass::Progress);
    assert_eq!(classify_line("{\"file_result\":true,\"file_name\":\"a.txt\"}"), LineClass::FileResult);
    assert_eq!(classify_line("{\"progress\": false}"), LineClass::Diagnostic);
    assert_eq!(classify_line("{\"progress\": \"true\"}"), LineClass::Diagnostic);
    assert_eq!(classify_line("{\"progress\": 1}"), LineClass::Diagnostic);
    assert_eq!(classify_line("[true]"), LineClass::Diagnostic);
    assert_eq!(classify_line("true"), LineClass::Diagnostic);
    assert_eq!(classify_line("progress"), LineClass::Diagnostic);
    assert_eq!(classify_line("Traceback (most recent call last):"), LineClass::Diagnostic);
    assert_eq!(classify_line("x {\"progress\": true}"), LineClass::Diagnostic);
    assert_eq!(classify_line(""), LineClass::Diagnostic);
}

#[test]
fn classes_name_their_channels() {
    assert_eq!(LineClass::Progress.channel(), Some("document-processing"));
    assert_eq!(LineClass::FileResult.channel(), Some("batch-file-result"));
    assert_eq!(LineClass::Diagnostic.channel(), None);
    assert_eq!(PROGRESS_CHANNEL, "document-processing");
    assert_eq!(FILE_RESULT_CHANNEL, "batch-file-result");
}

#[test]
fn progress_lines_never_reach_the_diagnostics() {
    let mut collector = StderrCollector::new();
    assert_eq!(collector.accept("loading model"), LineClass::Diagnostic);
    assert_eq!(collector.accept("{\"progress\": true, \"pct\": 10}"), LineClass::Progress);
    assert_eq!(collector.accept("{\"file_result\": true}"), LineClass::FileResult);
    assert_eq!(collector.accept("ValueError: bad input"), LineClass::Diagnostic);
    assert_eq!(collector.accept("{\"progress\": true, \"pct\": 90}"), LineClass::Progress);
    assert_eq!(collector.finish(), "loading model\nValueError: bad input");
}

#[test]
fn only_events_leave_no_diagnostics() {
    let mut collector = StderrCollector::new();
    collector.accept("{\"progress\": true}");
    collector.accept("{\"file_result\": true}");
    assert_eq!(collector.finish(), "");
    assert_eq!(StderrCollector::new().finish(), "");
}

#[test]
fn empty_beginning_takes_no_separator() {
    let mut collector = StderrCollector::new();
    collector.accept("");
    collector.accept("first");
    collector.accept("");
    collector.accept("last");
    assert_eq!(collector.finish(), "first\n\nlast");
}
