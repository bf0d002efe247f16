//! The secondary channel of the child: one line at a time, each either a
//! structured event that is forwarded at once, or diagnostic text that is
//! kept for the report of a failure.

use vstd::prelude::*;
use vstd::string::*;

verus! {

/// Marker of a progress line.
pub const PROGRESS_KEY: &'static str = "progress";

/// Marker of a per-file result line of a batch.
pub const FILE_RESULT_KEY: &'static str = "file_result";

/// Sink that receives progress lines.
pub const PROGRESS_CHANNEL: &'static str = "document-processing";

/// Sink that receives the per-file results of a batch.
pub const FILE_RESULT_CHANNEL: &'static str = "batch-file-result";

/// What one line of the secondary channel is.
#[derive(Clone, Copy, Debug, PartialEq, Eq, Structural)]
pub enum LineClass {
    /// A JSON object that carries `"progress": true`.
    Progress,
    /// A JSON object that carries `"file_result": true`.
    FileResult,
    /// Anything else: kept as diagnostic text.
    Diagnostic,
}

/// The boolean that `serde_json` finds under `key` at the top level of `line`
/// read as one JSON document: `None` where `line` is no JSON document, where
/// the document is no object, where it has no member `key`, or where that
/// member is no boolean.
pub uninterp spec fn json_flag_of(line: Seq<char>, key: Seq<char>) -> Option<bool>;

/// Reads `line` with `serde_json::from_str` as a `serde_json::Value`, looks
/// `key` up with `Value::get` and reads the member with `Value::as_bool`.
/// The result is a function of the two texts alone; the contract gives it
/// the name `json_flag_of` and claims nothing else of it.
#[verifier::external_body]
fn json_flag(line: &str, key: &str) -> (flag: Option<bool>)
    ensures
        flag == json_flag_of(line@, key@),
{
    match serde_json::from_str::<serde_json::Value>(line) {
        Ok(document) => match document.get(key) {
            Some(member) => member.as_bool(),
            None => None,
        },
        Err(_) => None,
    }
}

/// The class of a line, given what stands under its two markers.
/// The progress marker is looked at first.
pub open spec fn marker_class(progress: Option<bool>, file_result: Option<bool>) -> LineClass {
    if progress == Some(true) {
        LineClass::Progress
    } else if file_result == Some(true) {
        LineClass::FileResult
    } else {
        LineClass::Diagnostic
    }
}

/// The class of a line of the secondary channel.
pub open spec fn line_class(line: Seq<char>) -> LineClass {
    marker_class(json_flag_of(line, PROGRESS_KEY@), json_flag_of(line, FILE_RESULT_KEY@))
}

/// Whether a line is kept as diagnostic text.
pub open spec fn is_diagnostic(line: Seq<char>) -> bool {
    line_class(line) == LineClass::Diagnostic
}

/// `collected` with `line` added: lines are separated by one newline, and
/// nothing separates a line from an empty beginning.
pub open spec fn append_line(collected: Seq<char>, line: Seq<char>) -> Seq<char> {
    if collected.len() == 0 {
        line
    } else {
        collected + seq!['\n'] + line
    }
}

/// The lines joined in order, as `append_line` joins them.
pub open spec fn join_lines(lines: Seq<Seq<char>>) -> Seq<char>
    decreases lines.len(),
{
    if lines.len() == 0 {
        Seq::empty()
    } else {
        append_line(join_lines(lines.drop_last()), lines.last())
    }
}

/// The lines that are kept as diagnostic text, in their order.
pub open spec fn diagnostic_lines(lines: Seq<Seq<char>>) -> Seq<Seq<char>> {
    lines.filter(|line: Seq<char>| is_diagnostic(line))
}

/// The diagnostic text after one more line: a structured event leaves it
/// as it was.
pub open spec fn collect_step(collected: Seq<char>, line: Seq<char>) -> Seq<char> {
    if is_diagnostic(line) {
        append_line(collected, line)
    } else {
        collected
    }
}

/// The diagnostic text after all of `lines`, taken in order from an empty
/// beginning.
pub open spec fn diagnostics_of(lines: Seq<Seq<char>>) -> Seq<char>
    decreases lines.len(),
{
    if lines.len() == 0 {
        Seq::empty()
    } else {
        collect_step(diagnostics_of(lines.drop_last()), lines.last())
    }
}

/// Classifies a line from what stands under its two markers.
pub fn classify_markers(progress: Option<bool>, file_result: Option<bool>) -> (class: LineClass)
    ensures
        class == marker_class(progress, file_result),
{
    match progress {
        Some(true) => LineClass::Progress,
        _ => match file_result {
            Some(true) => LineClass::FileResult,
            _ => LineClass::Diagnostic,
        },
    }
}

/// Classifies one line of the secondary channel.
pub fn classify_line(line: &str) -> (class: LineClass)
    ensures
        class == line_class(line@),
{
    let progress = json_flag(line, PROGRESS_KEY);
    let file_result = json_flag(line, FILE_RESULT_KEY);
    classify_markers(progress, file_result)
}

impl LineClass {
    /// The sink of a structured event; diagnostic text has none.
    pub open spec fn channel_model(self) -> Option<Seq<char>> {
        match self {
            LineClass::Progress => Some(PROGRESS_CHANNEL@),
            LineClass::FileResult => Some(FILE_RESULT_CHANNEL@),
            LineClass::Diagnostic => None,
        }
    }

    /// The sink to which a line of this class is forwarded.
    pub fn channel(&self) -> (name: Option<&'static str>)
        ensures
            name is Some == self.channel_model() is Some,
            name matches Some(text) ==> Some(text@) == self.channel_model(),
    {
        match self {
            LineClass::Progress => Some(PROGRESS_CHANNEL),
            LineClass::FileResult => Some(FILE_RESULT_CHANNEL),
            LineClass::Diagnostic => None,
        }
    }
}

/// Collects the diagnostic text of one child, line by line.
pub struct StderrCollector {
    collected: String,
}

impl View for StderrCollector {
    type V = Seq<char>;

    /// The diagnostic text collected so far.
    closed spec fn view(&self) -> Seq<char> {
        self.collected@
    }
}

impl StderrCollector {
    /// A collector that has seen no line.
    pub fn new() -> (collector: Self)
        ensures
            collector@ == Seq::<char>::empty(),
    {
        StderrCollector { collected: String::new() }
    }

    /// Takes the next line. A structured event is reported by its class and
    /// leaves the text untouched; any other line is added to the text.
    pub fn accept(&mut self, line: &str) -> (class: LineClass)
        ensures
            class == line_class(line@),
            final(self)@ == collect_step(old(self)@, line@),
    {
        let class = classify_line(line);
        match class {
            LineClass::Diagnostic => {
                if !self.collected.as_str().is_empty() {
                    self.collected.push('\n');
                    assert(old(self)@.push('\n') =~= old(self)@ + seq!['\n']);
                }
                self.collected.append(line);
            },
            _ => {},
        }
        class
    }

    /// The diagnostic text of all lines taken.
    pub fn finish(self) -> (text: String)
        ensures
            text@ == self@,
    {
        self.collected
    }
}

/// After the lines `lines`, taken in order by a collector that started
/// empty, the diagnostic text is `diagnostics_of(lines)`: one more line
/// moves it by `collect_step`.
pub proof fn lemma_diagnostics_step(lines: Seq<Seq<char>>, line: Seq<char>)
    ensures
        diagnostics_of(lines.push(line)) == collect_step(diagnostics_of(lines), line),
{
    assert(lines.push(line).drop_last() =~= lines);
}

/// The diagnostic text is made of the diagnostic lines alone: it is the
/// join of the lines that are no structured events, in their order. A line
/// tagged as progress or as a file result adds nothing to it.
pub proof fn lemma_diagnostics_hold_no_events(lines: Seq<Seq<char>>)
    ensures
        diagnostics_of(lines) == join_lines(diagnostic_lines(lines)),
        forall|i: int|
            0 <= i < diagnostic_lines(lines).len() ==> is_diagnostic(
                #[trigger] diagnostic_lines(lines)[i],
            ),
    decreases lines.len(),
{
    reveal(Seq::filter);
    if lines.len() > 0 {
        lemma_diagnostics_hold_no_events(lines.drop_last());
        let kept = diagnostic_lines(lines.drop_last());
        if is_diagnostic(lines.last()) {
            assert(kept.push(lines.last()).drop_last() =~= kept);
        }
    }
}

/// Where every line is a structured event, no diagnostic text is left.
pub proof fn lemma_events_leave_no_text(lines: Seq<Seq<char>>)
    requires
        forall|i: int| 0 <= i < lines.len() ==> !is_diagnostic(#[trigger] lines[i]),
    ensures
        diagnostics_of(lines) == Seq::<char>::empty(),
    decreases lines.len(),
{
    if lines.len() > 0 {
        lemma_events_leave_no_text(lines.drop_last());
    }
}

} // verus!
