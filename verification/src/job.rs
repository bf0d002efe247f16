//! Jobs: one call of the interpreter each, with its verb, its arguments,
//! its deadline and whether it may be tried again.
//!
//! A job exists only once its inputs have passed the checks of
//! `validate`: whoever holds a `Job` holds arguments that are safe to
//! hand to the child.

use crate::schedule::{
    batch_deadline, batch_timeout_secs, COMMAND_TIMEOUT_SECS, PROCESS_TIMEOUT_SECS,
};
use crate::text::{decimal, optional_text, push_decimal};
use crate::validate::{
    arguments_clean, arguments_verdict, has_double_dot, lemma_arguments_verdict, path_verdict,
    sanitize_python_args, texts_of, validate_file_path, ValidationError, ValidationErrorModel,
    Verdict,
};
use vstd::prelude::*;
use vstd::string::*;

verus! {

/// The script that the interpreter runs for every verb.
pub const SCRIPT_NAME: &'static str = "document_processor.py";

/// The collection that is used where the caller names none.
pub const DEFAULT_COLLECTION: &'static str = "documents";

/// The number of results asked for where the caller names none.
pub const DEFAULT_TOP_K: usize = 5;

/// What the interpreter is asked to do.
#[derive(Clone, Copy, Debug, PartialEq, Eq, Structural)]
pub enum Verb {
    Process,
    Query,
    Stats,
    Health,
    Batch,
}

impl Verb {
    /// How the report begins when the primary channel of a launch that
    /// succeeded cannot be read as the result of this verb.
    pub open spec fn decode_lead(self) -> Seq<char> {
        match self {
            Verb::Health => "Failed to parse ChromaDB health output: "@,
            Verb::Batch => "Failed to parse batch output: "@,
            _ => "Failed to parse Python output: "@,
        }
    }

    /// The report of a primary channel that cannot be read as the result
    /// of this verb. Such a failure is one of the child, not of the
    /// launch: the job is not tried again.
    pub fn decode_failure(&self, reason: &str) -> (message: String)
        ensures
            message@ == self.decode_lead() + reason@,
    {
        let mut message = match self {
            Verb::Health => String::from_str("Failed to parse ChromaDB health output: "),
            Verb::Batch => String::from_str("Failed to parse batch output: "),
            _ => String::from_str("Failed to parse Python output: "),
        };
        message.append(reason);
        message
    }
}

/// One call of the interpreter. Immutable once made.
#[derive(Debug)]
pub struct Job {
    verb: Verb,
    args: Vec<String>,
    timeout_secs: u64,
    retry_eligible: bool,
}

/// What a `Job` holds.
pub struct JobModel {
    /// The verb.
    pub verb: Verb,
    /// The arguments behind the script, as the child gets them.
    pub args: Seq<Seq<char>>,
    /// The deadline of one launch, in seconds.
    pub timeout_secs: nat,
    /// Whether a failed launch may be followed by another.
    pub retry_eligible: bool,
}

impl View for Job {
    type V = JobModel;

    closed spec fn view(&self) -> JobModel {
        JobModel {
            verb: self.verb,
            args: texts_of(self.args@),
            timeout_secs: self.timeout_secs as nat,
            retry_eligible: self.retry_eligible,
        }
    }
}

/// The result of making a job.
pub type Planned = Result<JobModel, ValidationErrorModel>;

/// The view of the result of making a job.
pub open spec fn planned_of(result: Result<Job, ValidationError>) -> Planned {
    match result {
        Ok(job) => Ok(job@),
        Err(error) => Err(error@),
    }
}

/// The name of the collection: the one given, or the default.
pub open spec fn collection_or_default(collection_name: Option<Seq<char>>) -> Seq<char> {
    match collection_name {
        Some(name) => name,
        None => DEFAULT_COLLECTION@,
    }
}

/// The arguments that stand before every verb.
pub open spec fn leading_arguments(db_path: Seq<char>) -> Seq<Seq<char>> {
    seq!["--json"@, "--db-path"@, db_path]
}

/// `flag` where `present`, else nothing.
pub open spec fn optional_flag(present: bool, flag: Seq<char>) -> Seq<Seq<char>> {
    if present {
        seq![flag]
    } else {
        Seq::empty()
    }
}

/// The arguments of `process`.
pub open spec fn process_arguments(
    db_path: Seq<char>,
    file_path: Seq<char>,
    collection_name: Option<Seq<char>>,
    use_ocr: Option<bool>,
    password: Option<Seq<char>>,
    smart: Option<bool>,
) -> Seq<Seq<char>> {
    leading_arguments(db_path) + seq![
        "process"@,
        file_path,
        "--collection"@,
        collection_or_default(collection_name),
    ] + optional_flag(use_ocr == Some(false), "--no-ocr"@) + (match password {
        Some(secret) => seq!["--password"@, secret],
        None => Seq::empty(),
    }) + optional_flag(smart == Some(true), "--smart"@)
}

/// The arguments of `query`.
pub open spec fn query_arguments(
    db_path: Seq<char>,
    query: Seq<char>,
    collection_name: Option<Seq<char>>,
    top_k: Option<usize>,
) -> Seq<Seq<char>> {
    leading_arguments(db_path) + seq![
        "query"@,
        query,
        "--collection"@,
        collection_or_default(collection_name),
        "--top-k"@,
        decimal(
            match top_k {
                Some(count) => count as nat,
                None => DEFAULT_TOP_K as nat,
            },
        ),
    ]
}

/// The arguments of `stats`.
pub open spec fn stats_arguments(db_path: Seq<char>, collection_name: Option<Seq<char>>) -> Seq<
    Seq<char>,
> {
    leading_arguments(db_path) + seq![
        "stats"@,
        "--collection"@,
        collection_or_default(collection_name),
    ]
}

/// The arguments of `health`.
pub open spec fn health_arguments(
    db_path: Seq<char>,
    collection_name: Option<Seq<char>>,
    auto_recover: Option<bool>,
) -> Seq<Seq<char>> {
    leading_arguments(db_path) + seq![
        "health"@,
        "--collection"@,
        collection_or_default(collection_name),
    ] + optional_flag(auto_recover == Some(true), "--auto-recover"@)
}

/// The arguments of `batch`.
pub open spec fn batch_arguments(
    db_path: Seq<char>,
    file_paths: Seq<Seq<char>>,
    collection_name: Option<Seq<char>>,
    smart: Option<bool>,
) -> Seq<Seq<char>> {
    leading_arguments(db_path) + seq!["batch"@, "--files"@] + file_paths + seq![
        "--collection"@,
        collection_or_default(collection_name),
    ] + optional_flag(smart == Some(true), "--smart"@)
}

/// The job with these parts, where its arguments pass; else the reason
/// for which the first refused argument is refused.
pub open spec fn sanitized_job(
    verb: Verb,
    args: Seq<Seq<char>>,
    timeout_secs: nat,
    retry_eligible: bool,
) -> Planned {
    match arguments_verdict(args) {
        Ok(_) => Ok(JobModel { verb, args, timeout_secs, retry_eligible }),
        Err(error) => Err(error),
    }
}

/// The verdict on the paths from position `from` on: that of the first
/// path that is refused.
pub open spec fn paths_verdict_from(paths: Seq<Seq<char>>, from: int) -> Verdict
    decreases paths.len() - from,
{
    if from < 0 || from >= paths.len() {
        Ok(())
    } else if path_verdict(paths[from]) is Err {
        path_verdict(paths[from])
    } else {
        paths_verdict_from(paths, from + 1)
    }
}

/// What `Job::process` makes: the path is judged first, then all the
/// arguments.
pub open spec fn process_job(
    db_path: Seq<char>,
    file_path: Seq<char>,
    collection_name: Option<Seq<char>>,
    use_ocr: Option<bool>,
    password: Option<Seq<char>>,
    smart: Option<bool>,
) -> Planned {
    match path_verdict(file_path) {
        Err(error) => Err(error),
        Ok(_) => sanitized_job(
            Verb::Process,
            process_arguments(db_path, file_path, collection_name, use_ocr, password, smart),
            PROCESS_TIMEOUT_SECS as nat,
            true,
        ),
    }
}

/// What `Job::batch` makes: an empty batch is refused, then the paths are
/// judged in order, then all the arguments. A batch is never tried again.
pub open spec fn batch_job(
    db_path: Seq<char>,
    file_paths: Seq<Seq<char>>,
    collection_name: Option<Seq<char>>,
    smart: Option<bool>,
) -> Planned {
    if file_paths.len() == 0 {
        Err(ValidationErrorModel::EmptyBatch)
    } else {
        match paths_verdict_from(file_paths, 0) {
            Err(error) => Err(error),
            Ok(_) => sanitized_job(
                Verb::Batch,
                batch_arguments(db_path, file_paths, collection_name, smart),
                batch_deadline(file_paths.len()),
                false,
            ),
        }
    }
}

fn push_text(args: &mut Vec<String>, text: &str)
    ensures
        texts_of(final(args)@) == texts_of(old(args)@).push(text@),
{
    args.push(String::from_str(text));
    assert(texts_of(args@) =~= texts_of(old(args)@).push(text@));
}

fn push_owned(args: &mut Vec<String>, text: String)
    ensures
        texts_of(final(args)@) == texts_of(old(args)@).push(text@),
{
    let ghost held = text@;
    args.push(text);
    assert(texts_of(args@) =~= texts_of(old(args)@).push(held));
}

fn push_collection(args: &mut Vec<String>, collection_name: Option<String>)
    ensures
        texts_of(final(args)@) == texts_of(old(args)@).push("--collection"@).push(
            collection_or_default(optional_text(collection_name)),
        ),
{
    push_text(args, "--collection");
    match collection_name {
        Some(name) => push_owned(args, name),
        None => push_text(args, DEFAULT_COLLECTION),
    }
}

fn leading(db_path: &str) -> (args: Vec<String>)
    ensures
        texts_of(args@) == leading_arguments(db_path@),
{
    let mut args: Vec<String> = Vec::new();
    assert(texts_of(args@) =~= Seq::<Seq<char>>::empty());
    push_text(&mut args, "--json");
    push_text(&mut args, "--db-path");
    push_text(&mut args, db_path);
    assert(texts_of(args@) =~= leading_arguments(db_path@));
    args
}

impl Job {
    #[verifier::type_invariant]
    spec fn well_formed(self) -> bool {
        arguments_clean(texts_of(self.args@))
    }

    /// Makes the job once its arguments have passed the check.
    fn sanitized(verb: Verb, args: Vec<String>, timeout_secs: u64, retry_eligible: bool) -> (result:
        Result<Job, ValidationError>)
        ensures
            planned_of(result) == sanitized_job(
                verb,
                texts_of(args@),
                timeout_secs as nat,
                retry_eligible,
            ),
    {
        match sanitize_python_args(args.as_slice()) {
            Err(error) => Err(error),
            Ok(()) => Ok(Job { verb, args, timeout_secs, retry_eligible }),
        }
    }

    /// The job that extracts, chunks, embeds and stores one document.
    /// OCR is switched off only by `Some(false)`.
    pub fn process(
        db_path: &str,
        file_path: &str,
        collection_name: Option<String>,
        use_ocr: Option<bool>,
        password: Option<String>,
        smart: Option<bool>,
    ) -> (result: Result<Job, ValidationError>)
        ensures
            planned_of(result) == process_job(
                db_path@,
                file_path@,
                optional_text(collection_name),
                use_ocr,
                optional_text(password),
                smart,
            ),
    {
        match validate_file_path(file_path) {
            Err(error) => {
                return Err(error);
            },
            Ok(()) => {},
        }
        let mut args = leading(db_path);
        push_text(&mut args, "process");
        push_text(&mut args, file_path);
        push_collection(&mut args, collection_name);
        match use_ocr {
            Some(false) => push_text(&mut args, "--no-ocr"),
            _ => {},
        }
        match password {
            Some(secret) => {
                push_text(&mut args, "--password");
                push_owned(&mut args, secret);
            },
            None => {},
        }
        match smart {
            Some(true) => push_text(&mut args, "--smart"),
            _ => {},
        }
        assert(texts_of(args@) =~= process_arguments(
            db_path@,
            file_path@,
            optional_text(collection_name),
            use_ocr,
            optional_text(password),
            smart,
        ));
        Job::sanitized(Verb::Process, args, PROCESS_TIMEOUT_SECS, true)
    }

    /// The job that searches the indexed documents.
    pub fn query(
        db_path: &str,
        query: &str,
        collection_name: Option<String>,
        top_k: Option<usize>,
    ) -> (result: Result<Job, ValidationError>)
        ensures
            planned_of(result) == sanitized_job(
                Verb::Query,
                query_arguments(db_path@, query@, optional_text(collection_name), top_k),
                COMMAND_TIMEOUT_SECS as nat,
                true,
            ),
    {
        let mut args = leading(db_path);
        push_text(&mut args, "query");
        push_text(&mut args, query);
        push_collection(&mut args, collection_name);
        push_text(&mut args, "--top-k");
        let count: usize = match top_k {
            Some(count) => count,
            None => DEFAULT_TOP_K,
        };
        let mut numeral = String::new();
        push_decimal(&mut numeral, count as u64);
        assert(numeral@ =~= decimal(count as nat));
        push_owned(&mut args, numeral);
        assert(texts_of(args@) =~= query_arguments(
            db_path@,
            query@,
            optional_text(collection_name),
            top_k,
        ));
        Job::sanitized(Verb::Query, args, COMMAND_TIMEOUT_SECS, true)
    }

    /// The job that counts what a collection holds.
    pub fn stats(db_path: &str, collection_name: Option<String>) -> (result: Result<
        Job,
        ValidationError,
    >)
        ensures
            planned_of(result) == sanitized_job(
                Verb::Stats,
                stats_arguments(db_path@, optional_text(collection_name)),
                COMMAND_TIMEOUT_SECS as nat,
                true,
            ),
    {
        let mut args = leading(db_path);
        push_text(&mut args, "stats");
        push_collection(&mut args, collection_name);
        assert(texts_of(args@) =~= stats_arguments(db_path@, optional_text(collection_name)));
        Job::sanitized(Verb::Stats, args, COMMAND_TIMEOUT_SECS, true)
    }

    /// The job that checks the store; recovery is asked for only by
    /// `Some(true)`.
    pub fn health(db_path: &str, collection_name: Option<String>, auto_recover: Option<bool>) -> (result:
        Result<Job, ValidationError>)
        ensures
            planned_of(result) == sanitized_job(
                Verb::Health,
                health_arguments(db_path@, optional_text(collection_name), auto_recover),
                COMMAND_TIMEOUT_SECS as nat,
                true,
            ),
    {
        let mut args = leading(db_path);
        push_text(&mut args, "health");
        push_collection(&mut args, collection_name);
        match auto_recover {
            Some(true) => push_text(&mut args, "--auto-recover"),
            _ => {},
        }
        assert(texts_of(args@) =~= health_arguments(
            db_path@,
            optional_text(collection_name),
            auto_recover,
        ));
        Job::sanitized(Verb::Health, args, COMMAND_TIMEOUT_SECS, true)
    }

    /// The job that processes several documents in one launch. Its
    /// deadline grows with the number of files, and it is never tried
    /// again: a batch that stopped half-way is not safe to repeat.
    pub fn batch(
        db_path: &str,
        file_paths: &Vec<String>,
        collection_name: Option<String>,
        smart: Option<bool>,
    ) -> (result: Result<Job, ValidationError>)
        ensures
            planned_of(result) == batch_job(
                db_path@,
                texts_of(file_paths@),
                optional_text(collection_name),
                smart,
            ),
    {
        if file_paths.len() == 0 {
            return Err(ValidationError::EmptyBatch);
        }
        let ghost paths = texts_of(file_paths@);
        let mut args = leading(db_path);
        push_text(&mut args, "batch");
        push_text(&mut args, "--files");
        let ghost head = texts_of(args@);
        let mut i: usize = 0;
        while i < file_paths.len()
            invariant
                i <= file_paths.len(),
                paths == texts_of(file_paths@),
                paths_verdict_from(paths, 0) == paths_verdict_from(paths, i as int),
                texts_of(args@) == head + paths.take(i as int),
            decreases file_paths.len() - i,
        {
            match validate_file_path(file_paths[i].as_str()) {
                Err(error) => {
                    return Err(error);
                },
                Ok(()) => {},
            }
            push_text(&mut args, file_paths[i].as_str());
            assert(paths.take(i + 1) =~= paths.take(i as int).push(paths[i as int]));
            assert(head + paths.take(i + 1) =~= (head + paths.take(i as int)).push(
                paths[i as int],
            ));
            i += 1;
        }
        assert(paths.take(i as int) =~= paths);
        push_collection(&mut args, collection_name);
        match smart {
            Some(true) => push_text(&mut args, "--smart"),
            _ => {},
        }
        assert(texts_of(args@) =~= batch_arguments(
            db_path@,
            paths,
            optional_text(collection_name),
            smart,
        ));
        let timeout_secs = batch_timeout_secs(file_paths.len());
        Job::sanitized(Verb::Batch, args, timeout_secs, false)
    }

    /// The verb.
    pub fn verb(&self) -> (verb: Verb)
        ensures
            verb == self@.verb,
    {
        self.verb
    }

    /// The arguments behind the script, as the child gets them. They are
    /// free of the characters that no argument may hold.
    pub fn args(&self) -> (args: &Vec<String>)
        ensures
            texts_of(args@) == self@.args,
            arguments_clean(self@.args),
    {
        proof {
            use_type_invariant(self);
        }
        &self.args
    }

    /// The deadline of one launch, in seconds.
    pub fn timeout_secs(&self) -> (secs: u64)
        ensures
            secs == self@.timeout_secs,
    {
        self.timeout_secs
    }

    /// Whether a failed launch may be followed by another.
    pub fn retry_eligible(&self) -> (eligible: bool)
        ensures
            eligible == self@.retry_eligible,
    {
        self.retry_eligible
    }
}

/// No job is made from a path that holds `..`: `process` refuses it as a
/// traversal, and `batch` refuses every list that holds such a path. So
/// nothing is launched for it.
pub proof fn lemma_traversal_makes_no_job(
    db_path: Seq<char>,
    file_paths: Seq<Seq<char>>,
    collection_name: Option<Seq<char>>,
    use_ocr: Option<bool>,
    password: Option<Seq<char>>,
    smart: Option<bool>,
    at: int,
)
    requires
        0 <= at < file_paths.len(),
        has_double_dot(file_paths[at]),
    ensures
        process_job(db_path, file_paths[at], collection_name, use_ocr, password, smart) == Err::<
            JobModel,
            ValidationErrorModel,
        >(ValidationErrorModel::PathTraversal),
        batch_job(db_path, file_paths, collection_name, smart) is Err,
        at == 0 ==> batch_job(db_path, file_paths, collection_name, smart) == Err::<
            JobModel,
            ValidationErrorModel,
        >(ValidationErrorModel::PathTraversal),
{
    lemma_paths_verdict_from(file_paths, 0, at);
}

proof fn lemma_paths_verdict_from(paths: Seq<Seq<char>>, from: int, at: int)
    requires
        0 <= from <= at < paths.len(),
        path_verdict(paths[at]) is Err,
    ensures
        paths_verdict_from(paths, from) is Err,
    decreases at - from,
{
    if from < at && !(path_verdict(paths[from]) is Err) {
        lemma_paths_verdict_from(paths, from + 1, at);
    }
}

/// Every job holds arguments that passed the check: what is made is
/// exactly what `sanitize_python_args` lets through.
pub proof fn lemma_jobs_are_sanitized(
    verb: Verb,
    args: Seq<Seq<char>>,
    timeout_secs: nat,
    retry_eligible: bool,
)
    ensures
        sanitized_job(verb, args, timeout_secs, retry_eligible) is Ok <==> arguments_clean(args),
        sanitized_job(verb, args, timeout_secs, retry_eligible) matches Ok(job) ==> job.args == args,
{
    lemma_arguments_verdict(args);
}

} // verus!
