//! What one launch of the child ends in, and the text that reports it.

use crate::text::{decimal, push_decimal, push_signed_decimal, signed_decimal};
use vstd::prelude::*;
use vstd::string::*;

verus! {

/// How one launch of the child ended. Each launch ends in exactly one.
#[derive(Debug, PartialEq, Eq)]
pub enum ExecutionOutcome {
    /// The child left with status zero; `stdout` is all it wrote to its
    /// primary channel.
    Success { stdout: String },
    /// The child left with another status; `stderr` is its diagnostic text.
    Failure { exit_code: Option<i32>, stderr: String },
    /// The deadline passed first.
    Timeout,
    /// No child could be launched.
    SpawnError { message: String },
    /// The channels or the exit status of the child could not be read.
    Interrupted { message: String },
}

/// `ExecutionOutcome` with its texts as sequences of characters.
pub enum OutcomeModel {
    Success { stdout: Seq<char> },
    Failure { exit_code: Option<i32>, stderr: Seq<char> },
    Timeout,
    SpawnError { message: Seq<char> },
    Interrupted { message: Seq<char> },
}

impl View for ExecutionOutcome {
    type V = OutcomeModel;

    open spec fn view(&self) -> OutcomeModel {
        match self {
            ExecutionOutcome::Success { stdout } => OutcomeModel::Success { stdout: stdout@ },
            ExecutionOutcome::Failure { exit_code, stderr } => OutcomeModel::Failure {
                exit_code: *exit_code,
                stderr: stderr@,
            },
            ExecutionOutcome::Timeout => OutcomeModel::Timeout,
            ExecutionOutcome::SpawnError { message } => OutcomeModel::SpawnError {
                message: message@,
            },
            ExecutionOutcome::Interrupted { message } => OutcomeModel::Interrupted {
                message: message@,
            },
        }
    }
}

/// An exit code as it is shown in a report: `Some(3)`, `Some(-1)`, `None`.
pub open spec fn exit_code_text(exit_code: Option<i32>) -> Seq<char> {
    match exit_code {
        Some(code) => "Some("@ + signed_decimal(code as int) + ")"@,
        None => "None"@,
    }
}

/// The report of an outcome that is no success, for a launch that was
/// given `timeout_secs` seconds. A success has no report: the empty text.
pub open spec fn failure_text(outcome: OutcomeModel, timeout_secs: nat) -> Seq<char> {
    match outcome {
        OutcomeModel::Success { .. } => Seq::empty(),
        OutcomeModel::Failure { exit_code, stderr } => "Python process failed with exit code "@
            + exit_code_text(exit_code) + ": "@ + stderr,
        OutcomeModel::Timeout => "Python command timed out after "@ + decimal(timeout_secs) + "s"@,
        OutcomeModel::SpawnError { message } => message,
        OutcomeModel::Interrupted { message } => message,
    }
}

/// What the caller of one launch gets: the primary-channel text of a
/// success, or the report of anything else.
pub open spec fn outcome_result(outcome: OutcomeModel, timeout_secs: nat) -> Result<
    Seq<char>,
    Seq<char>,
> {
    match outcome {
        OutcomeModel::Success { stdout } => Ok(stdout),
        _ => Err(failure_text(outcome, timeout_secs)),
    }
}

/// Writes an exit code as a report shows it.
pub fn format_exit_code(exit_code: Option<i32>) -> (text: String)
    ensures
        text@ == exit_code_text(exit_code),
{
    match exit_code {
        Some(code) => {
            let mut text = String::from_str("Some(");
            push_signed_decimal(&mut text, code);
            text.append(")");
            text
        },
        None => String::from_str("None"),
    }
}

impl ExecutionOutcome {
    /// Whether the child left with status zero.
    pub fn is_success(&self) -> (success: bool)
        ensures
            success == (self@ is Success),
    {
        match self {
            ExecutionOutcome::Success { .. } => true,
            _ => false,
        }
    }

    /// The report of this outcome; empty for a success.
    pub fn failure_message(&self, timeout_secs: u64) -> (message: String)
        ensures
            message@ == failure_text(self@, timeout_secs as nat),
    {
        match self {
            ExecutionOutcome::Success { .. } => String::new(),
            ExecutionOutcome::Failure { exit_code, stderr } => {
                let mut message = String::from_str("Python process failed with exit code ");
                let code = format_exit_code(*exit_code);
                message.append(code.as_str());
                message.append(": ");
                message.append(stderr.as_str());
                message
            },
            ExecutionOutcome::Timeout => {
                let mut message = String::from_str("Python command timed out after ");
                push_decimal(&mut message, timeout_secs);
                message.append("s");
                message
            },
            ExecutionOutcome::SpawnError { message } => message.clone(),
            ExecutionOutcome::Interrupted { message } => message.clone(),
        }
    }

    /// Turns the outcome into what the caller of one launch gets.
    pub fn into_result(self, timeout_secs: u64) -> (result: Result<String, String>)
        ensures
            match result {
                Ok(stdout) => outcome_result(self@, timeout_secs as nat) == Ok::<
                    Seq<char>,
                    Seq<char>,
                >(stdout@),
                Err(message) => outcome_result(self@, timeout_secs as nat) == Err::<
                    Seq<char>,
                    Seq<char>,
                >(message@),
            },
    {
        match self {
            ExecutionOutcome::Success { stdout } => Ok(stdout),
            other => Err(other.failure_message(timeout_secs)),
        }
    }
}

} // verus!
