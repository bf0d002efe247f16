//! One launch of the child, as a machine that decides and leaves the work
//! to its driver.
//!
//! The driver performs the action that the machine asks for and hands back
//! what happened as an event: whether a file exists, whether the child was
//! launched, what its primary channel held, what diagnostic text its
//! secondary channel left, how it exited, or that the deadline passed. The
//! machine ends in exactly one `ExecutionOutcome`.

use crate::job::Job;
use crate::outcome::{exit_code_text, failure_text, ExecutionOutcome, OutcomeModel};
use crate::stream::{
    diagnostic_lines, diagnostics_of, join_lines, lemma_diagnostics_hold_no_events,
};
use vstd::prelude::*;
use vstd::string::*;

verus! {

/// What the driver has to do next.
#[derive(Clone, Copy, Debug, PartialEq, Eq, Structural)]
pub enum ExecutorAction {
    /// Tell whether the interpreter binary exists.
    ProbeBinary,
    /// Tell whether the script exists.
    ProbeScript,
    /// Launch the child: input closed, both output channels piped.
    Spawn,
    /// Read the primary channel to its end, under the deadline.
    DrainStdout,
    /// Wait for the reader of the secondary channel, under the deadline.
    JoinStderr,
    /// Wait for the child to exit, under the deadline.
    AwaitExit,
    /// Terminate the child, drop what was read, and report the outcome.
    Kill,
    /// Report the outcome; no child is left.
    Report,
}

/// What the driver hands back.
#[derive(Debug)]
pub enum ExecutorEvent {
    /// The answer to a probe.
    Exists { present: bool },
    /// The child runs.
    Spawned,
    /// The child could not be launched.
    SpawnFailed { reason: String },
    /// The child runs, but one of its channels could not be taken:
    /// the primary one, or else the secondary one.
    CaptureFailed { primary: bool },
    /// The primary channel was read to its end.
    StdoutDrained { text: String },
    /// The secondary channel was read to its end; `diagnostics` is the text
    /// that its lines left.
    StderrJoined { diagnostics: String },
    /// The child exited.
    Exited { success: bool, code: Option<i32> },
    /// The pending read or wait failed.
    IoFailed { reason: String },
    /// The deadline passed.
    DeadlineElapsed,
}

/// `ExecutorEvent` with its texts as sequences of characters.
pub enum EventModel {
    Exists { present: bool },
    Spawned,
    SpawnFailed { reason: Seq<char> },
    CaptureFailed { primary: bool },
    StdoutDrained { text: Seq<char> },
    StderrJoined { diagnostics: Seq<char> },
    Exited { success: bool, code: Option<i32> },
    IoFailed { reason: Seq<char> },
    DeadlineElapsed,
}

impl View for ExecutorEvent {
    type V = EventModel;

    open spec fn view(&self) -> EventModel {
        match self {
            ExecutorEvent::Exists { present } => EventModel::Exists { present: *present },
            ExecutorEvent::Spawned => EventModel::Spawned,
            ExecutorEvent::SpawnFailed { reason } => EventModel::SpawnFailed { reason: reason@ },
            ExecutorEvent::CaptureFailed { primary } => EventModel::CaptureFailed {
                primary: *primary,
            },
            ExecutorEvent::StdoutDrained { text } => EventModel::StdoutDrained { text: text@ },
            ExecutorEvent::StderrJoined { diagnostics } => EventModel::StderrJoined {
                diagnostics: diagnostics@,
            },
            ExecutorEvent::Exited { success, code } => EventModel::Exited {
                success: *success,
                code: *code,
            },
            ExecutorEvent::IoFailed { reason } => EventModel::IoFailed { reason: reason@ },
            ExecutorEvent::DeadlineElapsed => EventModel::DeadlineElapsed,
        }
    }
}

/// Where a launch stands.
#[derive(Debug)]
pub enum Stage {
    ProbingBinary,
    ProbingScript,
    Spawning,
    DrainingStdout,
    JoiningStderr { stdout: String },
    AwaitingExit { stdout: String, stderr: String },
    Finished { outcome: ExecutionOutcome, child_alive: bool },
}

/// `Stage` with its texts as sequences of characters.
pub enum StageModel {
    ProbingBinary,
    ProbingScript,
    Spawning,
    DrainingStdout,
    JoiningStderr { stdout: Seq<char> },
    AwaitingExit { stdout: Seq<char>, stderr: Seq<char> },
    Finished { outcome: OutcomeModel, child_alive: bool },
}

impl View for Stage {
    type V = StageModel;

    open spec fn view(&self) -> StageModel {
        match self {
            Stage::ProbingBinary => StageModel::ProbingBinary,
            Stage::ProbingScript => StageModel::ProbingScript,
            Stage::Spawning => StageModel::Spawning,
            Stage::DrainingStdout => StageModel::DrainingStdout,
            Stage::JoiningStderr { stdout } => StageModel::JoiningStderr { stdout: stdout@ },
            Stage::AwaitingExit { stdout, stderr } => StageModel::AwaitingExit {
                stdout: stdout@,
                stderr: stderr@,
            },
            Stage::Finished { outcome, child_alive } => StageModel::Finished {
                outcome: outcome@,
                child_alive: *child_alive,
            },
        }
    }
}

impl StageModel {
    /// The child runs under the deadline.
    pub open spec fn under_deadline(self) -> bool {
        self is DrainingStdout || self is JoiningStderr || self is AwaitingExit
    }

    /// The end of a launch that never had a child.
    pub open spec fn unlaunched(message: Seq<char>) -> StageModel {
        StageModel::Finished { outcome: OutcomeModel::SpawnError { message }, child_alive: false }
    }

    /// The end of a launch whose child may still run.
    pub open spec fn abandoned(outcome: OutcomeModel) -> StageModel {
        StageModel::Finished { outcome, child_alive: true }
    }

    /// The end of a launch whose child has exited.
    pub open spec fn exited(outcome: OutcomeModel) -> StageModel {
        StageModel::Finished { outcome, child_alive: false }
    }

    /// The action that this stage asks for.
    pub open spec fn pending(self) -> ExecutorAction {
        match self {
            StageModel::ProbingBinary => ExecutorAction::ProbeBinary,
            StageModel::ProbingScript => ExecutorAction::ProbeScript,
            StageModel::Spawning => ExecutorAction::Spawn,
            StageModel::DrainingStdout => ExecutorAction::DrainStdout,
            StageModel::JoiningStderr { .. } => ExecutorAction::JoinStderr,
            StageModel::AwaitingExit { .. } => ExecutorAction::AwaitExit,
            StageModel::Finished { child_alive, .. } => if child_alive {
                ExecutorAction::Kill
            } else {
                ExecutorAction::Report
            },
        }
    }

    /// The stage after `event`, for a launch of `binary` on `script`.
    /// An event that the stage does not wait for changes nothing.
    pub open spec fn after(self, event: EventModel, binary: Seq<char>, script: Seq<char>)
        -> StageModel {
        match (self, event) {
            (StageModel::ProbingBinary, EventModel::Exists { present }) => if present {
                StageModel::ProbingScript
            } else {
                StageModel::unlaunched("Bundled Python not found: "@ + binary)
            },
            (StageModel::ProbingScript, EventModel::Exists { present }) => if present {
                StageModel::Spawning
            } else {
                StageModel::unlaunched("Python script not found: "@ + script)
            },
            (StageModel::Spawning, EventModel::Spawned) => StageModel::DrainingStdout,
            (StageModel::Spawning, EventModel::SpawnFailed { reason }) => StageModel::unlaunched(
                "Failed to spawn Python process: "@ + reason,
            ),
            (StageModel::Spawning, EventModel::CaptureFailed { primary }) => StageModel::abandoned(
                OutcomeModel::SpawnError {
                    message: if primary {
                        "Failed to capture stdout"@
                    } else {
                        "Failed to capture stderr"@
                    },
                },
            ),
            (StageModel::DrainingStdout, EventModel::StdoutDrained { text }) => {
                StageModel::JoiningStderr { stdout: text }
            },
            (StageModel::DrainingStdout, EventModel::IoFailed { reason }) => StageModel::abandoned(
                OutcomeModel::Interrupted { message: "Failed to read stdout: "@ + reason },
            ),
            (StageModel::JoiningStderr { stdout }, EventModel::StderrJoined { diagnostics }) => {
                StageModel::AwaitingExit { stdout, stderr: diagnostics }
            },
            (StageModel::JoiningStderr { .. }, EventModel::IoFailed { reason }) => {
                StageModel::abandoned(
                    OutcomeModel::Interrupted { message: "stderr task failed: "@ + reason },
                )
            },
            (StageModel::AwaitingExit { stdout, stderr }, EventModel::Exited { success, code }) => {
                if success {
                    StageModel::exited(OutcomeModel::Success { stdout })
                } else {
                    StageModel::exited(OutcomeModel::Failure { exit_code: code, stderr })
                }
            },
            (StageModel::AwaitingExit { .. }, EventModel::IoFailed { reason }) => {
                StageModel::abandoned(OutcomeModel::Interrupted { message: reason })
            },
            (_, EventModel::DeadlineElapsed) => if self.under_deadline() {
                StageModel::abandoned(OutcomeModel::Timeout)
            } else {
                self
            },
            _ => self,
        }
    }

    /// The stage after all of `events`, in order.
    pub open spec fn after_all(
        self,
        events: Seq<EventModel>,
        binary: Seq<char>,
        script: Seq<char>,
    ) -> StageModel
        decreases events.len(),
    {
        if events.len() == 0 {
            self
        } else {
            self.after_all(events.drop_last(), binary, script).after(events.last(), binary, script)
        }
    }
}

/// One launch of the child.
pub struct Executor {
    binary: String,
    script: String,
    timeout_secs: u64,
    stage: Stage,
}

/// What an `Executor` holds.
pub struct ExecutorModel {
    /// The interpreter binary, as reports show it.
    pub binary: Seq<char>,
    /// The script, as reports show it.
    pub script: Seq<char>,
    /// The deadline of the launch, in seconds.
    pub timeout_secs: nat,
    /// Where the launch stands.
    pub stage: StageModel,
}

impl View for Executor {
    type V = ExecutorModel;

    closed spec fn view(&self) -> ExecutorModel {
        ExecutorModel {
            binary: self.binary@,
            script: self.script@,
            timeout_secs: self.timeout_secs as nat,
            stage: self.stage@,
        }
    }
}

impl ExecutorModel {
    /// The launch after `event`.
    pub open spec fn after(self, event: EventModel) -> ExecutorModel {
        ExecutorModel { stage: self.stage.after(event, self.binary, self.script), ..self }
    }

    /// The launch after all of `events`, in order.
    pub open spec fn after_all(self, events: Seq<EventModel>) -> ExecutorModel {
        ExecutorModel { stage: self.stage.after_all(events, self.binary, self.script), ..self }
    }

    /// The outcome, once the launch has ended.
    pub open spec fn outcome(self) -> Option<OutcomeModel> {
        match self.stage {
            StageModel::Finished { outcome, .. } => Some(outcome),
            _ => None,
        }
    }
}

impl Executor {
    /// A launch of `job` that has not begun, with the deadline of the job.
    /// `binary` and `script` are the two paths as reports are to show
    /// them. A launch is made from a job alone, and a job holds only
    /// arguments that passed the checks.
    pub fn new(job: &Job, binary: String, script: String) -> (executor: Self)
        ensures
            executor@ == (ExecutorModel {
                binary: binary@,
                script: script@,
                timeout_secs: job@.timeout_secs,
                stage: StageModel::ProbingBinary,
            }),
    {
        Executor { binary, script, timeout_secs: job.timeout_secs(), stage: Stage::ProbingBinary }
    }

    /// The deadline of the launch, in seconds.
    pub fn timeout_secs(&self) -> (secs: u64)
        ensures
            secs == self@.timeout_secs,
    {
        self.timeout_secs
    }

    /// What the driver has to do now.
    pub fn action(&self) -> (action: ExecutorAction)
        ensures
            action == self@.stage.pending(),
    {
        match &self.stage {
            Stage::ProbingBinary => ExecutorAction::ProbeBinary,
            Stage::ProbingScript => ExecutorAction::ProbeScript,
            Stage::Spawning => ExecutorAction::Spawn,
            Stage::DrainingStdout => ExecutorAction::DrainStdout,
            Stage::JoiningStderr { .. } => ExecutorAction::JoinStderr,
            Stage::AwaitingExit { .. } => ExecutorAction::AwaitExit,
            Stage::Finished { child_alive, .. } => if *child_alive {
                ExecutorAction::Kill
            } else {
                ExecutorAction::Report
            },
        }
    }

    /// Whether the launch has ended.
    pub fn is_finished(&self) -> (finished: bool)
        ensures
            finished == (self@.stage is Finished),
    {
        match &self.stage {
            Stage::Finished { .. } => true,
            _ => false,
        }
    }

    /// Takes in what happened and moves on.
    pub fn step(self, event: ExecutorEvent) -> (next: Self)
        ensures
            next@ == self@.after(event@),
    {
        let Executor { binary, script, timeout_secs, stage } = self;
        let next_stage = match (stage, event) {
            (Stage::ProbingBinary, ExecutorEvent::Exists { present }) => if present {
                Stage::ProbingScript
            } else {
                let mut message = String::from_str("Bundled Python not found: ");
                message.append(binary.as_str());
                unlaunched(message)
            },
            (Stage::ProbingScript, ExecutorEvent::Exists { present }) => if present {
                Stage::Spawning
            } else {
                let mut message = String::from_str("Python script not found: ");
                message.append(script.as_str());
                unlaunched(message)
            },
            (Stage::Spawning, ExecutorEvent::Spawned) => Stage::DrainingStdout,
            (Stage::Spawning, ExecutorEvent::SpawnFailed { reason }) => {
                let mut message = String::from_str("Failed to spawn Python process: ");
                message.append(reason.as_str());
                unlaunched(message)
            },
            (Stage::Spawning, ExecutorEvent::CaptureFailed { primary }) => {
                let message = if primary {
                    String::from_str("Failed to capture stdout")
                } else {
                    String::from_str("Failed to capture stderr")
                };
                Stage::Finished {
                    outcome: ExecutionOutcome::SpawnError { message },
                    child_alive: true,
                }
            },
            (Stage::DrainingStdout, ExecutorEvent::StdoutDrained { text }) => {
                Stage::JoiningStderr { stdout: text }
            },
            (Stage::DrainingStdout, ExecutorEvent::IoFailed { reason }) => {
                let mut message = String::from_str("Failed to read stdout: ");
                message.append(reason.as_str());
                interrupted(message)
            },
            (Stage::JoiningStderr { stdout }, ExecutorEvent::StderrJoined { diagnostics }) => {
                Stage::AwaitingExit { stdout, stderr: diagnostics }
            },
            (Stage::JoiningStderr { .. }, ExecutorEvent::IoFailed { reason }) => {
                let mut message = String::from_str("stderr task failed: ");
                message.append(reason.as_str());
                interrupted(message)
            },
            (Stage::AwaitingExit { stdout, stderr }, ExecutorEvent::Exited { success, code }) => {
                if success {
                    Stage::Finished {
                        outcome: ExecutionOutcome::Success { stdout },
                        child_alive: false,
                    }
                } else {
                    Stage::Finished {
                        outcome: ExecutionOutcome::Failure { exit_code: code, stderr },
                        child_alive: false,
                    }
                }
            },
            (Stage::AwaitingExit { .. }, ExecutorEvent::IoFailed { reason }) => interrupted(reason),
            (Stage::DrainingStdout, ExecutorEvent::DeadlineElapsed) => timed_out(),
            (Stage::JoiningStderr { .. }, ExecutorEvent::DeadlineElapsed) => timed_out(),
            (Stage::AwaitingExit { .. }, ExecutorEvent::DeadlineElapsed) => timed_out(),
            (unchanged, _) => unchanged,
        };
        Executor { binary, script, timeout_secs, stage: next_stage }
    }

    /// The outcome, once the launch has ended.
    pub fn into_outcome(self) -> (outcome: Option<ExecutionOutcome>)
        ensures
            outcome is Some == self@.outcome() is Some,
            outcome matches Some(ended) ==> Some(ended@) == self@.outcome(),
    {
        match self.stage {
            Stage::Finished { outcome, .. } => Some(outcome),
            _ => None,
        }
    }
}

fn unlaunched(message: String) -> (stage: Stage)
    ensures
        stage@ == StageModel::unlaunched(message@),
{
    Stage::Finished { outcome: ExecutionOutcome::SpawnError { message }, child_alive: false }
}

fn interrupted(message: String) -> (stage: Stage)
    ensures
        stage@ == StageModel::abandoned(OutcomeModel::Interrupted { message: message@ }),
{
    Stage::Finished { outcome: ExecutionOutcome::Interrupted { message }, child_alive: true }
}

fn timed_out() -> (stage: Stage)
    ensures
        stage@ == StageModel::abandoned(OutcomeModel::Timeout),
{
    Stage::Finished { outcome: ExecutionOutcome::Timeout, child_alive: true }
}

/// A launch that has ended stays as it is, whatever comes after: it has
/// exactly one outcome.
pub proof fn lemma_finished_is_final(launch: ExecutorModel, events: Seq<EventModel>)
    requires
        launch.stage is Finished,
    ensures
        launch.after_all(events) == launch,
    decreases events.len(),
{
    if events.len() > 0 {
        lemma_finished_is_final(launch, events.drop_last());
    }
}

/// A launch spawns at most one child: once the launch has left the stage
/// in which it spawns, nothing brings it back there, and the driver is
/// never asked to spawn again.
pub proof fn lemma_one_child_per_launch(launch: ExecutorModel, events: Seq<EventModel>)
    requires
        launch.stage.under_deadline() || launch.stage is Finished,
    ensures
        launch.after_all(events).stage.under_deadline() || launch.after_all(events).stage
            is Finished,
        launch.after_all(events).stage.pending() != ExecutorAction::Spawn,
    decreases events.len(),
{
    if events.len() > 0 {
        lemma_one_child_per_launch(launch, events.drop_last());
    }
}

/// Once the deadline passes over a running child, the outcome is `Timeout`
/// and stays so: the driver is told to kill the child, and no later event,
/// not even a clean exit, turns the launch into a success.
pub proof fn lemma_deadline_ends_in_timeout(launch: ExecutorModel, later: Seq<EventModel>)
    requires
        launch.stage.under_deadline(),
    ensures
        launch.after(EventModel::DeadlineElapsed).after_all(later).outcome() == Some(
            OutcomeModel::Timeout,
        ),
        launch.after(EventModel::DeadlineElapsed).after_all(later).stage.pending()
            == ExecutorAction::Kill,
{
    lemma_finished_is_final(launch.after(EventModel::DeadlineElapsed), later);
}

/// The report of a child that left with another status than zero is made
/// of its exit code and of its diagnostic lines alone: where the reader
/// of the secondary channel hands over what the lines `lines` left, no
/// line that was forwarded as a structured event stands in the report.
pub proof fn lemma_failure_report_holds_no_events(
    launch: ExecutorModel,
    lines: Seq<Seq<char>>,
    code: Option<i32>,
)
    requires
        launch.stage is JoiningStderr,
    ensures
        ({
            let ended = launch.after(
                EventModel::StderrJoined { diagnostics: diagnostics_of(lines) },
            ).after(EventModel::Exited { success: false, code });
            &&& ended.outcome() == Some(
                OutcomeModel::Failure {
                    exit_code: code,
                    stderr: join_lines(diagnostic_lines(lines)),
                },
            )
            &&& failure_text(ended.outcome().unwrap(), launch.timeout_secs)
                == "Python process failed with exit code "@ + exit_code_text(code) + ": "@
                + join_lines(diagnostic_lines(lines))
        }),
{
    lemma_diagnostics_hold_no_events(lines);
}

/// A launch ends in a success only by a clean exit of the child: the stage
/// before waited for the exit, and the text is what the primary channel
/// held.
pub proof fn lemma_success_needs_clean_exit(launch: ExecutorModel, event: EventModel)
    requires
        !(launch.stage is Finished),
        launch.after(event).outcome() matches Some(OutcomeModel::Success { .. }),
    ensures
        event matches EventModel::Exited { success: true, .. },
        launch.stage matches StageModel::AwaitingExit { stdout, .. } && launch.after(
            event,
        ).outcome() == Some(OutcomeModel::Success { stdout }),
{
}

} // verus!
