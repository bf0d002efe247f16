//! The run of one job from the installation of the interpreter to the
//! decoded result, as a machine that decides what its driver does next.
//!
//! A job exists only after its inputs have passed the checks. Its run
//! installs the interpreter, launches the child, again after a failure
//! where the job may be tried again, and hands the text of a successful
//! launch to the decoder. A failed installation and a text that cannot be
//! decoded end the run at once: neither is followed by a launch.

use crate::bootstrap::{BootstrapError, BootstrapErrorModel};
use crate::job::{Job, Verb};
use crate::outcome::{failure_text, ExecutionOutcome, OutcomeModel};
use crate::retry::{
    DecisionModel, ErrorEventModel, PythonErrorEvent, RetryDecision, RetryState, RetrySupervisor,
    SupervisorModel, PYTHON_MAX_RETRIES,
};
use vstd::prelude::*;
use vstd::string::*;

verus! {

/// Where a run stands.
#[derive(Clone, Copy, Debug, PartialEq, Eq, Structural)]
pub enum RunStage {
    /// The interpreter is being installed.
    Installing,
    /// The child is being launched.
    Launching,
    /// The text of a successful launch is being decoded.
    Decoding,
    /// The run has ended.
    Done,
}

/// What the driver hands back.
#[derive(Debug)]
pub enum RunReport {
    /// The interpreter is installed.
    Installed,
    /// The interpreter could not be installed.
    InstallFailed { error: BootstrapError },
    /// A launch ended.
    Launched { outcome: ExecutionOutcome },
    /// The text was decoded.
    Decoded,
    /// The text could not be decoded, for `reason`.
    DecodeFailed { reason: String },
}

/// `RunReport` with its texts as sequences of characters.
pub enum RunReportModel {
    Installed,
    InstallFailed { error: BootstrapErrorModel },
    Launched { outcome: OutcomeModel },
    Decoded,
    DecodeFailed { reason: Seq<char> },
}

impl View for RunReport {
    type V = RunReportModel;

    open spec fn view(&self) -> RunReportModel {
        match self {
            RunReport::Installed => RunReportModel::Installed,
            RunReport::InstallFailed { error } => RunReportModel::InstallFailed { error: error@ },
            RunReport::Launched { outcome } => RunReportModel::Launched { outcome: outcome@ },
            RunReport::Decoded => RunReportModel::Decoded,
            RunReport::DecodeFailed { reason } => RunReportModel::DecodeFailed { reason: reason@ },
        }
    }
}

/// What the driver has to do next.
#[derive(Debug, PartialEq, Eq)]
pub enum Directive {
    /// Launch the child and report how the launch ended.
    Launch,
    /// Send `event` to the error sink, wait `delay_ms` milliseconds, then
    /// launch the child again and report how the launch ended.
    Retry { event: PythonErrorEvent, delay_ms: u64 },
    /// Decode `stdout` as the result of the verb and report whether that
    /// could be done.
    Decode { stdout: String },
    /// Hand the decoded result to the caller.
    Succeed,
    /// Send `event` to the error sink, if there is one, and fail with
    /// `message`.
    Fail { event: Option<PythonErrorEvent>, message: String },
}

/// `Directive` with its texts as sequences of characters.
pub enum DirectiveModel {
    Launch,
    Retry { event: ErrorEventModel, delay_ms: u64 },
    Decode { stdout: Seq<char> },
    Succeed,
    Fail { event: Option<ErrorEventModel>, message: Seq<char> },
}

impl View for Directive {
    type V = DirectiveModel;

    open spec fn view(&self) -> DirectiveModel {
        match self {
            Directive::Launch => DirectiveModel::Launch,
            Directive::Retry { event, delay_ms } => DirectiveModel::Retry {
                event: event@,
                delay_ms: *delay_ms,
            },
            Directive::Decode { stdout } => DirectiveModel::Decode { stdout: stdout@ },
            Directive::Succeed => DirectiveModel::Succeed,
            Directive::Fail { event, message } => DirectiveModel::Fail {
                event: match event {
                    Some(sent) => Some(sent@),
                    None => None,
                },
                message: message@,
            },
        }
    }
}

impl DirectiveModel {
    /// Whether the directive makes the driver launch the child.
    pub open spec fn launches(self) -> bool {
        self is Launch || self is Retry
    }

    /// Whether the directive makes the driver send an error event.
    pub open spec fn sends_event(self) -> bool {
        self is Retry || (self matches DirectiveModel::Fail { event, .. } && event is Some)
    }
}

/// What a `JobRun` holds.
pub struct RunModel {
    /// The verb of the job.
    pub verb: Verb,
    /// Whether a failed launch may be followed by another.
    pub retry_eligible: bool,
    /// The deadline of each launch, in seconds.
    pub timeout_secs: nat,
    /// The supervisor of the launches of a job that may be tried again.
    pub supervisor: SupervisorModel,
    /// Where the run stands.
    pub stage: RunStage,
}

impl RunModel {
    /// Until the launches of a job that may be tried again are over, its
    /// supervisor waits for a launch.
    pub open spec fn well_formed(self) -> bool {
        &&& self.supervisor.well_formed()
        &&& self.supervisor.timeout_secs == self.timeout_secs
        &&& (self.stage == RunStage::Installing || self.stage == RunStage::Launching)
            && self.retry_eligible ==> self.supervisor.state is Attempting
    }

    /// What is decided on `report`; nothing where the stage does not wait
    /// for it.
    pub open spec fn directive(self, report: RunReportModel) -> Option<DirectiveModel> {
        match (self.stage, report) {
            (RunStage::Installing, RunReportModel::Installed) => Some(DirectiveModel::Launch),
            (RunStage::Installing, RunReportModel::InstallFailed { error }) => Some(
                DirectiveModel::Fail { event: None, message: error.message() },
            ),
            (RunStage::Launching, RunReportModel::Launched { outcome }) => {
                if self.retry_eligible {
                    match self.supervisor.decision(outcome) {
                        Some(DecisionModel::Succeeded { stdout }) => Some(
                            DirectiveModel::Decode { stdout },
                        ),
                        Some(DecisionModel::RetryAfter { event, delay_ms }) => Some(
                            DirectiveModel::Retry { event, delay_ms },
                        ),
                        Some(DecisionModel::Exhausted { event, message }) => Some(
                            DirectiveModel::Fail { event: Some(event), message },
                        ),
                        None => None,
                    }
                } else {
                    match outcome {
                        OutcomeModel::Success { stdout } => Some(DirectiveModel::Decode { stdout }),
                        _ => Some(
                            DirectiveModel::Fail {
                                event: None,
                                message: failure_text(outcome, self.timeout_secs),
                            },
                        ),
                    }
                }
            },
            (RunStage::Decoding, RunReportModel::Decoded) => Some(DirectiveModel::Succeed),
            (RunStage::Decoding, RunReportModel::DecodeFailed { reason }) => Some(
                DirectiveModel::Fail { event: None, message: self.verb.decode_lead() + reason },
            ),
            _ => None,
        }
    }

    /// The stage to which a directive leads.
    pub open spec fn stage_for(directive: DirectiveModel) -> RunStage {
        match directive {
            DirectiveModel::Launch => RunStage::Launching,
            DirectiveModel::Retry { .. } => RunStage::Launching,
            DirectiveModel::Decode { .. } => RunStage::Decoding,
            DirectiveModel::Succeed => RunStage::Done,
            DirectiveModel::Fail { .. } => RunStage::Done,
        }
    }

    /// The run after `report`.
    pub open spec fn after(self, report: RunReportModel) -> RunModel {
        match self.directive(report) {
            Some(directive) => RunModel {
                stage: Self::stage_for(directive),
                supervisor: match report {
                    RunReportModel::Launched { outcome } if self.retry_eligible => {
                        self.supervisor.after(outcome)
                    },
                    _ => self.supervisor,
                },
                ..self
            },
            None => self,
        }
    }

    /// The run after all of `reports`, in order.
    pub open spec fn after_all(self, reports: Seq<RunReportModel>) -> RunModel
        decreases reports.len(),
    {
        if reports.len() == 0 {
            self
        } else {
            self.after_all(reports.drop_last()).after(reports.last())
        }
    }

    /// The directives given over `reports`, in order: one for each report
    /// that the run waited for.
    pub open spec fn directives(self, reports: Seq<RunReportModel>) -> Seq<DirectiveModel>
        decreases reports.len(),
    {
        if reports.len() == 0 {
            Seq::empty()
        } else {
            let before = self.directives(reports.drop_last());
            match self.after_all(reports.drop_last()).directive(reports.last()) {
                Some(directive) => before.push(directive),
                None => before,
            }
        }
    }

    /// The number of launches that the directives ask for.
    pub open spec fn launches(directives: Seq<DirectiveModel>) -> nat
        decreases directives.len(),
    {
        if directives.len() == 0 {
            0
        } else if directives.last().launches() {
            Self::launches(directives.drop_last()) + 1
        } else {
            Self::launches(directives.drop_last())
        }
    }
}

/// The run of one job.
pub struct JobRun {
    verb: Verb,
    retry_eligible: bool,
    timeout_secs: u64,
    supervisor: RetrySupervisor,
    stage: RunStage,
}

impl View for JobRun {
    type V = RunModel;

    closed spec fn view(&self) -> RunModel {
        RunModel {
            verb: self.verb,
            retry_eligible: self.retry_eligible,
            timeout_secs: self.timeout_secs as nat,
            supervisor: self.supervisor@,
            stage: self.stage,
        }
    }
}

impl JobRun {
    #[verifier::type_invariant]
    spec fn supervisor_in_step(self) -> bool {
        self@.well_formed()
    }

    /// The run of `job`, before anything is done: the driver installs the
    /// interpreter first and reports how that went.
    pub fn new(job: &Job) -> (run: Self)
        ensures
            run@ == (RunModel {
                verb: job@.verb,
                retry_eligible: job@.retry_eligible,
                timeout_secs: job@.timeout_secs,
                supervisor: SupervisorModel::initial(PYTHON_MAX_RETRIES, job@.timeout_secs),
                stage: RunStage::Installing,
            }),
            run@.well_formed(),
    {
        let timeout_secs = job.timeout_secs();
        JobRun {
            verb: job.verb(),
            retry_eligible: job.retry_eligible(),
            timeout_secs,
            supervisor: RetrySupervisor::new(PYTHON_MAX_RETRIES, timeout_secs),
            stage: RunStage::Installing,
        }
    }

    /// Where the run stands.
    pub fn stage(&self) -> (stage: RunStage)
        ensures
            stage == self@.stage,
    {
        self.stage
    }

    /// Takes in what the driver reports and decides what it does next;
    /// nothing where the run does not wait for that report.
    pub fn advance(self, report: RunReport) -> (next: (Self, Option<Directive>))
        ensures
            next.0@ == self@.after(report@),
            match next.1 {
                Some(given) => self@.directive(report@) == Some(given@),
                None => self@.directive(report@) is None,
            },
    {
        proof {
            use_type_invariant(&self);
        }
        let JobRun { verb, retry_eligible, timeout_secs, supervisor, stage } = self;
        let mut supervisor = supervisor;
        let directive = match (stage, report) {
            (RunStage::Installing, RunReport::Installed) => Some(Directive::Launch),
            (RunStage::Installing, RunReport::InstallFailed { error }) => Some(
                Directive::Fail { event: None, message: error.message() },
            ),
            (RunStage::Launching, RunReport::Launched { outcome }) => {
                if retry_eligible {
                    match supervisor.conclude(outcome) {
                        Some(RetryDecision::Succeeded { stdout }) => Some(
                            Directive::Decode { stdout },
                        ),
                        Some(RetryDecision::RetryAfter { event, delay_ms }) => Some(
                            Directive::Retry { event, delay_ms },
                        ),
                        Some(RetryDecision::Exhausted { event, message }) => Some(
                            Directive::Fail { event: Some(event), message },
                        ),
                        None => None,
                    }
                } else {
                    match outcome {
                        ExecutionOutcome::Success { stdout } => Some(Directive::Decode { stdout }),
                        failed => Some(
                            Directive::Fail {
                                event: None,
                                message: failed.failure_message(timeout_secs),
                            },
                        ),
                    }
                }
            },
            (RunStage::Decoding, RunReport::Decoded) => Some(Directive::Succeed),
            (RunStage::Decoding, RunReport::DecodeFailed { reason }) => Some(
                Directive::Fail { event: None, message: verb.decode_failure(reason.as_str()) },
            ),
            _ => None,
        };
        let next_stage = match &directive {
            Some(Directive::Launch) => RunStage::Launching,
            Some(Directive::Retry { .. }) => RunStage::Launching,
            Some(Directive::Decode { .. }) => RunStage::Decoding,
            Some(Directive::Succeed) => RunStage::Done,
            Some(Directive::Fail { .. }) => RunStage::Done,
            None => stage,
        };
        (JobRun { verb, retry_eligible, timeout_secs, supervisor, stage: next_stage }, directive)
    }
}

/// Every report keeps the run well-formed.
pub proof fn lemma_run_stays_well_formed(run: RunModel, reports: Seq<RunReportModel>)
    requires
        run.well_formed(),
    ensures
        run.after_all(reports).well_formed(),
        run.after_all(reports).verb == run.verb,
        run.after_all(reports).retry_eligible == run.retry_eligible,
        run.after_all(reports).timeout_secs == run.timeout_secs,
        run.after_all(reports).supervisor.max_attempts == run.supervisor.max_attempts,
    decreases reports.len(),
{
    if reports.len() > 0 {
        lemma_run_stays_well_formed(run, reports.drop_last());
    }
}

/// A run that has ended stays ended and gives no directive any more: in
/// particular, nothing is launched after a failed installation, after a
/// text that could not be decoded, or after the attempts are used up.
pub proof fn lemma_done_is_final(run: RunModel, reports: Seq<RunReportModel>)
    requires
        run.stage == RunStage::Done,
    ensures
        run.after_all(reports) == run,
        run.directives(reports) == Seq::<DirectiveModel>::empty(),
    decreases reports.len(),
{
    if reports.len() > 0 {
        lemma_done_is_final(run, reports.drop_last());
    }
}

/// A failed installation and a text that cannot be decoded end the run
/// with a failure that sends no error event; a decoded text ends it with
/// success.
pub proof fn lemma_ends_without_launch(run: RunModel, report: RunReportModel)
    requires
        report is InstallFailed || report is Decoded || report is DecodeFailed,
    ensures
        run.directive(report) matches Some(directive) ==> {
            &&& !directive.launches()
            &&& !directive.sends_event()
            &&& run.after(report).stage == RunStage::Done
        },
{
}

/// A job that may not be tried again is launched once: whatever the
/// launch ends in, the next directive launches nothing and sends no error
/// event. A failure ends the run with the report of that one launch.
pub proof fn lemma_single_launch(run: RunModel, outcome: OutcomeModel)
    requires
        !run.retry_eligible,
        run.stage == RunStage::Launching,
    ensures
        run.directive(RunReportModel::Launched { outcome }) == Some(
            match outcome {
                OutcomeModel::Success { stdout } => DirectiveModel::Decode { stdout },
                _ => DirectiveModel::Fail {
                    event: None,
                    message: failure_text(outcome, run.timeout_secs),
                },
            },
        ),
        !run.directive(RunReportModel::Launched { outcome }).unwrap().launches(),
        !run.directive(RunReportModel::Launched { outcome }).unwrap().sends_event(),
        !(outcome is Success) ==> run.after(RunReportModel::Launched { outcome }).stage
            == RunStage::Done,
{
}

/// The launches of a run never exceed the attempts that are left: from
/// any stage, whatever is reported, the directives ask for at most as
/// many launches as the supervisor still allows (one for a job that may
/// not be tried again), and one more while the interpreter is being
/// installed.
pub proof fn lemma_launches_are_bounded(run: RunModel, reports: Seq<RunReportModel>)
    requires
        run.well_formed(),
    ensures
        RunModel::launches(run.directives(reports)) + remaining_launches(run.after_all(reports))
            <= remaining_launches(run),
    decreases reports.len(),
{
    if reports.len() > 0 {
        let earlier = reports.drop_last();
        lemma_launches_are_bounded(run, earlier);
        lemma_run_stays_well_formed(run, earlier);
        let before = run.after_all(earlier);
        match before.directive(reports.last()) {
            Some(directive) => {
                let given = run.directives(earlier).push(directive);
                assert(given.drop_last() =~= run.directives(earlier));
                assert(given.last() == directive);
                assert(run.directives(reports) == given);
            },
            None => {
                assert(run.directives(reports) == run.directives(earlier));
            },
        }
    }
}

/// The number of launches that a run may still ask for.
pub open spec fn remaining_launches(run: RunModel) -> nat {
    match run.stage {
        RunStage::Installing => if run.retry_eligible {
            run.supervisor.max_attempts as nat
        } else {
            1
        },
        RunStage::Launching => if run.retry_eligible {
            match run.supervisor.state {
                RetryState::Attempting { attempt } => (run.supervisor.max_attempts - attempt) as nat,
                _ => 0,
            }
        } else {
            0
        },
        _ => 0,
    }
}

} // verus!
