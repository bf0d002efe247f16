//! The retry supervisor: a counter of attempts that decides, after each
//! launch, whether the job is done, is tried again after a delay, or has
//! failed for good. Every failed launch is reported as one error event.

use crate::backoff::{calculate_python_backoff_delay, delay_of_attempt};
use crate::outcome::{failure_text, ExecutionOutcome, OutcomeModel};
use crate::text::{decimal, push_decimal};
use vstd::prelude::*;
use vstd::string::*;

verus! {

/// The number of launches that a job gets at most.
pub const PYTHON_MAX_RETRIES: u32 = 3;

/// Sink that receives the error events.
pub const ERROR_CHANNEL: &'static str = "python-error";

/// The class of a failed launch, as error events name it.
#[derive(Clone, Copy, Debug, PartialEq, Eq, Structural)]
pub enum ErrorKind {
    Timeout,
    SpawnError,
    ExecutionError,
}

impl ErrorKind {
    /// The name of the class in an error event.
    pub open spec fn label(self) -> Seq<char> {
        match self {
            ErrorKind::Timeout => "timeout"@,
            ErrorKind::SpawnError => "spawn_error"@,
            ErrorKind::ExecutionError => "execution_error"@,
        }
    }

    /// The name of the class in an error event.
    pub fn name(&self) -> (name: &'static str)
        ensures
            name@ == self.label(),
    {
        match self {
            ErrorKind::Timeout => "timeout",
            ErrorKind::SpawnError => "spawn_error",
            ErrorKind::ExecutionError => "execution_error",
        }
    }
}

/// The class of an outcome that is no success.
pub open spec fn kind_of(outcome: OutcomeModel) -> ErrorKind {
    match outcome {
        OutcomeModel::Timeout => ErrorKind::Timeout,
        OutcomeModel::SpawnError { .. } => ErrorKind::SpawnError,
        _ => ErrorKind::ExecutionError,
    }
}

/// Classifies an outcome that is no success.
pub fn classify_failure(outcome: &ExecutionOutcome) -> (kind: ErrorKind)
    ensures
        kind == kind_of(outcome@),
{
    match outcome {
        ExecutionOutcome::Timeout => ErrorKind::Timeout,
        ExecutionOutcome::SpawnError { .. } => ErrorKind::SpawnError,
        _ => ErrorKind::ExecutionError,
    }
}

/// The report of one failed launch, sent to the error sink.
#[derive(Clone, Debug, PartialEq, Eq)]
pub struct PythonErrorEvent {
    pub error_type: String,
    pub message: String,
    pub attempt: u32,
    pub max_attempts: u32,
}

/// `PythonErrorEvent` with its texts as sequences of characters.
pub struct ErrorEventModel {
    pub error_type: Seq<char>,
    pub message: Seq<char>,
    pub attempt: u32,
    pub max_attempts: u32,
}

impl View for PythonErrorEvent {
    type V = ErrorEventModel;

    open spec fn view(&self) -> ErrorEventModel {
        ErrorEventModel {
            error_type: self.error_type@,
            message: self.message@,
            attempt: self.attempt,
            max_attempts: self.max_attempts,
        }
    }
}

/// What the driver does after a launch.
#[derive(Debug, PartialEq, Eq)]
pub enum RetryDecision {
    /// Hand `stdout` to the caller.
    Succeeded { stdout: String },
    /// Send `event`, wait `delay_ms` milliseconds, launch again.
    RetryAfter { event: PythonErrorEvent, delay_ms: u64 },
    /// Send `event` and fail with `message`.
    Exhausted { event: PythonErrorEvent, message: String },
}

/// `RetryDecision` with its texts as sequences of characters.
pub enum DecisionModel {
    Succeeded { stdout: Seq<char> },
    RetryAfter { event: ErrorEventModel, delay_ms: u64 },
    Exhausted { event: ErrorEventModel, message: Seq<char> },
}

impl View for RetryDecision {
    type V = DecisionModel;

    open spec fn view(&self) -> DecisionModel {
        match self {
            RetryDecision::Succeeded { stdout } => DecisionModel::Succeeded { stdout: stdout@ },
            RetryDecision::RetryAfter { event, delay_ms } => DecisionModel::RetryAfter {
                event: event@,
                delay_ms: *delay_ms,
            },
            RetryDecision::Exhausted { event, message } => DecisionModel::Exhausted {
                event: event@,
                message: message@,
            },
        }
    }
}

impl DecisionModel {
    /// The error event that the decision sends, if any.
    pub open spec fn event(self) -> Option<ErrorEventModel> {
        match self {
            DecisionModel::Succeeded { .. } => None,
            DecisionModel::RetryAfter { event, .. } => Some(event),
            DecisionModel::Exhausted { event, .. } => Some(event),
        }
    }
}

/// Where the supervisor stands.
#[derive(Clone, Copy, Debug, PartialEq, Eq, Structural)]
pub enum RetryState {
    /// Launch number `attempt`, counted from one, is due or under way.
    Attempting { attempt: u32 },
    /// A launch succeeded.
    Succeeded,
    /// Every launch failed.
    Exhausted,
}

/// What a `RetrySupervisor` holds.
pub struct SupervisorModel {
    /// The number of launches at most.
    pub max_attempts: u32,
    /// The deadline of each launch, in seconds.
    pub timeout_secs: nat,
    /// Where the supervisor stands.
    pub state: RetryState,
}

/// The text with which a job fails for good.
pub open spec fn exhausted_text(max_attempts: u32, last_error: Seq<char>) -> Seq<char> {
    "Python command failed after "@ + decimal(max_attempts as nat) + " attempts: "@ + last_error
}

/// The error event of a failed launch.
pub open spec fn error_event(
    outcome: OutcomeModel,
    attempt: u32,
    max_attempts: u32,
    timeout_secs: nat,
) -> ErrorEventModel {
    ErrorEventModel {
        error_type: kind_of(outcome).label(),
        message: failure_text(outcome, timeout_secs),
        attempt,
        max_attempts,
    }
}

impl SupervisorModel {
    /// A supervisor before the first launch. With no launch allowed it
    /// has failed before it began.
    pub open spec fn initial(max_attempts: u32, timeout_secs: nat) -> SupervisorModel {
        SupervisorModel {
            max_attempts,
            timeout_secs,
            state: if max_attempts == 0 {
                RetryState::Exhausted
            } else {
                RetryState::Attempting { attempt: 1 }
            },
        }
    }

    /// The launch that is due lies within the maximum.
    pub open spec fn well_formed(self) -> bool {
        self.state matches RetryState::Attempting { attempt } ==> 1 <= attempt <= self.max_attempts
    }

    /// What is decided after a launch that ended in `outcome`; nothing
    /// once the supervisor has ended.
    pub open spec fn decision(self, outcome: OutcomeModel) -> Option<DecisionModel> {
        match self.state {
            RetryState::Attempting { attempt } => Some(
                match outcome {
                    OutcomeModel::Success { stdout } => DecisionModel::Succeeded { stdout },
                    _ => {
                        let event = error_event(
                            outcome,
                            attempt,
                            self.max_attempts,
                            self.timeout_secs,
                        );
                        if attempt < self.max_attempts {
                            DecisionModel::RetryAfter { event, delay_ms: delay_of_attempt(attempt) as u64 }
                        } else {
                            DecisionModel::Exhausted {
                                event,
                                message: exhausted_text(
                                    self.max_attempts,
                                    failure_text(outcome, self.timeout_secs),
                                ),
                            }
                        }
                    },
                },
            ),
            _ => None,
        }
    }

    /// The supervisor after a launch that ended in `outcome`.
    pub open spec fn after(self, outcome: OutcomeModel) -> SupervisorModel {
        match self.state {
            RetryState::Attempting { attempt } => SupervisorModel {
                state: if outcome is Success {
                    RetryState::Succeeded
                } else if attempt < self.max_attempts {
                    RetryState::Attempting { attempt: (attempt + 1) as u32 }
                } else {
                    RetryState::Exhausted
                },
                ..self
            },
            _ => self,
        }
    }

    /// The supervisor after launches that ended in `outcomes`, in order.
    pub open spec fn after_all(self, outcomes: Seq<OutcomeModel>) -> SupervisorModel
        decreases outcomes.len(),
    {
        if outcomes.len() == 0 {
            self
        } else {
            self.after_all(outcomes.drop_last()).after(outcomes.last())
        }
    }

    /// The decisions taken over launches that ended in `outcomes`, in
    /// order: one for each launch that the supervisor still waited for.
    pub open spec fn decisions(self, outcomes: Seq<OutcomeModel>) -> Seq<DecisionModel>
        decreases outcomes.len(),
    {
        if outcomes.len() == 0 {
            Seq::empty()
        } else {
            let before = self.decisions(outcomes.drop_last());
            match self.after_all(outcomes.drop_last()).decision(outcomes.last()) {
                Some(decision) => before.push(decision),
                None => before,
            }
        }
    }
}

/// Supervises the launches of one job.
pub struct RetrySupervisor {
    max_attempts: u32,
    timeout_secs: u64,
    state: RetryState,
}

impl View for RetrySupervisor {
    type V = SupervisorModel;

    closed spec fn view(&self) -> SupervisorModel {
        SupervisorModel {
            max_attempts: self.max_attempts,
            timeout_secs: self.timeout_secs as nat,
            state: self.state,
        }
    }
}

impl RetrySupervisor {
    #[verifier::type_invariant]
    spec fn attempt_in_range(self) -> bool {
        self@.well_formed()
    }

    /// A supervisor that allows `max_attempts` launches of `timeout_secs`
    /// seconds each.
    pub fn new(max_attempts: u32, timeout_secs: u64) -> (supervisor: Self)
        ensures
            supervisor@ == SupervisorModel::initial(max_attempts, timeout_secs as nat),
            supervisor@.well_formed(),
    {
        let state = if max_attempts == 0 {
            RetryState::Exhausted
        } else {
            RetryState::Attempting { attempt: 1 }
        };
        RetrySupervisor { max_attempts, timeout_secs, state }
    }

    /// Where the supervisor stands.
    pub fn state(&self) -> (state: RetryState)
        ensures
            state == self@.state,
            self@.well_formed(),
    {
        proof {
            use_type_invariant(self);
        }
        self.state
    }

    /// The number of launches at most.
    pub fn max_attempts(&self) -> (max_attempts: u32)
        ensures
            max_attempts == self@.max_attempts,
    {
        self.max_attempts
    }

    /// Takes in how a launch ended and decides what follows. Once the
    /// supervisor has ended it decides nothing and stays as it is.
    pub fn conclude(&mut self, outcome: ExecutionOutcome) -> (decision: Option<RetryDecision>)
        ensures
            final(self)@ == old(self)@.after(outcome@),
            match decision {
                Some(taken) => old(self)@.decision(outcome@) == Some(taken@),
                None => old(self)@.decision(outcome@) is None,
            },
    {
        proof {
            use_type_invariant(&*self);
        }
        let attempt: u32 = match self.state {
            RetryState::Attempting { attempt } => attempt,
            _ => {
                return None;
            },
        };
        match outcome {
            ExecutionOutcome::Success { stdout } => {
                self.state = RetryState::Succeeded;
                Some(RetryDecision::Succeeded { stdout })
            },
            failed => {
                let message = failed.failure_message(self.timeout_secs);
                let event = PythonErrorEvent {
                    error_type: String::from_str(classify_failure(&failed).name()),
                    message: message.clone(),
                    attempt,
                    max_attempts: self.max_attempts,
                };
                if attempt < self.max_attempts {
                    let delay_ms = calculate_python_backoff_delay(attempt);
                    self.state = RetryState::Attempting { attempt: attempt + 1 };
                    Some(RetryDecision::RetryAfter { event, delay_ms })
                } else {
                    let mut text = String::from_str("Python command failed after ");
                    push_decimal(&mut text, self.max_attempts as u64);
                    text.append(" attempts: ");
                    text.append(message.as_str());
                    self.state = RetryState::Exhausted;
                    Some(RetryDecision::Exhausted { event, message: text })
                }
            },
        }
    }
}

/// A supervisor that has ended stays as it is and decides nothing more.
pub proof fn lemma_ended_supervisor_is_final(
    supervisor: SupervisorModel,
    outcomes: Seq<OutcomeModel>,
)
    requires
        !(supervisor.state is Attempting),
    ensures
        supervisor.after_all(outcomes) == supervisor,
        supervisor.decisions(outcomes) == Seq::<DecisionModel>::empty(),
    decreases outcomes.len(),
{
    if outcomes.len() > 0 {
        lemma_ended_supervisor_is_final(supervisor, outcomes.drop_last());
    }
}

/// The launch that is due stays within the maximum.
pub proof fn lemma_attempts_stay_in_range(supervisor: SupervisorModel, outcomes: Seq<OutcomeModel>)
    requires
        supervisor.well_formed(),
    ensures
        supervisor.after_all(outcomes).well_formed(),
        supervisor.after_all(outcomes).max_attempts == supervisor.max_attempts,
        supervisor.after_all(outcomes).timeout_secs == supervisor.timeout_secs,
    decreases outcomes.len(),
{
    if outcomes.len() > 0 {
        lemma_attempts_stay_in_range(supervisor, outcomes.drop_last());
    }
}

/// A job whose launches all fail is launched exactly as often as the
/// maximum allows, and each of those launches sends exactly one error
/// event, numbered from one: all but the last are followed by a delay, the
/// last ends the job. Launches beyond the maximum are never decided on.
pub proof fn lemma_failures_exhaust_the_attempts(
    max_attempts: u32,
    timeout_secs: nat,
    outcomes: Seq<OutcomeModel>,
)
    requires
        forall|i: int| 0 <= i < outcomes.len() ==> !(#[trigger] outcomes[i] is Success),
    ensures
        ({
            let supervisor = SupervisorModel::initial(max_attempts, timeout_secs);
            let decisions = supervisor.decisions(outcomes);
            let launches = if outcomes.len() <= max_attempts {
                outcomes.len()
            } else {
                max_attempts as nat
            };
            &&& decisions.len() == launches
            &&& forall|i: int|
                0 <= i < launches ==> (#[trigger] decisions[i]).event() == Some(
                    error_event(outcomes[i], (i + 1) as u32, max_attempts, timeout_secs),
                )
            &&& forall|i: int|
                0 <= i < launches ==> ((#[trigger] decisions[i]) is RetryAfter <==> i + 1
                    < max_attempts)
            &&& forall|i: int|
                0 <= i < launches ==> ((#[trigger] decisions[i]) is Exhausted <==> i + 1
                    == max_attempts)
            &&& supervisor.after_all(outcomes).state == if outcomes.len() < max_attempts {
                RetryState::Attempting { attempt: (outcomes.len() + 1) as u32 }
            } else {
                RetryState::Exhausted
            }
        }),
    decreases outcomes.len(),
{
    let supervisor = SupervisorModel::initial(max_attempts, timeout_secs);
    if outcomes.len() > 0 {
        let earlier = outcomes.drop_last();
        lemma_failures_exhaust_the_attempts(max_attempts, timeout_secs, earlier);
        lemma_attempts_stay_in_range(supervisor, earlier);
        assert(!(outcomes[outcomes.len() - 1] is Success));
        assert forall|i: int| 0 <= i < earlier.len() implies earlier[i] == outcomes[i] by {}
    }
}

/// The first launch that succeeds ends the job at once, whatever number
/// of attempts is left: the text of that launch is handed on, and no
/// later launch is decided on.
pub proof fn lemma_success_ends_the_job(
    supervisor: SupervisorModel,
    stdout: Seq<char>,
    later: Seq<OutcomeModel>,
)
    requires
        supervisor.state is Attempting,
    ensures
        supervisor.decision(OutcomeModel::Success { stdout }) == Some(
            DecisionModel::Succeeded { stdout },
        ),
        supervisor.after(OutcomeModel::Success { stdout }).after_all(later).state
            == RetryState::Succeeded,
        supervisor.after(OutcomeModel::Success { stdout }).decisions(later) == Seq::<
            DecisionModel,
        >::empty(),
{
    lemma_ended_supervisor_is_final(supervisor.after(OutcomeModel::Success { stdout }), later);
}

} // verus!
