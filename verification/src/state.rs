//! Agent execution state machine.
//!
//! The states an agent task passes through and the transitions between them.
//! The machine is deterministic: a state and an event give at most one next
//! state.

use vstd::prelude::*;
use crate::time::{Timestamp, current_time};
use crate::id::new_uuid;

verus! {

/// The execution state of an agent task.
#[derive(Debug, Clone, PartialEq, Eq)]
pub enum AgentState {
    /// Task received, intent parsed, planning next action.
    Planning,
    /// Actively executing a tool action; `attempt` counts the retries made
    /// before this attempt.
    Executing { tool_call_id: String, step: u32, attempt: u32 },
    /// Waiting for human confirmation (policy gate).
    WaitingHuman { request_id: String, tool_call_id: String, reason: String },
    /// Verifying that an action produced the expected result; `attempt`
    /// counts the retries made before the attempt that produced it.
    Verifying { tool_call_id: String, step: u32, attempt: u32 },
    /// Action failed, evaluating retry/fallback; `attempt` counts the retries
    /// made so far, out of at most `max_attempts`.
    Retrying { tool_call_id: String, step: u32, attempt: u32, max_attempts: u32 },
    /// Task completed with verified artifacts.
    Completed { artifacts: Vec<String> },
    /// Task failed permanently (retries exhausted or unrecoverable).
    Failed { reason: String },
    /// Task was cancelled by user or policy.
    Cancelled { reason: String },
}

/// An event that triggers a state transition.
#[derive(Debug, Clone, PartialEq, Eq)]
pub enum TransitionEvent {
    /// Planning complete, ready to execute step `step`.
    PlanReady { tool_call_id: String, step: u32 },
    /// Tool execution completed.
    ToolCompleted { tool_call_id: String, success: bool },
    /// Policy requires human confirmation before proceeding.
    PolicyGate { request_id: String, tool_call_id: String, reason: String },
    /// Human responded to confirmation request.
    HumanDecision { request_id: String, approved: bool },
    /// Artifact verification passed.
    VerificationPassed { artifacts: Vec<String> },
    /// Artifact verification failed.
    VerificationFailed { reason: String },
    /// Retry requested.
    RetryRequested { max_attempts: u32 },
    /// All retries exhausted.
    RetriesExhausted { reason: String },
    /// User or system cancelled the task.
    Cancel { reason: String },
}

/// The mathematical model of an [`AgentState`]: its texts as character sequences.
pub enum StateModel {
    Planning,
    Executing { tool_call_id: Seq<char>, step: u32, attempt: u32 },
    WaitingHuman { request_id: Seq<char>, tool_call_id: Seq<char>, reason: Seq<char> },
    Verifying { tool_call_id: Seq<char>, step: u32, attempt: u32 },
    Retrying { tool_call_id: Seq<char>, step: u32, attempt: u32, max_attempts: u32 },
    Completed { artifacts: Seq<Seq<char>> },
    Failed { reason: Seq<char> },
    Cancelled { reason: Seq<char> },
}

/// The mathematical model of a [`TransitionEvent`].
pub enum EventModel {
    PlanReady { tool_call_id: Seq<char>, step: u32 },
    ToolCompleted { tool_call_id: Seq<char>, success: bool },
    PolicyGate { request_id: Seq<char>, tool_call_id: Seq<char>, reason: Seq<char> },
    HumanDecision { request_id: Seq<char>, approved: bool },
    VerificationPassed { artifacts: Seq<Seq<char>> },
    VerificationFailed { reason: Seq<char> },
    RetryRequested { max_attempts: u32 },
    RetriesExhausted { reason: Seq<char> },
    Cancel { reason: Seq<char> },
}

impl View for AgentState {
    type V = StateModel;

    open spec fn view(&self) -> StateModel {
        match self {
            AgentState::Planning => StateModel::Planning,
            AgentState::Executing { tool_call_id, step, attempt } => StateModel::Executing {
                tool_call_id: tool_call_id@,
                step: *step,
                attempt: *attempt,
            },
            AgentState::WaitingHuman { request_id, tool_call_id, reason } => StateModel::WaitingHuman {
                request_id: request_id@,
                tool_call_id: tool_call_id@,
                reason: reason@,
            },
            AgentState::Verifying { tool_call_id, step, attempt } => StateModel::Verifying {
                tool_call_id: tool_call_id@,
                step: *step,
                attempt: *attempt,
            },
            AgentState::Retrying { tool_call_id, step, attempt, max_attempts } => StateModel::Retrying {
                tool_call_id: tool_call_id@,
                step: *step,
                attempt: *attempt,
                max_attempts: *max_attempts,
            },
            AgentState::Completed { artifacts } => StateModel::Completed { artifacts: artifacts.deep_view() },
            AgentState::Failed { reason } => StateModel::Failed { reason: reason@ },
            AgentState::Cancelled { reason } => StateModel::Cancelled { reason: reason@ },
        }
    }
}

impl View for TransitionEvent {
    type V = EventModel;

    open spec fn view(&self) -> EventModel {
        match self {
            TransitionEvent::PlanReady { tool_call_id, step } => EventModel::PlanReady {
                tool_call_id: tool_call_id@,
                step: *step,
            },
            TransitionEvent::ToolCompleted { tool_call_id, success } => EventModel::ToolCompleted {
                tool_call_id: tool_call_id@,
                success: *success,
            },
            TransitionEvent::PolicyGate { request_id, tool_call_id, reason } => EventModel::PolicyGate {
                request_id: request_id@,
                tool_call_id: tool_call_id@,
                reason: reason@,
            },
            TransitionEvent::HumanDecision { request_id, approved } => EventModel::HumanDecision {
                request_id: request_id@,
                approved: *approved,
            },
            TransitionEvent::VerificationPassed { artifacts } => EventModel::VerificationPassed {
                artifacts: artifacts.deep_view(),
            },
            TransitionEvent::VerificationFailed { reason } => EventModel::VerificationFailed { reason: reason@ },
            TransitionEvent::RetryRequested { max_attempts } => EventModel::RetryRequested {
                max_attempts: *max_attempts,
            },
            TransitionEvent::RetriesExhausted { reason } => EventModel::RetriesExhausted { reason: reason@ },
            TransitionEvent::Cancel { reason } => EventModel::Cancel { reason: reason@ },
        }
    }
}

/// The number of retries a failed step is granted.
pub const DEFAULT_MAX_ATTEMPTS: u32 = 3;

/// The next state for `state` on `event`, or `None` when the event is not
/// valid in that state.
pub open spec fn next_state(state: StateModel, event: EventModel) -> Option<StateModel> {
    match state {
        StateModel::Planning => match event {
            EventModel::PlanReady { tool_call_id, step } => Some(StateModel::Executing { tool_call_id, step, attempt: 0 }),
            EventModel::Cancel { reason } => Some(StateModel::Cancelled { reason }),
            _ => None,
        },
        StateModel::Executing { tool_call_id, step, attempt } => match event {
            EventModel::PolicyGate { request_id, tool_call_id: gated, reason } => Some(
                StateModel::WaitingHuman { request_id, tool_call_id: gated, reason },
            ),
            EventModel::ToolCompleted { success, .. } => if success {
                Some(StateModel::Verifying { tool_call_id, step, attempt })
            } else {
                Some(StateModel::Retrying { tool_call_id, step, attempt, max_attempts: DEFAULT_MAX_ATTEMPTS })
            },
            EventModel::Cancel { reason } => Some(StateModel::Cancelled { reason }),
            _ => None,
        },
        StateModel::WaitingHuman { tool_call_id, .. } => match event {
            EventModel::HumanDecision { approved, .. } => if approved {
                Some(StateModel::Executing { tool_call_id, step: 1, attempt: 0 })
            } else {
                Some(StateModel::Cancelled { reason: human_denied_reason() })
            },
            _ => None,
        },
        StateModel::Verifying { tool_call_id, step, attempt } => match event {
            EventModel::VerificationPassed { artifacts } => Some(StateModel::Completed { artifacts }),
            EventModel::VerificationFailed { .. } => Some(
                StateModel::Retrying { tool_call_id, step, attempt, max_attempts: DEFAULT_MAX_ATTEMPTS },
            ),
            EventModel::PlanReady { tool_call_id: next, step: next_step } => Some(
                StateModel::Executing { tool_call_id: next, step: next_step, attempt: 0 },
            ),
            _ => None,
        },
        StateModel::Retrying { tool_call_id, step, attempt, max_attempts } => match event {
            EventModel::RetryRequested { .. } => if attempt < max_attempts {
                Some(StateModel::Executing { tool_call_id, step, attempt: (attempt + 1) as u32 })
            } else {
                None
            },
            EventModel::RetriesExhausted { reason } => Some(StateModel::Failed { reason }),
            _ => None,
        },
        _ => None,
    }
}

/// The reason recorded when a human denies a gated action.
pub open spec fn human_denied_reason() -> Seq<char> {
    "Human denied action"@
}

/// A copy of a list of texts.
pub fn copy_texts(v: &Vec<String>) -> (r: Vec<String>)
    ensures
        r.deep_view() == v.deep_view(),
{
    let mut r: Vec<String> = Vec::new();
    let mut i: usize = 0;
    while i < v.len()
        invariant
            i <= v@.len(),
            r@.len() == i,
            forall|j: int| 0 <= j < i ==> #[trigger] r@[j]@ == v@[j]@,
        decreases v@.len() - i,
    {
        r.push(v[i].clone());
        i += 1;
    }
    assert(r.deep_view() =~= v.deep_view());
    r
}

/// Apply a transition event to a state, returning the new state.
///
/// Returns `None` if the transition is invalid for the current state.
pub fn apply_transition(state: &AgentState, event: &TransitionEvent) -> (r: Option<AgentState>)
    ensures
        match r {
            Some(s) => next_state(state@, event@) == Some(s@),
            None => next_state(state@, event@) is None,
        },
{
    match state {
        AgentState::Planning => match event {
            TransitionEvent::PlanReady { tool_call_id, step } => Some(
                AgentState::Executing { tool_call_id: tool_call_id.clone(), step: *step, attempt: 0 },
            ),
            TransitionEvent::Cancel { reason } => Some(AgentState::Cancelled { reason: reason.clone() }),
            _ => None,
        },
        AgentState::Executing { tool_call_id, step, attempt } => match event {
            TransitionEvent::PolicyGate { request_id, tool_call_id: gated, reason } => Some(
                AgentState::WaitingHuman {
                    request_id: request_id.clone(),
                    tool_call_id: gated.clone(),
                    reason: reason.clone(),
                },
            ),
            TransitionEvent::ToolCompleted { success, .. } => if *success {
                Some(AgentState::Verifying { tool_call_id: tool_call_id.clone(), step: *step, attempt: *attempt })
            } else {
                Some(
                    AgentState::Retrying {
                        tool_call_id: tool_call_id.clone(),
                        step: *step,
                        attempt: *attempt,
                        max_attempts: DEFAULT_MAX_ATTEMPTS,
                    },
                )
            },
            TransitionEvent::Cancel { reason } => Some(AgentState::Cancelled { reason: reason.clone() }),
            _ => None,
        },
        AgentState::WaitingHuman { tool_call_id, .. } => match event {
            TransitionEvent::HumanDecision { approved, .. } => if *approved {
                Some(AgentState::Executing { tool_call_id: tool_call_id.clone(), step: 1, attempt: 0 })
            } else {
                let reason = String::from_str("Human denied action");
                proof {
                    reveal_strlit("Human denied action");
                }
                Some(AgentState::Cancelled { reason })
            },
            _ => None,
        },
        AgentState::Verifying { tool_call_id, step, attempt } => match event {
            TransitionEvent::VerificationPassed { artifacts } => Some(
                AgentState::Completed { artifacts: copy_texts(artifacts) },
            ),
            TransitionEvent::VerificationFailed { .. } => Some(
                AgentState::Retrying {
                    tool_call_id: tool_call_id.clone(),
                    step: *step,
                    attempt: *attempt,
                    max_attempts: DEFAULT_MAX_ATTEMPTS,
                },
            ),
            TransitionEvent::PlanReady { tool_call_id: next, step: next_step } => Some(
                AgentState::Executing { tool_call_id: next.clone(), step: *next_step, attempt: 0 },
            ),
            _ => None,
        },
        AgentState::Retrying { tool_call_id, step, attempt, max_attempts } => match event {
            TransitionEvent::RetryRequested { .. } => if *attempt < *max_attempts {
                Some(AgentState::Executing { tool_call_id: tool_call_id.clone(), step: *step, attempt: *attempt + 1 })
            } else {
                None
            },
            TransitionEvent::RetriesExhausted { reason } => Some(AgentState::Failed { reason: reason.clone() }),
            _ => None,
        },
        _ => None,
    }
}

/// A recorded state transition with metadata.
pub struct Transition {
    pub id: uuid::Uuid,
    pub from: AgentState,
    pub to: AgentState,
    pub event: TransitionEvent,
    pub timestamp: Timestamp,
}

impl Transition {
    /// Records a transition with a fresh identifier and the current time.
    pub fn new(from: AgentState, to: AgentState, event: TransitionEvent) -> (r: Transition)
        ensures
            r.from == from,
            r.to == to,
            r.event == event,
    {
        Transition { id: new_uuid(), from, to, event, timestamp: current_time() }
    }
}

} // verus!

verus! {

/// Whether a state is terminal: the task has completed, failed, or been
/// cancelled.
pub open spec fn is_terminal(s: StateModel) -> bool {
    s is Completed || s is Failed || s is Cancelled
}

/// A terminal state accepts no event.
pub proof fn lemma_terminal_states_are_final(s: StateModel, e: EventModel)
    requires
        is_terminal(s),
    ensures
        next_state(s, e) is None,
{
}

/// A task can be cancelled while planning or executing, and then carries the
/// reason given; in any other state a cancellation is refused.
pub proof fn lemma_cancellation(s: StateModel, reason: Seq<char>)
    ensures
        (s is Planning || s is Executing) ==> next_state(s, EventModel::Cancel { reason }) == Some(
            StateModel::Cancelled { reason },
        ),
        !(s is Planning || s is Executing) ==> next_state(s, EventModel::Cancel { reason }) is None,
{
}

/// A failed tool run, or a failed verification, starts a retry cycle that
/// keeps the tool call, the step and the retries made so far; the retry is
/// granted while fewer retries than the budget have been made, and resumes
/// executing the same tool call at the same step with one more retry counted.
pub proof fn lemma_retry_cycle(tool_call_id: Seq<char>, step: u32, attempt: u32, completed_id: Seq<char>, max_attempts: u32, requested_max: u32, reason: Seq<char>)
    ensures
        next_state(
            StateModel::Executing { tool_call_id, step, attempt },
            EventModel::ToolCompleted { tool_call_id: completed_id, success: false },
        ) == Some(StateModel::Retrying { tool_call_id, step, attempt, max_attempts: DEFAULT_MAX_ATTEMPTS }),
        next_state(
            StateModel::Verifying { tool_call_id, step, attempt },
            EventModel::VerificationFailed { reason },
        ) == Some(StateModel::Retrying { tool_call_id, step, attempt, max_attempts: DEFAULT_MAX_ATTEMPTS }),
        next_state(
            StateModel::Retrying { tool_call_id, step, attempt, max_attempts },
            EventModel::RetryRequested { max_attempts: requested_max },
        ) == if attempt < max_attempts {
            Some(StateModel::Executing { tool_call_id, step, attempt: (attempt + 1) as u32 })
        } else {
            None
        },
{
}

/// The state after a tool failure in `s` followed by a request to retry.
pub open spec fn fail_and_retry(s: StateModel) -> Option<StateModel> {
    match s {
        StateModel::Executing { tool_call_id, .. } => match next_state(
            s,
            EventModel::ToolCompleted { tool_call_id, success: false },
        ) {
            Some(r) => next_state(r, EventModel::RetryRequested { max_attempts: DEFAULT_MAX_ATTEMPTS }),
            None => None,
        },
        _ => None,
    }
}

/// The state after `n` rounds of a tool failure followed by a retry request,
/// starting from `s`; `None` once a round is refused.
pub open spec fn repeated_failures(s: StateModel, n: nat) -> Option<StateModel>
    decreases n,
{
    if n == 0 {
        Some(s)
    } else {
        match repeated_failures(s, (n - 1) as nat) {
            Some(x) => fail_and_retry(x),
            None => None,
        }
    }
}

/// Retries are bounded: a step whose tool keeps failing is retried exactly
/// `DEFAULT_MAX_ATTEMPTS` times, each retry counted, and then no further
/// retry is granted.
pub proof fn lemma_retries_bounded(tool_call_id: Seq<char>, step: u32, n: nat)
    ensures
        repeated_failures(StateModel::Executing { tool_call_id, step, attempt: 0 }, n) == if n
            <= DEFAULT_MAX_ATTEMPTS {
            Some(StateModel::Executing { tool_call_id, step, attempt: n as u32 })
        } else {
            None::<StateModel>
        },
    decreases n,
{
    if n > 0 {
        lemma_retries_bounded(tool_call_id, step, (n - 1) as nat);
    }
}

/// A multi-step task keeps its progress: planning, or the verified end of a
/// step, moves on to executing exactly the step that the plan names, with no
/// retries counted.
pub proof fn lemma_step_progress(tool_call_id: Seq<char>, step: u32, attempt: u32, next_id: Seq<char>, next_step: u32)
    ensures
        next_state(StateModel::Planning, EventModel::PlanReady { tool_call_id: next_id, step: next_step }) == Some(
            StateModel::Executing { tool_call_id: next_id, step: next_step, attempt: 0 },
        ),
        next_state(
            StateModel::Verifying { tool_call_id, step, attempt },
            EventModel::PlanReady { tool_call_id: next_id, step: next_step },
        ) == Some(StateModel::Executing { tool_call_id: next_id, step: next_step, attempt: 0 }),
{
}

/// A retry is granted only while attempts remain, and only the exhaustion of
/// retries fails the task.
pub proof fn lemma_retry_budget(s: StateModel, e: EventModel)
    requires
        s matches StateModel::Retrying { attempt, max_attempts, .. } && attempt >= max_attempts,
        e is RetryRequested,
    ensures
        next_state(s, e) is None,
{
}

/// Only a successful verification completes a task, and the completed task
/// carries exactly the verified artifacts.
pub proof fn lemma_completion(s: StateModel, e: EventModel)
    requires
        next_state(s, e) matches Some(StateModel::Completed { .. }),
    ensures
        s is Verifying,
        e matches EventModel::VerificationPassed { artifacts } && next_state(s, e) == Some(
            StateModel::Completed { artifacts },
        ),
{
}

/// A human's approval resumes executing the gated tool call at step 1; a
/// denial cancels the task.
pub proof fn lemma_human_decision(request_id: Seq<char>, tool_call_id: Seq<char>, reason: Seq<char>, decided: Seq<char>, approved: bool)
    ensures
        next_state(
            StateModel::WaitingHuman { request_id, tool_call_id, reason },
            EventModel::HumanDecision { request_id: decided, approved },
        ) == if approved {
            Some(StateModel::Executing { tool_call_id, step: 1, attempt: 0 })
        } else {
            Some(StateModel::Cancelled { reason: human_denied_reason() })
        },
{
}

/// A task fails only by exhausting its retries, from the retrying state.
pub proof fn lemma_failure(s: StateModel, e: EventModel)
    requires
        next_state(s, e) matches Some(StateModel::Failed { .. }),
    ensures
        s is Retrying,
        e is RetriesExhausted,
{
}

} // verus!

verus! {

/// The policy gate: an executing task stopped by a policy waits for a human
/// decision on the request it names, holding the tool call it names and its
/// reason; approving that request then resumes the held tool call.
pub proof fn lemma_policy_gate(
    tool_call_id: Seq<char>,
    step: u32,
    attempt: u32,
    request_id: Seq<char>,
    gated: Seq<char>,
    reason: Seq<char>,
)
    ensures
        next_state(
            StateModel::Executing { tool_call_id, step, attempt },
            EventModel::PolicyGate { request_id, tool_call_id: gated, reason },
        ) == Some(StateModel::WaitingHuman { request_id, tool_call_id: gated, reason }),
        next_state(
            StateModel::WaitingHuman { request_id, tool_call_id: gated, reason },
            EventModel::HumanDecision { request_id, approved: true },
        ) matches Some(StateModel::Executing { tool_call_id: resumed, .. }) && resumed == gated,
{
}

} // verus!
