//! The execution engine: runs one tool call through the state machine, the
//! policy engine and an artifact contract.
//!
//! Running the tool and measuring time is outside work; this module holds the
//! decisions between them. A run starts with [`ExecutionEngine::begin`]; before
//! each attempt [`ExecutionEngine::next_attempt`] checks the budgets and gives
//! the time the attempt may take; after it [`ExecutionEngine::record_attempt`]
//! takes what the attempt gave and decides whether the run is over.

use vstd::prelude::*;
use vstd::string::*;
use crate::artifact::{ArtifactContract, Evidence, RequiredEvidenceContract, VerificationModel, VerificationResult};
use crate::intent::Intent;
use crate::policy::{AllowAllPolicy, ConfirmPatternPolicy, DecisionModel, Policy, PolicyDecision, combined, lemma_combined_deny_stays};
use crate::state::{AgentState, DEFAULT_MAX_ATTEMPTS, StateModel, TransitionEvent, apply_transition};
use crate::text::{blank, concat, concat3, concat4, debug_quoted, debug_string_list, decimal, debug_list_text, debug_text, is_blank, u64_text};
use crate::time::{TimeSpan, span_debug, span_debug_text};

verus! {

/// The most attempts a run may make, by default.
pub const DEFAULT_MAX_EXECUTION_LOOP_ITERATIONS: usize = 128;

/// The wall-clock budget of a run, in seconds, by default.
pub const DEFAULT_MAX_EXECUTION_WALL_CLOCK_SECS: u64 = 120;

/// What one attempt of a tool produced: its output and its evidence.
#[derive(Debug)]
pub struct ToolExecution {
    pub content: String,
    pub evidence: Vec<Evidence>,
}

impl ToolExecution {
    pub fn new(content: &str, evidence: Vec<Evidence>) -> (r: ToolExecution)
        ensures
            r.content@ == content@,
            r.evidence == evidence,
    {
        ToolExecution { content: String::from_str(content), evidence }
    }
}

/// How one attempt of a tool ended.
pub enum AttemptOutcome {
    /// The tool ran and produced output and evidence.
    Succeeded(ToolExecution),
    /// The tool reported an error.
    Failed(String),
    /// The attempt did not finish within the remaining wall-clock budget.
    TimedOut,
}

/// The end of a run: the last tool output (or an error text) and the final state.
#[derive(Debug)]
pub struct Outcome {
    pub content: String,
    pub state: AgentState,
}

/// A run in progress.
pub struct EngineRun {
    state: AgentState,
    tool_call_id: String,
    step: u32,
    retries: u32,
    loop_iterations: usize,
    last_content: String,
    remaining: TimeSpan,
}

impl EngineRun {
    /// The run's invariant: it is executing its tool call at its step, with
    /// the retries made so far within the retry budget.
    pub closed spec fn wf(&self) -> bool {
        &&& self.state@ == (StateModel::Executing {
            tool_call_id: self.tool_call_id@,
            step: self.step,
            attempt: self.retries,
        })
        &&& self.retries <= DEFAULT_MAX_ATTEMPTS
        &&& self.remaining.wf()
    }

    pub closed spec fn spec_state(&self) -> StateModel {
        self.state@
    }

    pub closed spec fn spec_tool_call_id(&self) -> Seq<char> {
        self.tool_call_id@
    }

    /// The step of the task that the run executes.
    pub closed spec fn spec_step(&self) -> u32 {
        self.step
    }

    /// The retries made so far.
    pub closed spec fn spec_retries(&self) -> nat {
        self.retries as nat
    }

    /// The number of attempts started so far.
    pub closed spec fn spec_iterations(&self) -> nat {
        self.loop_iterations as nat
    }

    /// The output of the last attempt (empty before the first).
    pub closed spec fn spec_last_content(&self) -> Seq<char> {
        self.last_content@
    }

    /// The wall-clock time the current attempt may take.
    pub closed spec fn spec_remaining(&self) -> TimeSpan {
        self.remaining
    }

    /// The current state of the run.
    pub fn state(&self) -> (s: &AgentState)
        ensures
            s@ == self.spec_state(),
    {
        &self.state
    }

    /// The wall-clock time the current attempt may take.
    pub fn remaining(&self) -> (r: TimeSpan)
        ensures
            r == self.spec_remaining(),
    {
        self.remaining
    }

    /// The number of attempts started so far.
    pub fn loop_iterations(&self) -> (n: usize)
        ensures
            n == self.spec_iterations(),
    {
        self.loop_iterations
    }

    /// The retries made so far.
    pub fn retries(&self) -> (n: u32)
        ensures
            n == self.spec_retries(),
    {
        self.retries
    }
}

/// Orchestrates tool execution through the state machine and policy engine.
pub struct ExecutionEngine<P> {
    pub policies: Vec<P>,
    pub max_loop_iterations: usize,
    pub max_wall_clock_budget: TimeSpan,
}

/// The message of a denial.
pub open spec fn denied_content(reason: Seq<char>) -> Seq<char> {
    "Policy denied: "@ + reason
}

/// The failure reason when a confirmation is required and nobody can give it.
pub open spec fn blocked_reason(reason: Seq<char>) -> Seq<char> {
    "Policy requires human confirmation but no approval channel is configured: "@ + reason
}

/// The failure reason when the attempt budget is spent.
pub open spec fn iterations_reason(max: nat) -> Seq<char> {
    "Execution aborted: retry safety budget exceeded ("@ + decimal(max) + " iterations)"@
}

/// The failure reason when the wall-clock budget is exceeded.
pub open spec fn wall_clock_exceeded_reason(budget: TimeSpan) -> Seq<char> {
    "Execution aborted: retry safety wall-clock budget exceeded ("@ + span_debug(budget.secs, budget.nanos) + ")"@
}

/// The failure reason when the wall-clock budget is used up exactly.
pub open spec fn wall_clock_exhausted_reason(budget: TimeSpan) -> Seq<char> {
    "Execution aborted: retry safety wall-clock budget exhausted ("@ + span_debug(budget.secs, budget.nanos) + ")"@
}

/// The failure reason when a tool has failed on every attempt that the retry
/// budget `max_retries` allows.
pub open spec fn tool_failed_reason(max_retries: nat, error: Seq<char>) -> Seq<char> {
    "Tool failed after "@ + decimal(max_retries + 1) + " attempts: "@ + error
}

/// The failure reason when the output was rejected on every attempt that the
/// retry budget `max_retries` allows.
pub open spec fn verification_failed_reason(max_retries: nat) -> Seq<char> {
    "Verification failed after "@ + decimal(max_retries + 1) + " attempts"@
}

/// The failure reason when an attempt outlives the remaining budget.
pub open spec fn timed_out_reason(remaining: TimeSpan) -> Seq<char> {
    "Execution aborted: tool attempt timed out after "@ + span_debug(remaining.secs, remaining.nanos)
        + " (remaining wall-clock budget)"@
}

/// Why a run that has made `iterations` attempts, `elapsed` into its
/// wall-clock budget, must stop before another attempt, if it must.
pub open spec fn budget_stop(iterations: nat, max_iterations: nat, elapsed: TimeSpan, budget: TimeSpan) -> Option<Seq<char>> {
    if iterations >= max_iterations {
        Some(iterations_reason(max_iterations))
    } else if elapsed.total_nanos() > budget.total_nanos() {
        Some(wall_clock_exceeded_reason(budget))
    } else if elapsed.total_nanos() == budget.total_nanos() {
        Some(wall_clock_exhausted_reason(budget))
    } else {
        None
    }
}

/// Whether `after` is the run `before` continued by a retry: the same tool
/// call at the same step, one more retry counted, with `content` as the last
/// output.
pub open spec fn retried(before: EngineRun, after: EngineRun, content: Seq<char>) -> bool {
    &&& after.wf()
    &&& after.spec_tool_call_id() == before.spec_tool_call_id()
    &&& after.spec_step() == before.spec_step()
    &&& after.spec_retries() == before.spec_retries() + 1
    &&& after.spec_iterations() == before.spec_iterations()
    &&& after.spec_last_content() == content
}

/// The verdict on an attempt's output: the contract's, or success with the
/// output as the artifact when there is no contract.
pub open spec fn attempt_verdict<C: ArtifactContract>(contract: Option<&C>, content: Seq<char>, evidence: Seq<Evidence>) -> VerificationModel {
    match contract {
        Some(c) => c.verdict(evidence),
        None => VerificationModel::Passed { artifacts: seq![content] },
    }
}

/// The policies an engine applies by default: allow everything, or match
/// the kind against deny and confirm patterns.
pub enum StandardPolicy {
    AllowAll(AllowAllPolicy),
    ConfirmPattern(ConfirmPatternPolicy),
}

impl Policy for StandardPolicy {
    open spec fn decision(&self, intent: Intent) -> DecisionModel {
        match self {
            StandardPolicy::AllowAll(p) => p.decision(intent),
            StandardPolicy::ConfirmPattern(p) => p.decision(intent),
        }
    }

    fn evaluate(&self, intent: &Intent) -> (d: PolicyDecision) {
        match self {
            StandardPolicy::AllowAll(p) => p.evaluate(intent),
            StandardPolicy::ConfirmPattern(p) => p.evaluate(intent),
        }
    }

    open spec fn spec_name(&self) -> Seq<char> {
        match self {
            StandardPolicy::AllowAll(p) => p.spec_name(),
            StandardPolicy::ConfirmPattern(p) => p.spec_name(),
        }
    }

    fn name(&self) -> (n: &str) {
        match self {
            StandardPolicy::AllowAll(p) => p.name(),
            StandardPolicy::ConfirmPattern(p) => p.name(),
        }
    }
}

impl Policy for Box<dyn Policy> {
    open spec fn decision(&self, intent: Intent) -> DecisionModel {
        (**self).decision(intent)
    }

    fn evaluate(&self, intent: &Intent) -> (d: PolicyDecision) {
        (**self).evaluate(intent)
    }

    open spec fn spec_name(&self) -> Seq<char> {
        (**self).spec_name()
    }

    fn name(&self) -> (n: &str) {
        (**self).name()
    }
}

impl ExecutionEngine<StandardPolicy> {
    /// An engine with the default policies: everything allowed, except that
    /// payments and sending email need confirmation and dangerous actions are
    /// denied.
    pub fn new() -> (r: ExecutionEngine<StandardPolicy>)
        ensures
            r.wf(),
            r.policies@.len() == 2,
            r.policies@[0] matches StandardPolicy::AllowAll(_),
            r.policies@[1] matches StandardPolicy::ConfirmPattern(p) && p.confirm_prefixes.deep_view()
                == seq!["payment."@, "email.send"@] && p.deny_prefixes.deep_view() == seq!["danger."@],
            r.max_loop_iterations == DEFAULT_MAX_EXECUTION_LOOP_ITERATIONS,
            r.max_wall_clock_budget.total_nanos() == DEFAULT_MAX_EXECUTION_WALL_CLOCK_SECS * 1_000_000_000,
    {
        let mut confirm_prefixes: Vec<String> = Vec::new();
        confirm_prefixes.push(String::from_str("payment."));
        confirm_prefixes.push(String::from_str("email.send"));
        let mut deny_prefixes: Vec<String> = Vec::new();
        deny_prefixes.push(String::from_str("danger."));
        assert(confirm_prefixes.deep_view() =~= seq!["payment."@, "email.send"@]);
        assert(deny_prefixes.deep_view() =~= seq!["danger."@]);
        let mut policies: Vec<StandardPolicy> = Vec::new();
        policies.push(StandardPolicy::AllowAll(AllowAllPolicy));
        policies.push(StandardPolicy::ConfirmPattern(ConfirmPatternPolicy { confirm_prefixes, deny_prefixes }));
        Self::with_policies(policies)
    }
}

impl<P: Policy> ExecutionEngine<P> {
    /// The engine's invariant: its budget is a normalized span.
    pub open spec fn wf(&self) -> bool {
        self.max_wall_clock_budget.wf()
    }

    /// The decisions of the engine's policies on `intent`, in order.
    pub open spec fn decisions(&self, intent: Intent) -> Seq<DecisionModel> {
        Seq::new(self.policies@.len(), |i: int| self.policies@[i].decision(intent))
    }

    /// The combined decision of the engine's policies on `intent`.
    pub open spec fn policy_decision(&self, intent: Intent) -> DecisionModel {
        combined(self.decisions(intent))
    }

    /// An engine with the given policies and the default budgets.
    pub fn with_policies(policies: Vec<P>) -> (r: ExecutionEngine<P>)
        ensures
            r.wf(),
            r.policies == policies,
            r.max_loop_iterations == DEFAULT_MAX_EXECUTION_LOOP_ITERATIONS,
            r.max_wall_clock_budget.total_nanos() == DEFAULT_MAX_EXECUTION_WALL_CLOCK_SECS * 1_000_000_000,
    {
        ExecutionEngine {
            policies,
            max_loop_iterations: DEFAULT_MAX_EXECUTION_LOOP_ITERATIONS,
            max_wall_clock_budget: TimeSpan::from_secs(DEFAULT_MAX_EXECUTION_WALL_CLOCK_SECS),
        }
    }

    /// An engine with the given policies and budgets.
    pub fn with_limits(policies: Vec<P>, max_loop_iterations: usize, max_wall_clock_budget: TimeSpan) -> (r: ExecutionEngine<P>)
        ensures
            r.policies == policies,
            r.max_loop_iterations == max_loop_iterations,
            r.max_wall_clock_budget == max_wall_clock_budget,
    {
        ExecutionEngine { policies, max_loop_iterations, max_wall_clock_budget }
    }

    /// Check policy for an intent: the policies' decisions combined, the most
    /// restrictive winning.
    pub fn check_policy(&self, intent: &Intent) -> (d: PolicyDecision)
        requires
            intent.wf(),
        ensures
            d@ == self.policy_decision(*intent),
    {
        let ghost ds = self.decisions(*intent);
        let mut result = PolicyDecision::Allow;
        let mut i: usize = 0;
        while i < self.policies.len()
            invariant
                intent.wf(),
                i <= self.policies@.len(),
                ds == self.decisions(*intent),
                result@ == combined(ds.subrange(0, i as int)),
                !(result@ is Deny),
            decreases self.policies@.len() - i,
        {
            let decision = self.policies[i].evaluate(intent);
            assert(ds.subrange(0, i + 1).drop_last() =~= ds.subrange(0, i as int));
            match decision {
                PolicyDecision::Deny { reason } => {
                    proof {
                        lemma_combined_deny_stays(ds, i as int + 1);
                    }
                    return PolicyDecision::Deny { reason };
                }
                PolicyDecision::Confirm { reason } => {
                    result = PolicyDecision::Confirm { reason };
                }
                PolicyDecision::Allow => {}
            }
            i += 1;
        }
        assert(ds.subrange(0, ds.len() as int) =~= ds);
        result
    }
}

} // verus!

verus! {

impl<P: Policy> ExecutionEngine<P> {
    /// Starts a run of tool call `tool_call_id`, step `step` of the task, for
    /// `intent`: checks the policies, then moves the state machine from
    /// planning to executing. A denial, or a needed confirmation (no approval
    /// channel exists), ends the run before the tool runs.
    pub fn begin(&self, intent: &Intent, tool_call_id: &str, step: u32) -> (r: Result<EngineRun, Outcome>)
        requires
            intent.wf(),
        ensures
            match self.policy_decision(*intent) {
                DecisionModel::Allow => r matches Ok(run) && run.wf() && run.spec_tool_call_id() == tool_call_id@
                    && run.spec_step() == step && run.spec_retries() == 0 && run.spec_iterations() == 0 && run.spec_last_content() == Seq::<char>::empty(),
                DecisionModel::Deny { reason } => r matches Err(o) && o.content@ == denied_content(reason)
                    && o.state@ == (StateModel::Failed { reason }),
                DecisionModel::Confirm { reason } => r matches Err(o) && o.content@ == blocked_reason(reason)
                    && o.state@ == (StateModel::Failed { reason: blocked_reason(reason) }),
            },
    {
        match self.check_policy(intent) {
            PolicyDecision::Allow => {},
            PolicyDecision::Deny { reason } => {
                let content = concat("Policy denied: ", reason.as_str());
                return Err(Outcome { content, state: AgentState::Failed { reason } });
            },
            PolicyDecision::Confirm { reason } => {
                let blocked = concat(
                    "Policy requires human confirmation but no approval channel is configured: ",
                    reason.as_str(),
                );
                return Err(Outcome { content: blocked.clone(), state: AgentState::Failed { reason: blocked } });
            },
        }
        let state = AgentState::Planning;
        let plan_event = TransitionEvent::PlanReady { tool_call_id: String::from_str(tool_call_id), step };
        match apply_transition(&state, &plan_event) {
            Some(next) => Ok(
                EngineRun {
                    state: next,
                    tool_call_id: String::from_str(tool_call_id),
                    step,
                    retries: 0,
                    loop_iterations: 0,
                    last_content: String::new(),
                    remaining: TimeSpan { secs: 0, nanos: 0 },
                },
            ),
            None => {
                let content = String::from_str("Internal error: invalid Planning→Executing transition");
                Err(Outcome { content, state })
            },
        }
    }

    /// Before an attempt: counts it, and ends the run when the attempt budget
    /// or the wall-clock budget (given the time `elapsed` since the run began)
    /// is spent. Otherwise the run may make the attempt, within the time left.
    pub fn next_attempt(&self, run: &mut EngineRun, elapsed: &TimeSpan) -> (r: Option<Outcome>)
        requires
            self.wf(),
            old(run).wf(),
            elapsed.wf(),
        ensures
            match budget_stop(old(run).spec_iterations(), self.max_loop_iterations as nat, *elapsed, self.max_wall_clock_budget) {
                Some(reason) => r matches Some(o) && o.content@ == old(run).spec_last_content()
                    && o.state@ == (StateModel::Failed { reason }),
                None => r is None
                    && final(run).wf()
                    && final(run).spec_iterations() == old(run).spec_iterations() + 1
                    && final(run).spec_tool_call_id() == old(run).spec_tool_call_id()
                    && final(run).spec_step() == old(run).spec_step()
                    && final(run).spec_retries() == old(run).spec_retries()
                    && final(run).spec_last_content() == old(run).spec_last_content()
                    && final(run).spec_remaining().total_nanos() == self.max_wall_clock_budget.total_nanos()
                    - elapsed.total_nanos(),
            },
    {
        if run.loop_iterations >= self.max_loop_iterations {
            let reason = concat3(
                "Execution aborted: retry safety budget exceeded (",
                u64_text(self.max_loop_iterations as u64).as_str(),
                " iterations)",
            );
            return Some(Outcome { content: run.last_content.clone(), state: AgentState::Failed { reason } });
        }
        run.loop_iterations = run.loop_iterations + 1;
        if elapsed.longer_than(&self.max_wall_clock_budget) {
            let reason = concat3(
                "Execution aborted: retry safety wall-clock budget exceeded (",
                span_debug_text(&self.max_wall_clock_budget).as_str(),
                ")",
            );
            return Some(Outcome { content: run.last_content.clone(), state: AgentState::Failed { reason } });
        }
        let remaining = self.max_wall_clock_budget.saturating_sub(elapsed);
        if remaining.is_zero() {
            let reason = concat3(
                "Execution aborted: retry safety wall-clock budget exhausted (",
                span_debug_text(&self.max_wall_clock_budget).as_str(),
                ")",
            );
            return Some(Outcome { content: run.last_content.clone(), state: AgentState::Failed { reason } });
        }
        run.remaining = remaining;
        None
    }

    /// After an attempt: a timeout ends the run; a tool error is retried; an
    /// output is checked against `contract` (or accepted as it is when there
    /// is none): accepted output completes the run, rejected output is
    /// retried. A failure after the last retry that the budget allows ends
    /// the run.
    pub fn record_attempt<C: ArtifactContract>(&self, run: &mut EngineRun, outcome: AttemptOutcome, contract: Option<&C>) -> (r: Option<Outcome>)
        requires
            old(run).wf(),
        ensures
            match outcome {
                AttemptOutcome::TimedOut => r matches Some(o) && o.content@ == timed_out_reason(old(run).spec_remaining())
                    && o.state@ == (StateModel::Failed { reason: timed_out_reason(old(run).spec_remaining()) }),
                AttemptOutcome::Failed(err) => if old(run).spec_retries() >= DEFAULT_MAX_ATTEMPTS {
                    r matches Some(o) && o.content@ == err@
                        && o.state@ == (StateModel::Failed { reason: tool_failed_reason(DEFAULT_MAX_ATTEMPTS as nat, err@) })
                } else {
                    r is None && retried(*old(run), *final(run), err@)
                },
                AttemptOutcome::Succeeded(execution) => match attempt_verdict(contract, execution.content@, execution.evidence@) {
                    VerificationModel::Passed { artifacts } => r matches Some(o) && o.content@ == execution.content@
                        && o.state@ == (StateModel::Completed { artifacts }),
                    _ => if old(run).spec_retries() >= DEFAULT_MAX_ATTEMPTS {
                        r matches Some(o) && o.content@ == execution.content@
                            && o.state@ == (StateModel::Failed { reason: verification_failed_reason(DEFAULT_MAX_ATTEMPTS as nat) })
                    } else {
                        r is None && retried(*old(run), *final(run), execution.content@)
                    },
                },
            },
    {
        let execution = match outcome {
            AttemptOutcome::Succeeded(execution) => execution,
            AttemptOutcome::Failed(err) => {
                run.last_content = err;
                let tool_event = TransitionEvent::ToolCompleted { tool_call_id: run.tool_call_id.clone(), success: false };
                let state = match apply_transition(&run.state, &tool_event) {
                    Some(s) => s,
                    None => return Some(Outcome { content: run.last_content.clone(), state: run.state.clone() }),
                };
                match &state {
                    AgentState::Retrying { attempt, max_attempts, .. } => {
                        if *attempt >= *max_attempts {
                            let reason = concat4(
                                "Tool failed after ",
                                u64_text(*max_attempts as u64 + 1).as_str(),
                                " attempts: ",
                                run.last_content.as_str(),
                            );
                            let exhausted = TransitionEvent::RetriesExhausted { reason };
                            let end = match apply_transition(&state, &exhausted) {
                                Some(s) => s,
                                None => state,
                            };
                            return Some(Outcome { content: run.last_content.clone(), state: end });
                        }
                        let retry = TransitionEvent::RetryRequested { max_attempts: *max_attempts };
                        match apply_transition(&state, &retry) {
                            Some(s) => {
                                run.state = s;
                                run.retries = run.retries + 1;
                                return None;
                            },
                            None => {
                                let reason = concat(
                                    "Tool failed after retries exhausted: ",
                                    run.last_content.as_str(),
                                );
                                let exhausted = TransitionEvent::RetriesExhausted { reason };
                                let end = match apply_transition(&state, &exhausted) {
                                    Some(s) => s,
                                    None => state,
                                };
                                return Some(Outcome { content: run.last_content.clone(), state: end });
                            },
                        }
                    },
                    _ => return Some(Outcome { content: run.last_content.clone(), state }),
                }
            },
            AttemptOutcome::TimedOut => {
                let reason = concat3(
                    "Execution aborted: tool attempt timed out after ",
                    span_debug_text(&run.remaining).as_str(),
                    " (remaining wall-clock budget)",
                );
                return Some(Outcome { content: reason.clone(), state: AgentState::Failed { reason } });
            },
        };
        run.last_content = execution.content.clone();
        let tool_event = TransitionEvent::ToolCompleted { tool_call_id: run.tool_call_id.clone(), success: true };
        let verifying = match apply_transition(&run.state, &tool_event) {
            Some(s) => s,
            None => return Some(Outcome { content: run.last_content.clone(), state: run.state.clone() }),
        };
        let verification = match contract {
            Some(c) => c.verify(execution.evidence.as_slice()),
            None => {
                let mut artifacts: Vec<String> = Vec::new();
                artifacts.push(execution.content.clone());
                assert(artifacts.deep_view() =~= seq![execution.content@]);
                VerificationResult::Passed { artifacts }
            },
        };
        let state = match verification {
            VerificationResult::Passed { artifacts } => {
                let verify_event = TransitionEvent::VerificationPassed { artifacts };
                let end = match apply_transition(&verifying, &verify_event) {
                    Some(s) => s,
                    None => verifying,
                };
                return Some(Outcome { content: run.last_content.clone(), state: end });
            },
            VerificationResult::Failed { reason } => {
                let verify_event = TransitionEvent::VerificationFailed {
                    reason: concat("Artifact verification failed: ", reason.as_str()),
                };
                match apply_transition(&verifying, &verify_event) {
                    Some(s) => s,
                    None => return Some(Outcome { content: run.last_content.clone(), state: verifying }),
                }
            },
            VerificationResult::Insufficient { missing } => {
                let verify_event = TransitionEvent::VerificationFailed {
                    reason: concat(
                        "Artifact verification insufficient evidence: ",
                        debug_list_text(&missing).as_str(),
                    ),
                };
                match apply_transition(&verifying, &verify_event) {
                    Some(s) => s,
                    None => return Some(Outcome { content: run.last_content.clone(), state: verifying }),
                }
            },
        };
        match &state {
            AgentState::Retrying { attempt, max_attempts, .. } => {
                if *attempt >= *max_attempts {
                    let reason = concat3(
                        "Verification failed after ",
                        u64_text(*max_attempts as u64 + 1).as_str(),
                        " attempts",
                    );
                    let exhausted = TransitionEvent::RetriesExhausted { reason };
                    let end = match apply_transition(&state, &exhausted) {
                        Some(s) => s,
                        None => state,
                    };
                    return Some(Outcome { content: run.last_content.clone(), state: end });
                }
                let retry = TransitionEvent::RetryRequested { max_attempts: *max_attempts };
                match apply_transition(&state, &retry) {
                    Some(s) => {
                        run.state = s;
                        run.retries = run.retries + 1;
                        None
                    },
                    None => {
                        let exhausted = TransitionEvent::RetriesExhausted {
                            reason: String::from_str("Retry transition invalid after verification failure"),
                        };
                        let end = match apply_transition(&state, &exhausted) {
                            Some(s) => s,
                            None => state,
                        };
                        Some(Outcome { content: run.last_content.clone(), state: end })
                    },
                }
            },
            _ => Some(Outcome { content: run.last_content.clone(), state }),
        }
    }
}

} // verus!

verus! {

/// A contract requiring evidence of each of `kinds`.
pub fn required_evidence_contract(kinds: &[&str], description: &str) -> (r: RequiredEvidenceContract)
    ensures
        r.required_kinds.deep_view() == Seq::new(kinds@.len(), |i: int| kinds@[i]@),
        r.description@ == description@,
{
    let mut required_kinds: Vec<String> = Vec::new();
    let mut i: usize = 0;
    while i < kinds.len()
        invariant
            i <= kinds@.len(),
            required_kinds@.len() == i,
            forall|j: int| 0 <= j < i ==> #[trigger] required_kinds@[j]@ == kinds@[j]@,
        decreases kinds@.len() - i,
    {
        required_kinds.push(String::from_str(kinds[i]));
        i += 1;
    }
    assert(required_kinds.deep_view() =~= Seq::new(kinds@.len(), |i: int| kinds@[i]@));
    RequiredEvidenceContract { required_kinds, description: String::from_str(description) }
}

/// The `Debug` rendering of a state, as `derive(Debug)` writes it.
pub open spec fn state_debug(s: StateModel) -> Seq<char> {
    match s {
        StateModel::Planning => "Planning"@,
        StateModel::Executing { tool_call_id, step, attempt } => "Executing { tool_call_id: "@ + debug_quoted(
            tool_call_id,
        ) + ", step: "@ + decimal(step as nat) + ", attempt: "@ + decimal(attempt as nat) + " }"@,
        StateModel::WaitingHuman { request_id, tool_call_id, reason } => "WaitingHuman { request_id: "@
            + debug_quoted(request_id) + ", tool_call_id: "@ + debug_quoted(tool_call_id) + ", reason: "@
            + debug_quoted(reason) + " }"@,
        StateModel::Verifying { tool_call_id, step, attempt } => "Verifying { tool_call_id: "@ + debug_quoted(
            tool_call_id,
        ) + ", step: "@ + decimal(step as nat) + ", attempt: "@ + decimal(attempt as nat) + " }"@,
        StateModel::Retrying { tool_call_id, step, attempt, max_attempts } => "Retrying { tool_call_id: "@
            + debug_quoted(tool_call_id) + ", step: "@ + decimal(step as nat) + ", attempt: "@ + decimal(
            attempt as nat,
        ) + ", max_attempts: "@ + decimal(max_attempts as nat) + " }"@,
        StateModel::Completed { artifacts } => "Completed { artifacts: "@ + debug_string_list(artifacts) + " }"@,
        StateModel::Failed { reason } => "Failed { reason: "@ + debug_quoted(reason) + " }"@,
        StateModel::Cancelled { reason } => "Cancelled { reason: "@ + debug_quoted(reason) + " }"@,
    }
}

/// The `Debug` rendering of a state.
pub fn state_debug_text(s: &AgentState) -> (r: String)
    ensures
        r@ == state_debug(s@),
{
    let mut out: String;
    match s {
        AgentState::Planning => {
            out = String::from_str("Planning");
        },
        AgentState::Executing { tool_call_id, step, attempt } => {
            out = String::from_str("Executing { tool_call_id: ");
            out.append(debug_text(tool_call_id.as_str()).as_str());
            out.append(", step: ");
            out.append(u64_text(*step as u64).as_str());
            out.append(", attempt: ");
            out.append(u64_text(*attempt as u64).as_str());
            out.append(" }");
        },
        AgentState::WaitingHuman { request_id, tool_call_id, reason } => {
            out = String::from_str("WaitingHuman { request_id: ");
            out.append(debug_text(request_id.as_str()).as_str());
            out.append(", tool_call_id: ");
            out.append(debug_text(tool_call_id.as_str()).as_str());
            out.append(", reason: ");
            out.append(debug_text(reason.as_str()).as_str());
            out.append(" }");
        },
        AgentState::Verifying { tool_call_id, step, attempt } => {
            out = String::from_str("Verifying { tool_call_id: ");
            out.append(debug_text(tool_call_id.as_str()).as_str());
            out.append(", step: ");
            out.append(u64_text(*step as u64).as_str());
            out.append(", attempt: ");
            out.append(u64_text(*attempt as u64).as_str());
            out.append(" }");
        },
        AgentState::Retrying { tool_call_id, step, attempt, max_attempts } => {
            out = String::from_str("Retrying { tool_call_id: ");
            out.append(debug_text(tool_call_id.as_str()).as_str());
            out.append(", step: ");
            out.append(u64_text(*step as u64).as_str());
            out.append(", attempt: ");
            out.append(u64_text(*attempt as u64).as_str());
            out.append(", max_attempts: ");
            out.append(u64_text(*max_attempts as u64).as_str());
            out.append(" }");
        },
        AgentState::Completed { artifacts } => {
            out = String::from_str("Completed { artifacts: ");
            out.append(debug_list_text(artifacts).as_str());
            out.append(" }");
        },
        AgentState::Failed { reason } => {
            out = String::from_str("Failed { reason: ");
            out.append(debug_text(reason.as_str()).as_str());
            out.append(" }");
        },
        AgentState::Cancelled { reason } => {
            out = String::from_str("Cancelled { reason: ");
            out.append(debug_text(reason.as_str()).as_str());
            out.append(" }");
        },
    }
    out
}

/// The text reported for a run that ended with output `result` in `state`:
/// the output when the run completed, an error text otherwise.
pub open spec fn finalized(result: Seq<char>, state: StateModel) -> Seq<char> {
    match state {
        StateModel::Completed { .. } => result,
        StateModel::Failed { reason } => if blank(result) || result == reason {
            "Error: "@ + reason
        } else {
            "Error: "@ + reason + " (last tool output: "@ + result + ")"@
        },
        StateModel::Cancelled { reason } => "Error: execution cancelled: "@ + reason,
        other => if blank(result) {
            "Error: execution ended in unexpected state: "@ + state_debug(other)
        } else {
            "Error: execution ended in unexpected state: "@ + state_debug(other) + " (last tool output: "@ + result
                + ")"@
        },
    }
}

/// Renders the result of a run for the agent.
pub fn finalize_execution_result(result: String, state: AgentState) -> (r: String)
    ensures
        r@ == finalized(result@, state@),
{
    match state {
        AgentState::Completed { .. } => result,
        AgentState::Failed { reason } => {
            if is_blank(result.as_str()) || result == reason {
                concat("Error: ", reason.as_str())
            } else {
                let mut out = concat("Error: ", reason.as_str());
                out.append(" (last tool output: ");
                out.append(result.as_str());
                out.append(")");
                out
            }
        },
        AgentState::Cancelled { reason } => concat("Error: execution cancelled: ", reason.as_str()),
        other => {
            let mut out = concat("Error: execution ended in unexpected state: ", state_debug_text(&other).as_str());
            if !is_blank(result.as_str()) {
                out.append(" (last tool output: ");
                out.append(result.as_str());
                out.append(")");
            }
            out
        },
    }
}

} // verus!

verus! {

/// An attempt is allowed only while fewer attempts than the budget allows
/// have started and the wall-clock budget is not spent: a run makes at most
/// `max_iterations` attempts, each started before the budget runs out.
pub proof fn lemma_attempts_bounded(iterations: nat, max_iterations: nat, elapsed: TimeSpan, budget: TimeSpan)
    ensures
        budget_stop(iterations, max_iterations, elapsed, budget) is None <==> iterations < max_iterations
            && elapsed.total_nanos() < budget.total_nanos(),
{
}

} // verus!

verus! {

/// A run in progress has made at most the retry budget's retries; with each
/// retry counted by `record_attempt`, a run makes at most
/// `DEFAULT_MAX_ATTEMPTS + 1` attempts of its tool.
pub proof fn lemma_run_retries_bounded(run: EngineRun)
    requires
        run.wf(),
    ensures
        run.spec_retries() <= DEFAULT_MAX_ATTEMPTS,
        run.spec_state() == (StateModel::Executing {
            tool_call_id: run.spec_tool_call_id(),
            step: run.spec_step(),
            attempt: run.spec_retries() as u32,
        }),
{
}

} // verus!
