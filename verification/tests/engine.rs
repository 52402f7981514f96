use ember::artifact::{Evidence, RequiredEvidenceContract};
use ember::engine::{
    finalize_execution_result, required_evidence_contract, state_debug_text, AttemptOutcome, ExecutionEngine, ToolExecution,
};
use ember::intent::Intent;
use ember::json::{object1, JsonValue};
use ember::policy::{AllowAllPolicy, ConfirmPatternPolicy, Policy};
use ember::state::AgentState;
use ember::time::TimeSpan;

/// Runs a tool call through the engine with a clock that never advances.
fn drive<P: Policy, F: FnMut() -> AttemptOutcome>(
    engine: &ExecutionEngine<P>,
    intent: &Intent,
    tool_call_id: &str,
    step: u32,
    contract: Option<&RequiredEvidenceContract>,
    mut run_tool: F,
) -> (String, AgentState) {
    let mut run = match engine.begin(intent, tool_call_id, step) {
        Ok(run) => run,
        Err(outcome) => return (outcome.content, outcome.state),
    };
    let elapsed = TimeSpan { secs: 0, nanos: 0 };
    loop {
        if let Some(outcome) = engine.next_attempt(&mut run, &elapsed) {
            return (outcome.content, outcome.state);
        }
        let attempt = run_tool();
        if let Some(outcome) = engine.record_attempt(&mut run, attempt, contract) {
            return (outcome.content, outcome.state);
        }
    }
}

#[test]
fn test_finalize_execution_result_surfaces_failed_state_details() {
    let rendered = finalize_execution_result(
        "backend failure payload".to_string(),
        AgentState::Failed { reason: "verification failed".to_string() },
    );

    assert!(rendered.contains("verification failed"));
    assert!(rendered.contains("backend failure payload"));
}

#[test]
fn test_engine_execute_success_lifecycle() {
    let engine = ExecutionEngine::new();
    let intent = Intent::new("web.navigate");
    let contract = required_evidence_contract(&["page_loaded"], "Page load evidence required");

    let (result, state) = drive(&engine, &intent, "tc_test", 1, Some(&contract), || {
        AttemptOutcome::Succeeded(ToolExecution::new(
            "Navigated to example.com",
            vec![Evidence::new("page_loaded", object1("url", JsonValue::Str("https://example.com".to_string())))],
        ))
    });

    assert_eq!(result, "Navigated to example.com");
    match state {
        AgentState::Completed { artifacts } => {
            assert_eq!(artifacts, vec!["page_loaded"]);
        }
        _ => panic!("Expected Completed, got {:?}", state),
    }
}

#[test]
fn test_engine_execute_retries_until_success() {
    let engine = ExecutionEngine::new();
    let intent = Intent::new("web.click");
    let mut attempts = 0usize;

    let (result, state) = drive(&engine, &intent, "tc_retry", 1, None, || {
        let current = attempts;
        attempts += 1;
        if current < 2 {
            AttemptOutcome::Failed(format!("transient failure {}", current + 1))
        } else {
            AttemptOutcome::Succeeded(ToolExecution::new("eventual success", vec![]))
        }
    });

    assert_eq!(result, "eventual success");
    assert_eq!(attempts, 3);
    match state {
        AgentState::Completed { .. } => {}
        _ => panic!("Expected Completed, got {:?}", state),
    }
}

#[test]
fn test_engine_policy_deny_blocks_execution() {
    let policies: Vec<Box<dyn Policy>> = vec![Box::new(ConfirmPatternPolicy {
        confirm_prefixes: vec![],
        deny_prefixes: vec!["forbidden.".to_string()],
    })];
    let engine = ExecutionEngine::with_policies(policies);
    let intent = Intent::new("forbidden.action");

    let (result, state) = drive(&engine, &intent, "tc_test", 1, None, || {
        AttemptOutcome::Succeeded(ToolExecution::new("should not reach", vec![]))
    });

    assert!(result.starts_with("Policy denied:"));
    match state {
        AgentState::Failed { .. } => {}
        _ => panic!("Expected Failed, got {:?}", state),
    }
}

#[test]
fn test_engine_policy_confirm_blocks_execution_without_human_channel() {
    let policies: Vec<Box<dyn Policy>> = vec![Box::new(ConfirmPatternPolicy {
        confirm_prefixes: vec!["payment.".to_string()],
        deny_prefixes: vec![],
    })];
    let engine = ExecutionEngine::with_policies(policies);
    let intent = Intent::new("payment.charge");
    let mut attempts = 0usize;

    let (result, state) = drive(&engine, &intent, "tc_confirm", 1, None, || {
        attempts += 1;
        AttemptOutcome::Succeeded(ToolExecution::new("should never run", vec![]))
    });

    assert_eq!(attempts, 0);
    assert!(result.contains("requires human confirmation"));
    match state {
        AgentState::Failed { reason } => {
            assert!(reason.contains("requires human confirmation"));
        }
        _ => panic!("Expected Failed, got {:?}", state),
    }
}

#[test]
fn test_engine_retry_budget_guard_stops_execution_loop() {
    let policies: Vec<Box<dyn Policy>> = vec![Box::new(AllowAllPolicy)];
    let engine = ExecutionEngine::with_limits(policies, 1, TimeSpan::from_secs(60));
    let intent = Intent::new("web.extract");
    let contract = required_evidence_contract(&["text_content"], "Text evidence required");
    let mut attempts = 0usize;

    let (_result, state) = drive(&engine, &intent, "tc_budget", 1, Some(&contract), || {
        attempts += 1;
        AttemptOutcome::Succeeded(ToolExecution::new("extracted", vec![]))
    });

    assert_eq!(attempts, 1);
    match state {
        AgentState::Failed { reason } => {
            assert!(reason.contains("retry safety budget exceeded"));
        }
        _ => panic!("Expected Failed, got {:?}", state),
    }
}

#[test]
fn test_engine_wall_clock_budget_preempts_hung_tool_attempt() {
    let policies: Vec<Box<dyn Policy>> = vec![Box::new(AllowAllPolicy)];
    let engine = ExecutionEngine::with_limits(policies, 16, TimeSpan::from_millis(50));
    let intent = Intent::new("web.wait");

    let (result, state) = drive(&engine, &intent, "tc_hung", 1, None, || AttemptOutcome::TimedOut);

    assert!(result.contains("tool attempt timed out"));
    match state {
        AgentState::Failed { reason } => {
            assert!(reason.contains("tool attempt timed out"));
        }
        _ => panic!("Expected Failed, got {:?}", state),
    }
}

#[test]
fn timed_out_attempt_reports_the_remaining_budget() {
    let policies: Vec<Box<dyn Policy>> = vec![Box::new(AllowAllPolicy)];
    let engine = ExecutionEngine::with_limits(policies, 16, TimeSpan::from_millis(50));
    let intent = Intent::new("web.wait");
    let mut run = engine.begin(&intent, "tc", 1).ok().unwrap();
    assert!(engine.next_attempt(&mut run, &TimeSpan::from_millis(20)).is_none());
    let outcome = engine.record_attempt(&mut run, AttemptOutcome::TimedOut, None::<&RequiredEvidenceContract>).unwrap();
    assert_eq!(
        outcome.content,
        "Execution aborted: tool attempt timed out after 30ms (remaining wall-clock budget)"
    );
}

#[test]
fn wall_clock_budget_is_checked_before_each_attempt() {
    let policies: Vec<Box<dyn Policy>> = vec![Box::new(AllowAllPolicy)];
    let engine = ExecutionEngine::with_limits(policies, 16, TimeSpan::from_secs(120));
    let intent = Intent::new("web.wait");
    let mut run = engine.begin(&intent, "tc", 1).ok().unwrap();
    let over = engine.next_attempt(&mut run, &TimeSpan::from_secs(121)).unwrap();
    assert_eq!(
        over.state,
        AgentState::Failed { reason: "Execution aborted: retry safety wall-clock budget exceeded (120s)".to_string() }
    );
    let mut run = engine.begin(&intent, "tc", 1).ok().unwrap();
    let exact = engine.next_attempt(&mut run, &TimeSpan::from_secs(120)).unwrap();
    assert_eq!(
        exact.state,
        AgentState::Failed { reason: "Execution aborted: retry safety wall-clock budget exhausted (120s)".to_string() }
    );
}

#[test]
fn test_engine_verification_insufficient_retries_and_fails() {
    let engine = ExecutionEngine::new();
    let intent = Intent::new("web.extract");
    let contract = required_evidence_contract(&["text_content"], "Text evidence required");
    let mut attempts = 0usize;

    let (result, state) = drive(&engine, &intent, "tc_verify", 1, Some(&contract), || {
        attempts += 1;
        AttemptOutcome::Succeeded(ToolExecution::new("extracted", vec![]))
    });

    assert_eq!(result, "extracted");
    assert_eq!(attempts, 4);
    match state {
        AgentState::Failed { reason } => {
            assert!(reason.contains("Verification failed after"));
        }
        _ => panic!("Expected Failed, got {:?}", state),
    }
}

#[test]
fn failing_tool_is_tried_four_times() {
    let engine = ExecutionEngine::new();
    let mut attempts = 0usize;
    let (result, state) = drive(&engine, &Intent::new("web.click"), "tc_fail", 1, None, || {
        attempts += 1;
        AttemptOutcome::Failed("boom".to_string())
    });
    assert_eq!(attempts, 4);
    assert_eq!(result, "boom");
    assert_eq!(state, AgentState::Failed { reason: "Tool failed after 4 attempts: boom".to_string() });
}

#[test]
fn rejected_output_fails_after_four_attempts() {
    let engine = ExecutionEngine::new();
    let contract = required_evidence_contract(&["text_content"], "Text evidence required");
    let mut attempts = 0usize;
    let (_result, state) = drive(&engine, &Intent::new("web.extract"), "tc_v", 1, Some(&contract), || {
        attempts += 1;
        AttemptOutcome::Succeeded(ToolExecution::new("extracted", vec![]))
    });
    assert_eq!(attempts, 4);
    assert_eq!(state, AgentState::Failed { reason: "Verification failed after 4 attempts".to_string() });
}

#[test]
fn each_retry_is_counted_on_the_run() {
    let engine = ExecutionEngine::new();
    let mut run = engine.begin(&Intent::new("web.click"), "tc", 5).ok().unwrap();
    assert_eq!(run.state(), &AgentState::Executing { tool_call_id: "tc".to_string(), step: 5, attempt: 0 });
    for expected in 1..=3u32 {
        assert!(engine.next_attempt(&mut run, &TimeSpan::from_secs(0)).is_none());
        let none: Option<&RequiredEvidenceContract> = None;
        assert!(engine.record_attempt(&mut run, AttemptOutcome::Failed("e".to_string()), none).is_none());
        assert_eq!(run.retries(), expected);
        assert_eq!(run.state(), &AgentState::Executing { tool_call_id: "tc".to_string(), step: 5, attempt: expected });
    }
}

#[test]
fn iteration_budget_can_end_a_run_before_retries_do() {
    let policies: Vec<Box<dyn Policy>> = vec![Box::new(AllowAllPolicy)];
    let engine = ExecutionEngine::with_limits(policies, 2, TimeSpan::from_secs(60));
    let mut attempts = 0usize;
    let (result, state) = drive(&engine, &Intent::new("web.click"), "tc", 1, None, || {
        attempts += 1;
        AttemptOutcome::Failed(format!("fail {}", attempts))
    });
    assert_eq!(attempts, 2);
    assert_eq!(result, "fail 2");
    assert_eq!(
        state,
        AgentState::Failed { reason: "Execution aborted: retry safety budget exceeded (2 iterations)".to_string() }
    );
}

#[test]
fn denial_text_and_state() {
    let engine = ExecutionEngine::new();
    let outcome = match engine.begin(&Intent::new("danger.x"), "tc", 1) {
        Err(o) => o,
        Ok(_) => panic!("expected a denial"),
    };
    assert_eq!(outcome.content, "Policy denied: Intent 'danger.x' matches deny pattern 'danger.'");
    assert_eq!(outcome.state, AgentState::Failed { reason: "Intent 'danger.x' matches deny pattern 'danger.'".to_string() });
}

#[test]
fn completed_without_contract_lists_the_output() {
    let engine = ExecutionEngine::new();
    let (result, state) = drive(&engine, &Intent::new("web.click"), "tc", 1, None, || {
        AttemptOutcome::Succeeded(ToolExecution::new("done", vec![]))
    });
    assert_eq!(result, "done");
    assert_eq!(state, AgentState::Completed { artifacts: vec!["done".to_string()] });
}

#[test]
fn finalize_renders_each_end() {
    assert_eq!(
        finalize_execution_result("out".to_string(), AgentState::Completed { artifacts: vec![] }),
        "out"
    );
    assert_eq!(
        finalize_execution_result("  ".to_string(), AgentState::Failed { reason: "r".to_string() }),
        "Error: r"
    );
    assert_eq!(
        finalize_execution_result("r".to_string(), AgentState::Failed { reason: "r".to_string() }),
        "Error: r"
    );
    assert_eq!(
        finalize_execution_result("o".to_string(), AgentState::Failed { reason: "r".to_string() }),
        "Error: r (last tool output: o)"
    );
    assert_eq!(
        finalize_execution_result("o".to_string(), AgentState::Cancelled { reason: "c".to_string() }),
        "Error: execution cancelled: c"
    );
    assert_eq!(
        finalize_execution_result(String::new(), AgentState::Planning),
        "Error: execution ended in unexpected state: Planning"
    );
    assert_eq!(
        finalize_execution_result(
            "o".to_string(),
            AgentState::Executing { tool_call_id: "t\"1".to_string(), step: 12, attempt: 1 }
        ),
        "Error: execution ended in unexpected state: Executing { tool_call_id: \"t\\\"1\", step: 12, attempt: 1 } (last tool output: o)"
    );
}

#[test]
fn state_debug_text_matches_derived_debug() {
    let states = vec![
        AgentState::Planning,
        AgentState::Executing { tool_call_id: "a".to_string(), step: 3, attempt: 2 },
        AgentState::WaitingHuman { request_id: "r".to_string(), tool_call_id: "t".to_string(), reason: "why\n".to_string() },
        AgentState::Verifying { tool_call_id: "v".to_string(), step: 0, attempt: 0 },
        AgentState::Retrying { tool_call_id: "x".to_string(), step: 2, attempt: 1, max_attempts: 3 },
        AgentState::Completed { artifacts: vec!["p".to_string(), "q\"".to_string()] },
        AgentState::Failed { reason: "f".to_string() },
        AgentState::Cancelled { reason: "c".to_string() },
    ];
    for s in &states {
        assert_eq!(state_debug_text(s), format!("{:?}", s));
    }
}

#[test]
fn contract_builder_keeps_kinds_in_order() {
    let c = required_evidence_contract(&["a", "b"], "both");
    assert_eq!(c.required_kinds, vec!["a".to_string(), "b".to_string()]);
    assert_eq!(c.description, "both");
}
