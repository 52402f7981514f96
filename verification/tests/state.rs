use ember::state::{apply_transition, AgentState, Transition, TransitionEvent};

#[test]
fn test_planning_to_executing() {
    let state = AgentState::Planning;
    let event = TransitionEvent::PlanReady {
        tool_call_id: "tc_1".to_string(),
        step: 1,
    };
    let next = apply_transition(&state, &event).unwrap();
    assert_eq!(
        next,
        AgentState::Executing {
            tool_call_id: "tc_1".to_string(),
            step: 1,
            attempt: 0,
        }
    );
}

#[test]
fn test_executing_to_policy_gate() {
    let state = AgentState::Executing {
        tool_call_id: "tc_1".to_string(),
        step: 1,
        attempt: 0,
    };
    let event = TransitionEvent::PolicyGate {
        request_id: "req_1".to_string(),
        tool_call_id: "tc_1".to_string(),
        reason: "payment action".to_string(),
    };
    let next = apply_transition(&state, &event).unwrap();
    match next {
        AgentState::WaitingHuman { reason, .. } => {
            assert_eq!(reason, "payment action");
        }
        _ => panic!("Expected WaitingHuman state"),
    }
}

#[test]
fn test_human_deny_cancels() {
    let state = AgentState::WaitingHuman {
        request_id: "req_1".to_string(),
        tool_call_id: "tc_1".to_string(),
        reason: "payment".to_string(),
    };
    let event = TransitionEvent::HumanDecision {
        request_id: "req_1".to_string(),
        approved: false,
    };
    let next = apply_transition(&state, &event).unwrap();
    match next {
        AgentState::Cancelled { .. } => {}
        _ => panic!("Expected Cancelled state"),
    }
}

#[test]
fn test_verification_to_completed() {
    let state = AgentState::Verifying {
        tool_call_id: "tc_1".to_string(),
        step: 1,
        attempt: 0,
    };
    let event = TransitionEvent::VerificationPassed {
        artifacts: vec!["confirmation_number: ABC123".to_string()],
    };
    let next = apply_transition(&state, &event).unwrap();
    match next {
        AgentState::Completed { artifacts } => {
            assert_eq!(artifacts.len(), 1);
        }
        _ => panic!("Expected Completed state"),
    }
}

#[test]
fn test_invalid_transition_returns_none() {
    let state = AgentState::Completed { artifacts: vec![] };
    let event = TransitionEvent::PlanReady {
        tool_call_id: "tc_1".to_string(),
        step: 1,
    };
    assert!(apply_transition(&state, &event).is_none());
}

#[test]
fn human_denial_reason_is_recorded() {
    let state = AgentState::WaitingHuman {
        request_id: "req_1".to_string(),
        tool_call_id: "tc_1".to_string(),
        reason: "payment".to_string(),
    };
    let event = TransitionEvent::HumanDecision { request_id: "req_1".to_string(), approved: false };
    assert_eq!(
        apply_transition(&state, &event),
        Some(AgentState::Cancelled { reason: "Human denied action".to_string() })
    );
}

#[test]
fn human_approval_resumes_gated_call_at_step_one() {
    let state = AgentState::WaitingHuman {
        request_id: "req_9".to_string(),
        tool_call_id: "tc_gate".to_string(),
        reason: "payment".to_string(),
    };
    let event = TransitionEvent::HumanDecision { request_id: "req_9".to_string(), approved: true };
    assert_eq!(
        apply_transition(&state, &event),
        Some(AgentState::Executing { tool_call_id: "tc_gate".to_string(), step: 1, attempt: 0 })
    );
}

#[test]
fn terminal_states_accept_no_event() {
    let events = vec![
        TransitionEvent::PlanReady { tool_call_id: "x".to_string(), step: 1 },
        TransitionEvent::Cancel { reason: "stop".to_string() },
        TransitionEvent::RetriesExhausted { reason: "r".to_string() },
        TransitionEvent::VerificationPassed { artifacts: vec![] },
    ];
    let states = vec![
        AgentState::Completed { artifacts: vec!["a".to_string()] },
        AgentState::Failed { reason: "f".to_string() },
        AgentState::Cancelled { reason: "c".to_string() },
    ];
    for s in &states {
        for e in &events {
            assert!(apply_transition(s, e).is_none());
        }
    }
}

#[test]
fn cancellation_from_planning_and_executing_only() {
    let cancel = TransitionEvent::Cancel { reason: "user".to_string() };
    assert_eq!(
        apply_transition(&AgentState::Planning, &cancel),
        Some(AgentState::Cancelled { reason: "user".to_string() })
    );
    let executing = AgentState::Executing { tool_call_id: "t".to_string(), step: 4, attempt: 0 };
    assert_eq!(
        apply_transition(&executing, &cancel),
        Some(AgentState::Cancelled { reason: "user".to_string() })
    );
    let verifying = AgentState::Verifying { tool_call_id: "t".to_string(), step: 4, attempt: 0 };
    assert!(apply_transition(&verifying, &cancel).is_none());
}

#[test]
fn retry_cycle_counts_each_retry() {
    let executing = AgentState::Executing { tool_call_id: "t".to_string(), step: 7, attempt: 0 };
    let failed = TransitionEvent::ToolCompleted { tool_call_id: "t".to_string(), success: false };
    let retrying = apply_transition(&executing, &failed).unwrap();
    assert_eq!(
        retrying,
        AgentState::Retrying { tool_call_id: "t".to_string(), step: 7, attempt: 0, max_attempts: 3 }
    );
    let retry = TransitionEvent::RetryRequested { max_attempts: 3 };
    assert_eq!(
        apply_transition(&retrying, &retry),
        Some(AgentState::Executing { tool_call_id: "t".to_string(), step: 7, attempt: 1 })
    );
}

#[test]
fn a_failing_step_is_retried_three_times() {
    let failed = TransitionEvent::ToolCompleted { tool_call_id: "t".to_string(), success: false };
    let retry = TransitionEvent::RetryRequested { max_attempts: 3 };
    let mut state = AgentState::Executing { tool_call_id: "t".to_string(), step: 2, attempt: 0 };
    let mut retries = 0;
    loop {
        let retrying = apply_transition(&state, &failed).unwrap();
        match apply_transition(&retrying, &retry) {
            Some(next) => {
                retries += 1;
                state = next;
            }
            None => {
                assert_eq!(
                    retrying,
                    AgentState::Retrying { tool_call_id: "t".to_string(), step: 2, attempt: 3, max_attempts: 3 }
                );
                break;
            }
        }
    }
    assert_eq!(retries, 3);
}

#[test]
fn retry_refused_when_attempts_spent() {
    let retrying = AgentState::Retrying { tool_call_id: "t".to_string(), step: 1, attempt: 3, max_attempts: 3 };
    assert!(apply_transition(&retrying, &TransitionEvent::RetryRequested { max_attempts: 3 }).is_none());
    let exhausted = TransitionEvent::RetriesExhausted { reason: "gave up".to_string() };
    assert_eq!(
        apply_transition(&retrying, &exhausted),
        Some(AgentState::Failed { reason: "gave up".to_string() })
    );
}

#[test]
fn verification_keeps_step_and_next_plan_names_the_next_step() {
    let executing = AgentState::Executing { tool_call_id: "t".to_string(), step: 5, attempt: 2 };
    let done = TransitionEvent::ToolCompleted { tool_call_id: "t".to_string(), success: true };
    let verifying = apply_transition(&executing, &done).unwrap();
    assert_eq!(verifying, AgentState::Verifying { tool_call_id: "t".to_string(), step: 5, attempt: 2 });
    let next = TransitionEvent::PlanReady { tool_call_id: "u".to_string(), step: 6 };
    assert_eq!(
        apply_transition(&verifying, &next),
        Some(AgentState::Executing { tool_call_id: "u".to_string(), step: 6, attempt: 0 })
    );
    let failed = TransitionEvent::VerificationFailed { reason: "bad".to_string() };
    assert_eq!(
        apply_transition(&verifying, &failed),
        Some(AgentState::Retrying { tool_call_id: "t".to_string(), step: 5, attempt: 2, max_attempts: 3 })
    );
}

#[test]
fn transition_record_keeps_its_parts() {
    let from = AgentState::Planning;
    let to = AgentState::Executing { tool_call_id: "t".to_string(), step: 1, attempt: 0 };
    let event = TransitionEvent::PlanReady { tool_call_id: "t".to_string(), step: 1 };
    let a = Transition::new(from.clone(), to.clone(), event.clone());
    let b = Transition::new(from.clone(), to.clone(), event.clone());
    assert_eq!(a.from, from);
    assert_eq!(a.to, to);
    assert_eq!(a.event, event);
    assert_ne!(a.id, b.id);
}
