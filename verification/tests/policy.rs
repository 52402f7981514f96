use ember::engine::{ExecutionEngine, StandardPolicy};
use ember::intent::Intent;
use ember::json::JsonValue;
use ember::policy::{evaluate_policies, AllowAllPolicy, ConfirmPatternPolicy, Policy, PolicyDecision};

#[test]
fn test_allow_all() {
    let policy = AllowAllPolicy;
    let intent = Intent::new("web.navigate").with_param("url", JsonValue::Str("https://google.com".to_string()));
    assert_eq!(policy.evaluate(&intent), PolicyDecision::Allow);
}

#[test]
fn test_confirm_pattern() {
    let policy = ConfirmPatternPolicy {
        confirm_prefixes: vec!["payment.".to_string()],
        deny_prefixes: vec![],
    };
    let intent = Intent::new("payment.submit");
    match policy.evaluate(&intent) {
        PolicyDecision::Confirm { .. } => {}
        other => panic!("Expected Confirm, got {:?}", other),
    }
}

#[test]
fn test_deny_beats_confirm() {
    let confirm_policy = ConfirmPatternPolicy {
        confirm_prefixes: vec!["danger.".to_string()],
        deny_prefixes: vec![],
    };
    let deny_policy = ConfirmPatternPolicy {
        confirm_prefixes: vec![],
        deny_prefixes: vec!["danger.".to_string()],
    };
    let intent = Intent::new("danger.delete_everything");
    let result = evaluate_policies(&[&confirm_policy, &deny_policy], &intent);
    match result {
        PolicyDecision::Deny { .. } => {}
        other => panic!("Expected Deny, got {:?}", other),
    }
}

#[test]
fn test_engine_policy_allows_web_navigate() {
    let engine = ExecutionEngine::new();
    let intent = Intent::new("web.navigate").with_param("url", JsonValue::Str("https://example.com".to_string()));
    assert_eq!(engine.check_policy(&intent), PolicyDecision::Allow);
}

#[test]
fn test_allow_all_does_not_short_circuit_confirm_policy() {
    let policies: Vec<Box<dyn Policy>> = vec![
        Box::new(AllowAllPolicy),
        Box::new(ConfirmPatternPolicy {
            confirm_prefixes: vec!["payment.".to_string()],
            deny_prefixes: vec![],
        }),
    ];
    let engine = ExecutionEngine::with_policies(policies);

    let intent = Intent::new("payment.submit");
    match engine.check_policy(&intent) {
        PolicyDecision::Confirm { .. } => {}
        other => panic!("Expected Confirm, got {:?}", other),
    }
}

#[test]
fn pattern_reasons_name_the_kind_and_pattern() {
    let policy = ConfirmPatternPolicy {
        confirm_prefixes: vec!["payment.".to_string()],
        deny_prefixes: vec!["pay".to_string()],
    };
    assert_eq!(
        policy.evaluate(&Intent::new("payment.submit")),
        PolicyDecision::Deny { reason: "Intent 'payment.submit' matches deny pattern 'pay'".to_string() }
    );
    let confirm_only = ConfirmPatternPolicy { confirm_prefixes: vec!["payment.".to_string()], deny_prefixes: vec![] };
    assert_eq!(
        confirm_only.evaluate(&Intent::new("payment.submit")),
        PolicyDecision::Confirm { reason: "Intent 'payment.submit' requires human confirmation".to_string() }
    );
    assert_eq!(confirm_only.evaluate(&Intent::new("pay")), PolicyDecision::Allow);
    assert_eq!(policy.name(), "confirm-pattern");
    assert_eq!(AllowAllPolicy.name(), "allow-all");
}

#[test]
fn first_denial_wins_and_last_confirmation_wins() {
    let deny_a = ConfirmPatternPolicy { confirm_prefixes: vec![], deny_prefixes: vec!["x".to_string()] };
    let deny_b = ConfirmPatternPolicy { confirm_prefixes: vec![], deny_prefixes: vec!["x.".to_string()] };
    let intent = Intent::new("x.y");
    assert_eq!(
        evaluate_policies(&[&AllowAllPolicy, &deny_a, &deny_b], &intent),
        PolicyDecision::Deny { reason: "Intent 'x.y' matches deny pattern 'x'".to_string() }
    );
    let confirm = ConfirmPatternPolicy { confirm_prefixes: vec!["x".to_string()], deny_prefixes: vec![] };
    assert_eq!(
        evaluate_policies(&[&confirm, &AllowAllPolicy], &intent),
        PolicyDecision::Confirm { reason: "Intent 'x.y' requires human confirmation".to_string() }
    );
    assert_eq!(evaluate_policies(&[], &intent), PolicyDecision::Allow);
}

#[test]
fn default_engine_gates_payments_email_and_danger() {
    let engine = ExecutionEngine::new();
    assert!(matches!(engine.check_policy(&Intent::new("payment.charge")), PolicyDecision::Confirm { .. }));
    assert!(matches!(engine.check_policy(&Intent::new("email.send")), PolicyDecision::Confirm { .. }));
    assert_eq!(
        engine.check_policy(&Intent::new("danger.rm")),
        PolicyDecision::Deny { reason: "Intent 'danger.rm' matches deny pattern 'danger.'".to_string() }
    );
    assert_eq!(engine.policies.len(), 2);
    assert!(matches!(engine.policies[0], StandardPolicy::AllowAll(_)));
}
