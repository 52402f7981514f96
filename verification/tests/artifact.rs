use ember::artifact::{ArtifactContract, Evidence, RequiredEvidenceContract, VerificationResult};
use ember::json::{object1, object2, JsonValue};

fn s(t: &str) -> JsonValue {
    JsonValue::Str(t.to_string())
}

#[test]
fn test_evidence_creation() {
    let evidence = Evidence::new("screenshot", object1("base64", s("...")));
    assert_eq!(evidence.kind, "screenshot");
}

#[test]
fn test_required_evidence_passes() {
    let contract = RequiredEvidenceContract {
        required_kinds: vec!["page_loaded".to_string(), "text_content".to_string()],
        description: "Page must load with visible content".to_string(),
    };
    let evidence = vec![
        Evidence::new("page_loaded", object1("url", s("https://example.com"))),
        Evidence::new("text_content", object1("text", s("Welcome"))),
    ];
    match contract.verify(&evidence) {
        VerificationResult::Passed { artifacts } => {
            assert_eq!(artifacts.len(), 2);
        }
        other => panic!("Expected Passed, got {:?}", other),
    }
}

#[test]
fn test_required_evidence_insufficient() {
    let contract = RequiredEvidenceContract {
        required_kinds: vec!["page_loaded".to_string(), "confirmation_number".to_string()],
        description: "Must have confirmation".to_string(),
    };
    let evidence = vec![Evidence::new("page_loaded", object1("url", s("https://example.com")))];
    match contract.verify(&evidence) {
        VerificationResult::Insufficient { missing } => {
            assert_eq!(missing, vec!["confirmation_number"]);
        }
        other => panic!("Expected Insufficient, got {:?}", other),
    }
}

#[test]
fn test_required_evidence_fails_for_invalid_screenshot_metadata() {
    let contract = RequiredEvidenceContract {
        required_kinds: vec!["screenshot".to_string()],
        description: "Screenshot evidence required".to_string(),
    };
    let evidence = vec![Evidence::new("screenshot", object1("format", s("png")))];
    match contract.verify(&evidence) {
        VerificationResult::Failed { reason } => {
            assert!(reason.contains("Invalid evidence for 'screenshot'"));
            assert!(reason.contains("base64"));
        }
        other => panic!("Expected Failed, got {:?}", other),
    }
}

#[test]
fn test_required_evidence_accepts_screenshot_with_base64_length() {
    let contract = RequiredEvidenceContract {
        required_kinds: vec!["screenshot".to_string()],
        description: "Screenshot evidence required".to_string(),
    };
    let evidence = vec![Evidence::new(
        "screenshot",
        object2("format", s("png"), "base64_length", JsonValue::UInt(128)),
    )];
    match contract.verify(&evidence) {
        VerificationResult::Passed { artifacts } => {
            assert_eq!(artifacts, vec!["screenshot"]);
        }
        other => panic!("Expected Passed, got {:?}", other),
    }
}

#[test]
fn test_required_evidence_fails_for_empty_text_content() {
    let contract = RequiredEvidenceContract {
        required_kinds: vec!["text_content".to_string()],
        description: "Text extraction evidence required".to_string(),
    };
    let evidence = vec![Evidence::new("text_content", object1("length", JsonValue::UInt(0)))];
    match contract.verify(&evidence) {
        VerificationResult::Failed { reason } => {
            assert!(reason.contains("Invalid evidence for 'text_content'"));
            assert!(reason.contains("non-empty 'text'"));
        }
        other => panic!("Expected Failed, got {:?}", other),
    }
}

fn contract(kinds: &[&str]) -> RequiredEvidenceContract {
    RequiredEvidenceContract {
        required_kinds: kinds.iter().map(|k| k.to_string()).collect(),
        description: "d".to_string(),
    }
}

#[test]
fn missing_kinds_listed_in_required_order() {
    let c = contract(&["a", "b", "c", "d"]);
    let evidence = vec![Evidence::new("c", JsonValue::Null)];
    assert_eq!(
        c.verify(&evidence),
        VerificationResult::Insufficient { missing: vec!["a".to_string(), "b".to_string(), "d".to_string()] }
    );
}

#[test]
fn screenshot_blank_format_is_rejected_even_with_data() {
    let c = contract(&["screenshot"]);
    let evidence = vec![Evidence::new("screenshot", object2("format", s(" \t"), "base64", s("AAAA")))];
    assert_eq!(
        c.verify(&evidence),
        VerificationResult::Failed {
            reason: "Invalid evidence for 'screenshot': screenshot evidence field 'format' cannot be empty".to_string()
        }
    );
}

#[test]
fn screenshot_that_is_not_an_object_is_rejected() {
    let c = contract(&["screenshot"]);
    let evidence = vec![Evidence::new("screenshot", s("png"))];
    assert_eq!(
        c.verify(&evidence),
        VerificationResult::Failed {
            reason: "Invalid evidence for 'screenshot': screenshot evidence must be a JSON object".to_string()
        }
    );
}

#[test]
fn screenshot_with_path_is_accepted() {
    let c = contract(&["screenshot"]);
    let evidence = vec![Evidence::new("screenshot", object1("path", s("/tmp/x.png")))];
    assert_eq!(c.verify(&evidence), VerificationResult::Passed { artifacts: vec!["screenshot".to_string()] });
}

#[test]
fn blank_text_is_rejected_and_first_error_is_reported() {
    let c = contract(&["text_content"]);
    let evidence = vec![
        Evidence::new("text_content", object1("text", s("   "))),
        Evidence::new("text_content", JsonValue::Null),
    ];
    assert_eq!(
        c.verify(&evidence),
        VerificationResult::Failed {
            reason: "Invalid evidence for 'text_content': text_content evidence must include non-empty 'text' or positive 'length'"
                .to_string()
        }
    );
}

#[test]
fn one_valid_item_is_enough() {
    let c = contract(&["text_content"]);
    let evidence = vec![
        Evidence::new("text_content", JsonValue::Null),
        Evidence::new("text_content", object1("length", JsonValue::UInt(3))),
    ];
    assert_eq!(c.verify(&evidence), VerificationResult::Passed { artifacts: vec!["text_content".to_string()] });
}

#[test]
fn other_kinds_need_no_particular_shape() {
    let c = contract(&["page_loaded"]);
    let evidence = vec![Evidence::new("page_loaded", JsonValue::Null)];
    assert_eq!(c.verify(&evidence), VerificationResult::Passed { artifacts: vec!["page_loaded".to_string()] });
    assert_eq!(c.description(), "d");
}

#[test]
fn empty_contract_passes_without_evidence() {
    let c = contract(&[]);
    assert_eq!(c.verify(&[]), VerificationResult::Passed { artifacts: vec![] });
}

#[test]
fn unicode_white_space_counts_as_blank() {
    let screenshots = RequiredEvidenceContract {
        required_kinds: vec!["screenshot".to_string()],
        description: "Screenshot evidence required".to_string(),
    };
    let wide_blank = vec![Evidence::new("screenshot", object2("format", s("\u{3000}\u{85}"), "path", s("/tmp/a.png")))];
    assert_eq!(
        screenshots.verify(&wide_blank),
        VerificationResult::Failed {
            reason: "Invalid evidence for 'screenshot': screenshot evidence field 'format' cannot be empty".to_string()
        }
    );

    let texts = RequiredEvidenceContract {
        required_kinds: vec!["text_content".to_string()],
        description: "Text evidence required".to_string(),
    };
    let separators = vec![Evidence::new("text_content", object1("text", s("\u{2028}\u{2029}\u{a0}")))];
    assert!(matches!(texts.verify(&separators), VerificationResult::Failed { .. }));
    let zero_width = vec![Evidence::new("text_content", object1("text", s("\u{200b}")))];
    assert!(matches!(texts.verify(&zero_width), VerificationResult::Passed { .. }));
}
