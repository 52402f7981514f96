use ember::json::JsonValue;
use ember::search::{brave_results_text, fallback_needed, result_count, search_reply, tinyfish_request_body};
use ember::server::{attempt_result, launch_failure_reply, plan_request, request_action, request_reply, ToolRequest};
use ember::state::AgentState;
use ember::web::{action_evidence, screenshot_path, PageReadings, WaitCondition, WebAction, WebError, WebEvidence};

fn ev(url: Option<&str>, text: Option<&str>, shot: Option<&str>) -> WebEvidence {
    WebEvidence {
        action_summary: String::new(),
        url: url.map(String::from),
        screenshot: shot.map(String::from),
        text_content: text.map(String::from),
        browser_success: true,
        http_status: None,
    }
}

fn s(t: &str) -> JsonValue {
    JsonValue::Str(t.to_string())
}

#[test]
fn plans_name_intent_call_and_contract() {
    let plan = plan_request(&ToolRequest::Navigate { url: "https://e.test".to_string() }, 7);
    assert_eq!(plan.intent.kind, "web.navigate");
    assert_eq!(plan.intent.params.get("url"), Some(&s("https://e.test")));
    assert_eq!(plan.tool_call_id, "web_navigate_7");
    assert_eq!(plan.contract.required_kinds, vec!["page_loaded".to_string()]);
    assert_eq!(plan.contract.description, "Page must be loaded");

    let plan = plan_request(&ToolRequest::Type { selector: "#q".to_string(), text: "x".to_string() }, 12);
    assert_eq!(plan.intent.kind, "web.type");
    assert_eq!(plan.intent.params.len(), 2);
    assert_eq!(plan.tool_call_id, "web_type_12");

    let plan = plan_request(&ToolRequest::PressKey { key: "Enter".to_string() }, 1);
    assert_eq!(plan.intent.kind, "web.press_key");
    assert_eq!(plan.intent.params.len(), 0);
    assert_eq!(plan.contract.required_kinds, vec!["key_pressed".to_string()]);

    let plan = plan_request(&ToolRequest::Wait { condition: "500".to_string() }, 3);
    assert_eq!(plan.contract.description, "Wait completion evidence required");
}

#[test]
fn wait_condition_is_milliseconds_or_selector() {
    assert_eq!(
        request_action(&ToolRequest::Wait { condition: "1500".to_string() }),
        WebAction::Wait { condition: WaitCondition::Duration(1500) }
    );
    assert_eq!(
        request_action(&ToolRequest::Wait { condition: "+7".to_string() }),
        WebAction::Wait { condition: WaitCondition::Duration(7) }
    );
    for text in ["#result", "-5", "", "+", "18446744073709551616", "12a"] {
        assert_eq!(
            request_action(&ToolRequest::Wait { condition: text.to_string() }),
            WebAction::Wait { condition: WaitCondition::Selector(text.to_string()) }
        );
    }
    assert_eq!(
        request_action(&ToolRequest::Wait { condition: "18446744073709551615".to_string() }),
        WebAction::Wait { condition: WaitCondition::Duration(u64::MAX) }
    );
}

#[test]
fn attempt_results_per_request() {
    let nav = ToolRequest::Navigate { url: "https://e.test".to_string() };
    let x = attempt_result(&nav, Ok(ev(None, Some("T"), None))).unwrap();
    assert_eq!(x.content, "Navigated to https://e.test. Title: T");
    assert_eq!(x.evidence[0].kind, "page_loaded");
    assert_eq!(
        attempt_result(&nav, Err(WebError::NotConnected)).err().unwrap(),
        "Navigation failed: Backend not connected"
    );

    let shot = ToolRequest::Screenshot { output_path: None };
    assert_eq!(
        attempt_result(&shot, Ok(ev(None, None, None))).err().unwrap(),
        "Screenshot failed: no file path returned"
    );
    let x = attempt_result(&shot, Ok(ev(Some("u"), None, Some("/tmp/a.png")))).unwrap();
    assert_eq!(x.content, "Screenshot saved to: /tmp/a.png");
    assert_eq!(x.evidence[0].kind, "screenshot");

    let key = ToolRequest::PressKey { key: "Enter".to_string() };
    let x = attempt_result(&key, Ok(ev(None, None, None))).unwrap();
    assert_eq!(x.content, "Pressed key: Enter");
    assert_eq!(
        attempt_result(&key, Err(WebError::Other("no".to_string()))).err().unwrap(),
        "Key press failed: Backend error: no"
    );

    let extract = ToolRequest::Extract { selector: None };
    let long = "b".repeat(10005);
    let x = attempt_result(&extract, Ok(ev(None, Some(&long), None))).unwrap();
    assert_eq!(x.content, format!("{}... [truncated, 10005 chars total]", "b".repeat(10000)));
    assert_eq!(x.evidence[0].data.get("length"), Some(&JsonValue::UInt(10005)));

    let wait = ToolRequest::Wait { condition: "#x".to_string() };
    let x = attempt_result(&wait, Ok(ev(None, None, None))).unwrap();
    assert_eq!(x.content, "Wait completed for: #x");
    assert_eq!(x.evidence[0].kind, "wait_completed");
}

#[test]
fn replies() {
    let failed = AgentState::Failed { reason: "r".to_string() };
    assert_eq!(request_reply(&ToolRequest::PressKey { key: "k".to_string() }, "raw".to_string(), failed.clone()), "raw");
    assert_eq!(
        request_reply(&ToolRequest::Click { selector: "s".to_string() }, "raw".to_string(), failed),
        "Error: r (last tool output: raw)"
    );
    assert_eq!(launch_failure_reply("no chrome"), "Error: Browser launch failed: no chrome");
}

#[test]
fn search_request_and_results() {
    assert_eq!(result_count(None), 5);
    assert_eq!(result_count(Some(2)), 2);
    let body = tinyfish_request_body("rust lang & more/é", 3);
    assert_eq!(body.get("url"), Some(&s("https://www.google.com/search?q=rust%20lang%20%26%20more%2F%C3%A9")));
    assert_eq!(body.get("goal"), Some(&s("Extract the top 3 search result titles, URLs, and descriptions")));

    let result = |t: &str, u: &str| {
        JsonValue::Object(vec![("title".to_string(), s(t)), ("url".to_string(), s(u))])
    };
    let data = JsonValue::Object(vec![(
        "web".to_string(),
        JsonValue::Object(vec![("results".to_string(), JsonValue::Array(vec![result("A", "https://a"), result("B", "https://b")]))]),
    )]);
    assert_eq!(
        brave_results_text(&data),
        Ok("1. A\n   https://a\n   \n\n2. B\n   https://b\n   \n\n".to_string())
    );
    assert_eq!(brave_results_text(&JsonValue::Null), Err("No results found".to_string()));

    assert!(!fallback_needed(&Some(Ok("x".to_string()))));
    assert!(fallback_needed(&Some(Err("e".to_string()))));
    assert!(fallback_needed(&None));
    assert_eq!(search_reply(Some(Ok("p".to_string())), Some(Ok("f".to_string()))), "p");
    assert_eq!(search_reply(Some(Err("e".to_string())), Some(Ok("f".to_string()))), "f");
    assert_eq!(
        search_reply(None, Some(Err("down".to_string()))),
        "Search failed (both TinyFish and Brave): down"
    );
    assert_eq!(
        search_reply(Some(Err("e".to_string())), None),
        "Search unavailable: set TINYFISH_API_KEY or BRAVE_API_KEY environment variable"
    );
}

#[test]
fn screenshot_reply_names_the_saved_file() {
    let requested = ToolRequest::Screenshot { output_path: Some("/tmp/x.png".to_string()) };
    let action = request_action(&requested);
    let output_path = match &action {
        WebAction::Screenshot { output_path } => output_path.clone(),
        _ => panic!("expected a screenshot action"),
    };
    let path = screenshot_path(&output_path, 42);
    let evidence = action_evidence(&action, PageReadings { url: None, title: None, text: None, saved_path: Some(path) });
    let x = attempt_result(&requested, Ok(evidence)).unwrap();
    assert_eq!(x.content, "Screenshot saved to: /tmp/x.png");

    let default = ToolRequest::Screenshot { output_path: None };
    let path = screenshot_path(&None, 42);
    let evidence =
        action_evidence(&request_action(&default), PageReadings { url: None, title: None, text: None, saved_path: Some(path) });
    let x = attempt_result(&default, Ok(evidence)).unwrap();
    assert_eq!(x.content, "Screenshot saved to: /tmp/krust-screenshot-42.png");
}
