use ember::intent::ParamMap;
use ember::json::JsonValue;
use ember::tool::{Tool, ToolCall, ToolRegistry};
use ember::web::{action_evidence, screenshot_path, wait_poll, PageReadings, WaitCondition, WaitPoll, WebAction, WebError, WebEvidence};
use ember::web_tools::{
    register_web_tools, WebClickTool, WebExtractTool, WebNavigateTool, WebScreenshotTool, WebTool, WebTypeTool,
};

fn call(id: &str, name: &str, params: &[(&str, JsonValue)]) -> ToolCall {
    let mut map = ParamMap::new();
    for (k, v) in params {
        let v = match v {
            JsonValue::Str(s) => JsonValue::Str(s.clone()),
            JsonValue::UInt(n) => JsonValue::UInt(*n),
            _ => JsonValue::Null,
        };
        map.insert(k.to_string(), v);
    }
    ToolCall { id: id.to_string(), name: name.to_string(), params: map }
}

fn ev(url: Option<&str>, text: Option<&str>, shot: Option<&str>) -> WebEvidence {
    WebEvidence {
        action_summary: String::new(),
        url: url.map(String::from),
        screenshot: shot.map(String::from),
        text_content: text.map(String::from),
        browser_success: true,
        http_status: None,
    }
}

fn obj(fields: &[(&str, JsonValue)]) -> Vec<(String, JsonValue)> {
    fields
        .iter()
        .map(|(k, v)| {
            let v = match v {
                JsonValue::Str(s) => JsonValue::Str(s.clone()),
                JsonValue::UInt(n) => JsonValue::UInt(*n),
                _ => JsonValue::Null,
            };
            (k.to_string(), v)
        })
        .collect()
}

#[test]
fn navigate_tool_reads_url_and_reports_title() {
    let tool = WebNavigateTool::new(());
    let c = call("c1", "web_navigate", &[("url", JsonValue::Str("https://a.test".to_string()))]);
    assert_eq!(tool.prepare(&c).ok(), Some(WebAction::Navigate { url: "https://a.test".to_string() }));
    let r = tool.finish(&c, Ok(ev(Some("https://a.test/"), Some("A"), None)));
    assert!(r.success && !r.is_error);
    assert_eq!(r.call_id, "c1");
    assert_eq!(r.content, "Navigated to https://a.test/. Title: A");
    assert_eq!(r.evidence.len(), 1);
    assert_eq!(r.evidence[0].kind, "page_loaded");
    assert_eq!(
        r.evidence[0].data,
        JsonValue::Object(obj(&[("url", JsonValue::Str("https://a.test/".to_string())), ("title", JsonValue::Str("A".to_string()))]))
    );
    let r = tool.finish(&c, Ok(ev(None, None, None)));
    assert_eq!(r.content, "Navigated to unknown. Title: (none)");
    let missing = tool.prepare(&call("c2", "web_navigate", &[])).err().unwrap();
    assert!(missing.is_error);
    assert_eq!(missing.content, "Missing required parameter: url");
    let failed = tool.finish(&c, Err(WebError::NavigationFailed("dns".to_string())));
    assert_eq!(failed.content, "Navigation failed: Navigation failed: dns");
    assert!(failed.evidence.is_empty());
}

#[test]
fn click_and_type_tools() {
    let click = WebClickTool::new(());
    let c = call("c", "web_click", &[("selector", JsonValue::Str("#go".to_string()))]);
    assert_eq!(click.prepare(&c).ok(), Some(WebAction::Click { selector: "#go".to_string() }));
    let r = click.finish(&c, "#go", Ok(ev(Some("u"), None, None)));
    assert_eq!(r.content, "Clicked element: #go");
    assert_eq!(r.evidence[0].kind, "element_clicked");
    let r = click.finish(&c, "#go", Err(WebError::ElementNotFound { selector: "#go".to_string() }));
    assert_eq!(r.content, "Click failed: Element not found: #go");

    let typing = WebTypeTool::new(());
    let only_selector = call("t", "web_type", &[("selector", JsonValue::Str("#q".to_string()))]);
    assert_eq!(typing.prepare(&only_selector).err().unwrap().content, "Missing required parameter: text");
    let full = call(
        "t",
        "web_type",
        &[("selector", JsonValue::Str("#q".to_string())), ("text", JsonValue::Str("hi".to_string()))],
    );
    assert_eq!(
        typing.prepare(&full).ok(),
        Some(WebAction::Type { selector: "#q".to_string(), text: "hi".to_string() })
    );
    let r = typing.finish(&full, "#q", "hi", Ok(ev(None, None, None)));
    assert_eq!(r.content, "Typed 'hi' into #q");
    let r = typing.finish(&full, "#q", "hi", Err(WebError::Timeout { ms: 30000 }));
    assert_eq!(r.content, "Type failed: Action timed out after 30000ms");
}

#[test]
fn screenshot_and_extract_tools() {
    let shot = WebScreenshotTool::new(());
    let c = call("s", "web_screenshot", &[]);
    assert_eq!(shot.prepare(&c).ok(), Some(WebAction::Screenshot { output_path: None }));
    let r = shot.finish(&c, Ok(ev(Some("u"), None, Some("QUJD"))));
    assert_eq!(r.content, "Screenshot captured. Current URL: u");
    assert_eq!(
        r.evidence[0].data,
        JsonValue::Object(obj(&[("format", JsonValue::Str("png".to_string())), ("base64_length", JsonValue::UInt(4))]))
    );
    assert!(shot.finish(&c, Ok(ev(None, None, None))).evidence.is_empty());
    assert_eq!(shot.finish(&c, Err(WebError::NotConnected)).content, "Screenshot failed: Backend not connected");

    let extract = WebExtractTool::new(());
    let c = call("e", "web_extract", &[]);
    assert_eq!(extract.prepare(&c).ok(), Some(WebAction::Extract { selector: None }));
    let r = extract.finish(&c, Ok(ev(None, Some("héllo"), None)));
    assert_eq!(r.content, "héllo");
    assert_eq!(
        r.evidence[0].data,
        JsonValue::Object(obj(&[("length", JsonValue::UInt(6)), ("url", JsonValue::Null)]))
    );
    let long = "a".repeat(10001);
    let r = extract.finish(&c, Ok(ev(None, Some(&long), None)));
    assert_eq!(r.content, format!("{}... [truncated, 10001 total chars]", "a".repeat(10000)));
    assert_eq!(extract.finish(&c, Err(WebError::Other("x".to_string()))).content, "Extract failed: Backend error: x");
}

#[test]
fn registry_holds_the_web_tools() {
    let mut registry: ToolRegistry<WebTool<()>> = ToolRegistry::new();
    register_web_tools(&mut registry, ());
    let mut names = registry.list();
    names.sort();
    assert_eq!(names, vec!["web_click", "web_extract", "web_navigate", "web_screenshot", "web_type"]);
    assert!(matches!(registry.get("web_type"), Some(WebTool::Type(_))));
    register_web_tools(&mut registry, ());
    assert_eq!(registry.list().len(), 5);
    let unknown = call("u1", "web_fly", &[]);
    let err = registry.dispatch_target(&unknown).err().unwrap();
    assert_eq!(err.content, "Unknown tool: web_fly");
    assert_eq!(err.call_id, "u1");
    assert!(err.is_error && !err.success);
    let known = call("k", "web_click", &[]);
    assert_eq!(registry.dispatch_target(&known).ok().map(|t| t.name()), Some("web_click"));
    let schemas = registry.schemas();
    assert_eq!(schemas.len(), 5);
    let nav = schemas.iter().find(|s| s.name == "web_navigate").unwrap();
    assert_eq!(nav.parameters.get("required"), Some(&JsonValue::Array(vec![JsonValue::Str("url".to_string())])));
}

#[test]
fn action_evidence_per_action() {
    let nav = action_evidence(
        &WebAction::Navigate { url: "https://x".to_string() },
        PageReadings { url: Some("https://x/".to_string()), title: None, text: None, saved_path: None },
    );
    assert_eq!(nav.action_summary, "Navigated to https://x");
    assert_eq!(nav.url.as_deref(), Some("https://x/"));
    assert_eq!(nav.text_content.as_deref(), Some(""));
    assert!(nav.browser_success);

    let shot = action_evidence(
        &WebAction::Screenshot { output_path: None },
        PageReadings { url: None, title: None, text: None, saved_path: Some("/tmp/krust-screenshot-7.png".to_string()) },
    );
    assert_eq!(shot.action_summary, "Captured screenshot");
    assert_eq!(shot.screenshot.as_deref(), Some("/tmp/krust-screenshot-7.png"));
    let unsaved = action_evidence(
        &WebAction::Screenshot { output_path: None },
        PageReadings { url: None, title: None, text: None, saved_path: None },
    );
    assert_eq!(unsaved.screenshot, None);

    let typed = action_evidence(
        &WebAction::Type { selector: "#q".to_string(), text: "hi".to_string() },
        PageReadings { url: Some("u".to_string()), title: Some("ignored".to_string()), text: None, saved_path: None },
    );
    assert_eq!(typed.action_summary, "Typed 'hi' into #q");
    assert_eq!(typed.text_content, None);

    let waited = action_evidence(&WebAction::Wait { condition: WaitCondition::Navigation }, PageReadings {
        url: None,
        title: None,
        text: None,
        saved_path: None,
    });
    assert_eq!(waited.action_summary, "Wait completed");
    let back = action_evidence(&WebAction::Back, PageReadings { url: None, title: None, text: None, saved_path: None });
    assert_eq!(back.action_summary, "Navigated back");
}

#[test]
fn selector_wait_polls_until_deadline() {
    assert_eq!(wait_poll(true, 50_000, 30_000), WaitPoll::Found);
    assert_eq!(wait_poll(false, 100, 30_000), WaitPoll::SleepMillis(200));
    assert_eq!(wait_poll(false, 30_000, 30_000), WaitPoll::Expired(WebError::Timeout { ms: 30_000 }));
}

#[test]
fn web_error_messages() {
    assert_eq!(WebError::NotConnected.message(), "Backend not connected");
    assert_eq!(WebError::Other("boom".to_string()).message(), "Backend error: boom");
}

#[test]
fn screenshot_path_prefers_the_requested_file() {
    assert_eq!(screenshot_path(&Some("/tmp/x.png".to_string()), 5), "/tmp/x.png");
    assert_eq!(screenshot_path(&None, 1700000000123), "/tmp/krust-screenshot-1700000000123.png");
}
