//! Web interaction model: actions, wait conditions, backend errors, the
//! evidence an action leaves, and the agent-friendly page snapshot.

use vstd::prelude::*;
use vstd::string::*;
use crate::text::{concat, concat3, concat4, u64_text, decimal};

verus! {

/// A web action the agent wants to perform.
#[derive(Debug, Clone, PartialEq, Eq)]
pub enum WebAction {
    Navigate { url: String },
    Click { selector: String },
    Type { selector: String, text: String },
    PressKey { key: String },
    Extract { selector: Option<String> },
    Screenshot { output_path: Option<String> },
    Wait { condition: WaitCondition },
    Back,
    Forward,
}

/// Condition to wait for before proceeding.
#[derive(Debug, Clone, PartialEq, Eq)]
pub enum WaitCondition {
    /// Wait for a specific selector to appear.
    Selector(String),
    /// Wait for navigation to complete.
    Navigation,
    /// Wait for a fixed duration (milliseconds).
    Duration(u64),
}

/// Errors from web backend operations.
#[derive(Debug, Clone, PartialEq, Eq)]
pub enum WebError {
    NavigationFailed(String),
    ElementNotFound { selector: String },
    Timeout { ms: u64 },
    NotConnected,
    Other(String),
}

/// The message of a web error, as its `Display` renders it.
pub open spec fn web_error_text(e: WebError) -> Seq<char> {
    match e {
        WebError::NavigationFailed(m) => "Navigation failed: "@ + m@,
        WebError::ElementNotFound { selector } => "Element not found: "@ + selector@,
        WebError::Timeout { ms } => "Action timed out after "@ + decimal(ms as nat) + "ms"@,
        WebError::NotConnected => "Backend not connected"@,
        WebError::Other(m) => "Backend error: "@ + m@,
    }
}

impl WebError {
    /// The error's message.
    pub fn message(&self) -> (r: String)
        ensures
            r@ == web_error_text(*self),
    {
        match self {
            WebError::NavigationFailed(m) => concat("Navigation failed: ", m.as_str()),
            WebError::ElementNotFound { selector } => concat("Element not found: ", selector.as_str()),
            WebError::Timeout { ms } => concat3("Action timed out after ", u64_text(*ms).as_str(), "ms"),
            WebError::NotConnected => String::from_str("Backend not connected"),
            WebError::Other(m) => concat("Backend error: ", m.as_str()),
        }
    }
}

/// Evidence produced by a web action execution.
#[derive(Debug, Clone, PartialEq, Eq)]
pub struct WebEvidence {
    /// What action was performed.
    pub action_summary: String,
    /// The resulting page URL after the action.
    pub url: Option<String>,
    /// The file the screenshot was saved to, if one was captured.
    pub screenshot: Option<String>,
    /// Text content extracted from the page or element.
    pub text_content: Option<String>,
    /// Whether the action appeared to succeed from the browser's perspective.
    pub browser_success: bool,
    /// HTTP status code if a navigation occurred.
    pub http_status: Option<u16>,
}

/// An agent-friendly snapshot of a web page.
#[derive(Debug, Clone, PartialEq, Eq)]
pub struct PageSnapshot {
    pub url: String,
    pub title: String,
    pub elements: Vec<PageElement>,
}

/// A single interactive or informational element on the page.
#[derive(Debug, Clone, PartialEq, Eq)]
pub struct PageElement {
    /// Unique selector or reference for this element.
    pub selector: String,
    /// What kind of element this is.
    pub kind: ElementKind,
    /// Visible text content.
    pub text: Option<String>,
    /// For inputs: current value.
    pub value: Option<String>,
    /// Whether this element is interactable.
    pub interactable: bool,
}

/// Classification of page elements for agent consumption.
#[derive(Debug, Clone, PartialEq, Eq)]
pub enum ElementKind {
    Link,
    Button,
    TextInput,
    Select,
    Checkbox,
    Radio,
    Image,
    Heading,
    Paragraph,
    Navigation,
    Form,
    Other(String),
}

/// Where a screenshot is saved: the requested path, or a file under `/tmp`
/// named by the time stamp `stamp` (milliseconds since the UNIX epoch).
pub open spec fn screenshot_target(output_path: Option<String>, stamp: u64) -> Seq<char> {
    match output_path {
        Some(p) => p@,
        None => "/tmp/krust-screenshot-"@ + decimal(stamp as nat) + ".png"@,
    }
}

/// The file a screenshot is saved to: `output_path` when given, else
/// `/tmp/krust-screenshot-<stamp>.png`.
pub fn screenshot_path(output_path: &Option<String>, stamp: u64) -> (r: String)
    ensures
        r@ == screenshot_target(*output_path, stamp),
{
    match output_path {
        Some(p) => p.clone(),
        None => concat3("/tmp/krust-screenshot-", u64_text(stamp).as_str(), ".png"),
    }
}

/// What the browser reported after performing an action: the page's URL and
/// title, the text extracted, and the file the captured image was saved to, as
/// far as they were read for that action.
pub struct PageReadings {
    pub url: Option<String>,
    pub title: Option<String>,
    pub text: Option<String>,
    pub saved_path: Option<String>,
}

/// The summary recorded for an action, and whether the action's result carries
/// the page title, the extracted text, or a screenshot.
pub open spec fn action_summary(action: WebAction) -> Seq<char> {
    match action {
        WebAction::Navigate { url } => "Navigated to "@ + url@,
        WebAction::Click { selector } => "Clicked element: "@ + selector@,
        WebAction::Type { selector, text } => "Typed '"@ + text@ + "' into "@ + selector@,
        WebAction::PressKey { key } => "Pressed key: "@ + key@,
        WebAction::Extract { .. } => "Extracted text content"@,
        WebAction::Screenshot { .. } => "Captured screenshot"@,
        WebAction::Wait { .. } => "Wait completed"@,
        WebAction::Back => "Navigated back"@,
        WebAction::Forward => "Navigated forward"@,
    }
}

/// The text of an optional text, empty when absent.
pub open spec fn text_or_empty(s: Option<String>) -> Seq<char> {
    match s {
        Some(t) => t@,
        None => Seq::empty(),
    }
}

/// Whether `o` holds a text equal to `s`.
pub open spec fn holds_text(o: Option<String>, s: Seq<char>) -> bool {
    match o {
        Some(t) => t@ == s,
        None => false,
    }
}

/// The evidence a backend reports for `action` given what it read from the page.
pub open spec fn evidence_matches(action: WebAction, readings: PageReadings, e: WebEvidence) -> bool {
    &&& e.action_summary@ == action_summary(action)
    &&& e.browser_success
    &&& e.http_status is None
    &&& match action {
        WebAction::Navigate { .. } => {
            &&& holds_text(e.url, text_or_empty(readings.url))
            &&& holds_text(e.text_content, text_or_empty(readings.title))
            &&& e.screenshot is None
        },
        WebAction::Extract { .. } => {
            &&& e.url == readings.url
            &&& holds_text(e.text_content, text_or_empty(readings.text))
            &&& e.screenshot is None
        },
        WebAction::Screenshot { .. } => {
            &&& e.url == readings.url
            &&& e.text_content is None
            &&& e.screenshot == readings.saved_path
        },
        _ => e.url == readings.url && e.text_content is None && e.screenshot is None,
    }
}

fn text_or_empty_exec(s: Option<String>) -> (r: String)
    ensures
        r@ == text_or_empty(s),
{
    match s {
        Some(t) => t,
        None => String::new(),
    }
}

/// Builds the evidence of `action` from what the browser reported: the
/// summary of the action, the URL after it, and for navigation the page title,
/// for extraction the text, for a screenshot the file it was saved to.
pub fn action_evidence(action: &WebAction, readings: PageReadings) -> (e: WebEvidence)
    ensures
        evidence_matches(*action, readings, e),
        *action is Navigate ==> (e.text_content matches Some(t) && t@ == match readings.title {
            Some(title) => title@,
            None => Seq::<char>::empty(),
        }),
        *action is Extract ==> (e.text_content matches Some(t) && t@ == match readings.text {
            Some(text) => text@,
            None => Seq::<char>::empty(),
        }),
        *action is Screenshot ==> e.screenshot == readings.saved_path,
{
    let ghost r0 = readings;
    let summary = match action {
        WebAction::Navigate { url } => concat("Navigated to ", url.as_str()),
        WebAction::Click { selector } => concat("Clicked element: ", selector.as_str()),
        WebAction::Type { selector, text } => concat4("Typed '", text.as_str(), "' into ", selector.as_str()),
        WebAction::PressKey { key } => concat("Pressed key: ", key.as_str()),
        WebAction::Extract { .. } => String::from_str("Extracted text content"),
        WebAction::Screenshot { .. } => String::from_str("Captured screenshot"),
        WebAction::Wait { .. } => String::from_str("Wait completed"),
        WebAction::Back => String::from_str("Navigated back"),
        WebAction::Forward => String::from_str("Navigated forward"),
    };
    let PageReadings { url, title, text, saved_path } = readings;
    match action {
        WebAction::Navigate { .. } => WebEvidence {
            action_summary: summary,
            url: Some(text_or_empty_exec(url)),
            screenshot: None,
            text_content: Some(text_or_empty_exec(title)),
            browser_success: true,
            http_status: None,
        },
        WebAction::Extract { .. } => WebEvidence {
            action_summary: summary,
            url,
            screenshot: None,
            text_content: Some(text_or_empty_exec(text)),
            browser_success: true,
            http_status: None,
        },
        WebAction::Screenshot { .. } => WebEvidence {
            action_summary: summary,
            url,
            screenshot: saved_path,
            text_content: None,
            browser_success: true,
            http_status: None,
        },
        _ => WebEvidence {
            action_summary: summary,
            url,
            screenshot: None,
            text_content: None,
            browser_success: true,
            http_status: None,
        },
    }
}

/// How long the wait for a selector lasts at most, in milliseconds.
pub const SELECTOR_WAIT_TIMEOUT_MS: u64 = 30_000;

/// How long to sleep between two looks for a selector, in milliseconds.
pub const SELECTOR_POLL_INTERVAL_MS: u64 = 200;

/// The next move while waiting for a selector to appear.
#[derive(Debug, Clone, PartialEq, Eq)]
pub enum WaitPoll {
    /// The element is there: the wait is over.
    Found,
    /// The deadline has passed: the wait fails.
    Expired(WebError),
    /// Look again after this many milliseconds.
    SleepMillis(u64),
}

/// Decides the next move of a selector wait, given whether the element was
/// found and the time (in milliseconds on a monotonic clock) against the
/// deadline.
pub fn wait_poll(found: bool, now_ms: u64, deadline_ms: u64) -> (r: WaitPoll)
    ensures
        found ==> r == WaitPoll::Found,
        !found && now_ms >= deadline_ms ==> r == WaitPoll::Expired(WebError::Timeout { ms: SELECTOR_WAIT_TIMEOUT_MS }),
        !found && now_ms < deadline_ms ==> r == WaitPoll::SleepMillis(SELECTOR_POLL_INTERVAL_MS),
{
    if found {
        WaitPoll::Found
    } else if now_ms >= deadline_ms {
        WaitPoll::Expired(WebError::Timeout { ms: SELECTOR_WAIT_TIMEOUT_MS })
    } else {
        WaitPoll::SleepMillis(SELECTOR_POLL_INTERVAL_MS)
    }
}

} // verus!

verus! {

/// What the evidence of an action reports is what the browser read for that
/// action: after navigating, the page's URL and its title; after extracting,
/// the URL and the extracted text (whatever the title); after a screenshot,
/// the file it was saved to. No other action reports a title, text or
/// screenshot, and every action is reported as a browser success.
pub proof fn lemma_evidence_reports_readings(action: WebAction, readings: PageReadings, e: WebEvidence)
    requires
        evidence_matches(action, readings, e),
    ensures
        e.browser_success,
        e.http_status is None,
        action is Navigate ==> (e.text_content matches Some(t) && t@ == match readings.title {
            Some(title) => title@,
            None => Seq::<char>::empty(),
        }),
        action is Navigate ==> (e.url matches Some(u) && u@ == match readings.url {
            Some(url) => url@,
            None => Seq::<char>::empty(),
        }),
        action is Extract ==> (e.text_content matches Some(t) && t@ == match readings.text {
            Some(text) => text@,
            None => Seq::<char>::empty(),
        }),
        action is Extract ==> e.url == readings.url,
        action is Screenshot ==> e.screenshot == readings.saved_path && e.text_content is None,
        !(action is Navigate) && !(action is Extract) ==> e.text_content is None,
        !(action is Screenshot) ==> e.screenshot is None,
        !(action is Navigate) ==> e.url == readings.url,
{
}

} // verus!
