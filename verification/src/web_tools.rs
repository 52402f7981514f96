//! Web tools: the tool interface over a web backend.
//!
//! A tool call runs in three parts: the tool reads its parameters and names
//! the web action to perform ([`WebNavigateTool::prepare`] and the like), the
//! backend performs it, and the tool turns what the backend reported into a
//! tool result with evidence ([`WebNavigateTool::finish`] and the like).

use vstd::prelude::*;
use vstd::string::*;
use vstd::utf8::*;
use crate::artifact::Evidence;
use crate::json::{JsonValue, equal_to, is_object2, object2, text, text_value};
use crate::text::{concat, concat4, decimal, u64_text};
use crate::tool::{Tool, ToolCall, ToolRegistry, ToolResult};
use crate::web::{WebAction, WebError, WebEvidence, web_error_text};

verus! {

/// The text parameter `key`, when present and a string.
pub open spec fn param_text(params: Map<Seq<char>, JsonValue>, key: Seq<char>) -> Option<Seq<char>> {
    if params.contains_key(key) {
        params[key].spec_as_str()
    } else {
        None
    }
}

/// The text parameter `key` of a call, when present and a string.
pub fn string_param(call: &ToolCall, key: &str) -> (r: Option<String>)
    requires
        call.params.wf(),
    ensures
        match r {
            Some(s) => param_text(call.params@, key@) == Some(s@),
            None => param_text(call.params@, key@) is None,
        },
{
    match call.params.get(key) {
        Some(v) => match v.as_str() {
            Some(s) => Some(String::from_str(s)),
            None => None,
        },
        None => None,
    }
}

/// An optional text, or `default` when absent.
pub open spec fn text_or_default(o: Option<String>, default: Seq<char>) -> Seq<char> {
    match o {
        Some(t) => t@,
        None => default,
    }
}

/// An optional text, or `default` when absent.
pub fn text_or(o: &Option<String>, default: &str) -> (r: String)
    ensures
        r@ == text_or_default(*o, default@),
{
    match o {
        Some(t) => t.clone(),
        None => String::from_str(default),
    }
}

/// How many bytes of text are shown before it is cut.
pub const DISPLAY_LIMIT_BYTES: usize = 10000;

/// Whether `r` is `text` shown for an agent: as it is when it has at most
/// `DISPLAY_LIMIT_BYTES` bytes of UTF-8, otherwise its first
/// `DISPLAY_LIMIT_BYTES` bytes followed by a note of `before`, the byte count
/// and `after`.
pub open spec fn clipped(text: Seq<char>, before: Seq<char>, after: Seq<char>, r: Seq<char>) -> bool {
    let bytes = encode_utf8(text);
    if bytes.len() <= DISPLAY_LIMIT_BYTES {
        r == text
    } else {
        exists|p: Seq<char>|
            encode_utf8(p) == bytes.subrange(0, DISPLAY_LIMIT_BYTES as int) && r == p + before + decimal(bytes.len())
                + after
    }
}

/// Whether a text can be cut at the display limit: the cut falls between
/// characters (only texts longer than the limit are cut), and its length in
/// bytes fits in `usize`, as the length of any text in memory does.
pub open spec fn clippable(text: Seq<char>) -> bool {
    &&& encode_utf8(text).len() <= usize::MAX
    &&& encode_utf8(text).len() > DISPLAY_LIMIT_BYTES ==> is_char_boundary(encode_utf8(text), DISPLAY_LIMIT_BYTES as int)
}

/// Shows `text` for an agent, cutting it at the display limit.
pub fn clip_text(text: &str, before: &str, after: &str) -> (r: String)
    requires
        clippable(text@),
    ensures
        clipped(text@, before@, after@, r@),
{
    let n = text.len();
    if n > DISPLAY_LIMIT_BYTES {
        let (head, _) = text.split_at(DISPLAY_LIMIT_BYTES);
        let mut out = String::from_str(head);
        out.append(before);
        out.append(u64_text(n as u64).as_str());
        out.append(after);
        proof {
            let bytes = encode_utf8(text@);
            assert(encode_utf8(head@) == bytes.subrange(0, DISPLAY_LIMIT_BYTES as int));
            assert(n as nat == bytes.len());
            assert(out@ == head@ + before@ + decimal(bytes.len()) + after@);
        }
        out
    } else {
        String::from_str(text)
    }
}

/// The byte length of a text, as a JSON number.
pub open spec fn byte_len_value(text: Seq<char>) -> JsonValue {
    JsonValue::UInt(encode_utf8(text).len() as u64)
}

/// Navigate to a URL.
pub struct WebNavigateTool<B> {
    backend: B,
}

/// Click an element on the page.
pub struct WebClickTool<B> {
    backend: B,
}

/// Type text into an input element.
pub struct WebTypeTool<B> {
    backend: B,
}

/// Take a screenshot of the current page.
pub struct WebScreenshotTool<B> {
    backend: B,
}

/// Extract text content from the page or a specific element.
pub struct WebExtractTool<B> {
    backend: B,
}

/// The result a tool gives for a failed action: the error result of the call
/// with `prefix` and the backend's message.
pub open spec fn failed_result(call: ToolCall, prefix: Seq<char>, e: WebError, r: ToolResult) -> bool {
    &&& r.call_id@ == call.id@
    &&& !r.success
    &&& r.is_error
    &&& r.content@ == prefix + web_error_text(e)
    &&& r.evidence@.len() == 0
}

/// Whether `r` is the successful result of `call` with content `content` and
/// exactly one piece of evidence, of kind `kind`.
pub open spec fn succeeded_with(call: ToolCall, content: Seq<char>, kind: Seq<char>, r: ToolResult) -> bool {
    &&& r.call_id@ == call.id@
    &&& r.success
    &&& !r.is_error
    &&& r.content@ == content
    &&& r.evidence@.len() == 1
    &&& r.evidence@[0].kind@ == kind
}

/// The error result for a failed action.
fn failure(call: &ToolCall, prefix: &str, e: &WebError) -> (r: ToolResult)
    ensures
        failed_result(*call, prefix@, *e, r),
{
    ToolResult::error(call.id.as_str(), concat(prefix, e.message().as_str()).as_str())
}

/// The error result for a missing parameter.
pub open spec fn missing_param_result(call: ToolCall, name: Seq<char>, r: ToolResult) -> bool {
    &&& r.call_id@ == call.id@
    &&& !r.success
    &&& r.is_error
    &&& r.content@ == "Missing required parameter: "@ + name
    &&& r.evidence@.len() == 0
}

impl<B> WebNavigateTool<B> {
    pub fn new(backend: B) -> (r: Self)
        ensures
            r.spec_backend() == backend,
    {
        WebNavigateTool { backend }
    }

    pub closed spec fn spec_backend(&self) -> B {
        self.backend
    }

    /// The backend the tool drives.
    pub fn backend(&self) -> (b: &B)
        ensures
            *b == self.spec_backend(),
    {
        &self.backend
    }

    /// The action for a call: navigate to its `url` parameter.
    pub fn prepare(&self, call: &ToolCall) -> (r: Result<WebAction, ToolResult>)
        requires
            call.params.wf(),
        ensures
            match param_text(call.params@, "url"@) {
                Some(u) => r matches Ok(WebAction::Navigate { url }) && url@ == u,
                None => r matches Err(res) && missing_param_result(*call, "url"@, res),
            },
    {
        match string_param(call, "url") {
            Some(url) => Ok(WebAction::Navigate { url }),
            None => Err(ToolResult::error(call.id.as_str(), concat("Missing required parameter: ", "url").as_str())),
        }
    }

    /// The result of a call from what the backend reported: the page reached
    /// and its title, with page-loaded evidence.
    pub fn finish(&self, call: &ToolCall, outcome: Result<WebEvidence, WebError>) -> (r: ToolResult)
        ensures
            match outcome {
                Ok(ev) => succeeded_with(
                    *call,
                    "Navigated to "@ + text_or_default(ev.url, "unknown"@) + ". Title: "@ + text_or_default(
                        ev.text_content,
                        "(none)"@,
                    ),
                    "page_loaded"@,
                    r,
                ) && is_object2(
                    r.evidence@[0].data,
                    "url"@,
                    equal_to(JsonValue::spec_opt_str(ev.url)),
                    "title"@,
                    equal_to(JsonValue::spec_opt_str(ev.text_content)),
                ),
                Err(e) => failed_result(*call, "Navigation failed: "@, e, r),
            },
    {
        match outcome {
            Ok(evidence) => {
                let mut content = concat("Navigated to ", text_or(&evidence.url, "unknown").as_str());
                content.append(". Title: ");
                content.append(text_or(&evidence.text_content, "(none)").as_str());
                let data = object2(
                    "url",
                    JsonValue::opt_str(evidence.url),
                    "title",
                    JsonValue::opt_str(evidence.text_content),
                );
                ToolResult::success(call.id.as_str(), content.as_str()).with_evidence(Evidence::new("page_loaded", data))
            },
            Err(e) => failure(call, "Navigation failed: ", &e),
        }
    }
}

impl<B> WebClickTool<B> {
    pub fn new(backend: B) -> (r: Self)
        ensures
            r.spec_backend() == backend,
    {
        WebClickTool { backend }
    }

    pub closed spec fn spec_backend(&self) -> B {
        self.backend
    }

    /// The backend the tool drives.
    pub fn backend(&self) -> (b: &B)
        ensures
            *b == self.spec_backend(),
    {
        &self.backend
    }

    /// The action for a call: click its `selector` parameter.
    pub fn prepare(&self, call: &ToolCall) -> (r: Result<WebAction, ToolResult>)
        requires
            call.params.wf(),
        ensures
            match param_text(call.params@, "selector"@) {
                Some(s) => r matches Ok(WebAction::Click { selector }) && selector@ == s,
                None => r matches Err(res) && missing_param_result(*call, "selector"@, res),
            },
    {
        match string_param(call, "selector") {
            Some(selector) => Ok(WebAction::Click { selector }),
            None => Err(ToolResult::error(call.id.as_str(), concat("Missing required parameter: ", "selector").as_str())),
        }
    }

    /// The result of clicking `selector`, with element-clicked evidence.
    pub fn finish(&self, call: &ToolCall, selector: &str, outcome: Result<WebEvidence, WebError>) -> (r: ToolResult)
        ensures
            match outcome {
                Ok(ev) => succeeded_with(*call, "Clicked element: "@ + selector@, "element_clicked"@, r) && is_object2(
                    r.evidence@[0].data,
                    "selector"@,
                    text_value(selector@),
                    "url_after"@,
                    equal_to(JsonValue::spec_opt_str(ev.url)),
                ),
                Err(e) => failed_result(*call, "Click failed: "@, e, r),
            },
    {
        match outcome {
            Ok(evidence) => {
                let data = object2("selector", text(selector), "url_after", JsonValue::opt_str(evidence.url));
                ToolResult::success(call.id.as_str(), concat("Clicked element: ", selector).as_str()).with_evidence(
                    Evidence::new("element_clicked", data),
                )
            },
            Err(e) => failure(call, "Click failed: ", &e),
        }
    }
}

} // verus!

verus! {

impl<B> WebTypeTool<B> {
    pub fn new(backend: B) -> (r: Self)
        ensures
            r.spec_backend() == backend,
    {
        WebTypeTool { backend }
    }

    pub closed spec fn spec_backend(&self) -> B {
        self.backend
    }

    /// The backend the tool drives.
    pub fn backend(&self) -> (b: &B)
        ensures
            *b == self.spec_backend(),
    {
        &self.backend
    }

    /// The action for a call: type its `text` parameter into its `selector`.
    pub fn prepare(&self, call: &ToolCall) -> (r: Result<WebAction, ToolResult>)
        requires
            call.params.wf(),
        ensures
            match (param_text(call.params@, "selector"@), param_text(call.params@, "text"@)) {
                (Some(s), Some(t)) => r matches Ok(WebAction::Type { selector, text }) && selector@ == s && text@ == t,
                (None, _) => r matches Err(res) && missing_param_result(*call, "selector"@, res),
                (Some(_), None) => r matches Err(res) && missing_param_result(*call, "text"@, res),
            },
    {
        let selector = match string_param(call, "selector") {
            Some(s) => s,
            None => {
                return Err(ToolResult::error(call.id.as_str(), concat("Missing required parameter: ", "selector").as_str()));
            },
        };
        let text = match string_param(call, "text") {
            Some(t) => t,
            None => {
                return Err(ToolResult::error(call.id.as_str(), concat("Missing required parameter: ", "text").as_str()));
            },
        };
        Ok(WebAction::Type { selector, text })
    }

    /// The result of typing `text` into `selector`, with text-typed evidence.
    pub fn finish(&self, call: &ToolCall, selector: &str, text: &str, outcome: Result<WebEvidence, WebError>) -> (r: ToolResult)
        ensures
            match outcome {
                Ok(_) => succeeded_with(*call, "Typed '"@ + text@ + "' into "@ + selector@, "text_typed"@, r) && is_object2(
                    r.evidence@[0].data,
                    "selector"@,
                    text_value(selector@),
                    "text"@,
                    text_value(text@),
                ),
                Err(e) => failed_result(*call, "Type failed: "@, e, r),
            },
    {
        match outcome {
            Ok(_) => {
                let data = object2("selector", crate::json::text(selector), "text", crate::json::text(text));
                ToolResult::success(call.id.as_str(), concat4("Typed '", text, "' into ", selector).as_str()).with_evidence(
                    Evidence::new("text_typed", data),
                )
            },
            Err(e) => failure(call, "Type failed: ", &e),
        }
    }
}

impl<B> WebScreenshotTool<B> {
    pub fn new(backend: B) -> (r: Self)
        ensures
            r.spec_backend() == backend,
    {
        WebScreenshotTool { backend }
    }

    pub closed spec fn spec_backend(&self) -> B {
        self.backend
    }

    /// The backend the tool drives.
    pub fn backend(&self) -> (b: &B)
        ensures
            *b == self.spec_backend(),
    {
        &self.backend
    }

    /// The action for a call: a screenshot of the page, kept in memory.
    pub fn prepare(&self, call: &ToolCall) -> (r: Result<WebAction, ToolResult>)
        ensures
            r matches Ok(WebAction::Screenshot { output_path }) && output_path is None,
    {
        Ok(WebAction::Screenshot { output_path: None })
    }

    /// The result of a screenshot: the current URL, with screenshot evidence
    /// (format and base64 length) when an image came back.
    pub fn finish(&self, call: &ToolCall, outcome: Result<WebEvidence, WebError>) -> (r: ToolResult)
        requires
            outcome matches Ok(ev) ==> (ev.screenshot matches Some(b) ==> encode_utf8(b@).len() <= usize::MAX),
        ensures
            match outcome {
                Ok(ev) => {
                    &&& r.call_id@ == call.id@
                    &&& r.success
                    &&& !r.is_error
                    &&& r.content@ == "Screenshot captured. Current URL: "@ + text_or_default(ev.url, "unknown"@)
                    &&& match ev.screenshot {
                        Some(b64) => {
                            &&& r.evidence@.len() == 1
                            &&& r.evidence@[0].kind@ == "screenshot"@
                            &&& is_object2(
                                r.evidence@[0].data,
                                "format"@,
                                text_value("png"@),
                                "base64_length"@,
                                equal_to(byte_len_value(b64@)),
                            )
                        },
                        None => r.evidence@.len() == 0,
                    }
                },
                Err(e) => failed_result(*call, "Screenshot failed: "@, e, r),
            },
    {
        match outcome {
            Ok(evidence) => {
                let content = concat("Screenshot captured. Current URL: ", text_or(&evidence.url, "unknown").as_str());
                let result = ToolResult::success(call.id.as_str(), content.as_str());
                match &evidence.screenshot {
                    Some(b64) => {
                        let data = object2(
                            "format",
                            crate::json::text("png"),
                            "base64_length",
                            JsonValue::UInt(b64.as_str().len() as u64),
                        );
                        result.with_evidence(Evidence::new("screenshot", data))
                    },
                    None => result,
                }
            },
            Err(e) => failure(call, "Screenshot failed: ", &e),
        }
    }
}

impl<B> WebExtractTool<B> {
    pub fn new(backend: B) -> (r: Self)
        ensures
            r.spec_backend() == backend,
    {
        WebExtractTool { backend }
    }

    pub closed spec fn spec_backend(&self) -> B {
        self.backend
    }

    /// The backend the tool drives.
    pub fn backend(&self) -> (b: &B)
        ensures
            *b == self.spec_backend(),
    {
        &self.backend
    }

    /// The action for a call: extract the text of its `selector` parameter,
    /// or of the whole page when it has none.
    pub fn prepare(&self, call: &ToolCall) -> (r: Result<WebAction, ToolResult>)
        requires
            call.params.wf(),
        ensures
            r matches Ok(WebAction::Extract { selector }) && match param_text(call.params@, "selector"@) {
                Some(s) => selector matches Some(t) && t@ == s,
                None => selector is None,
            },
    {
        Ok(WebAction::Extract { selector: string_param(call, "selector") })
    }

    /// The result of an extraction: the text, cut for display when long, with
    /// text-content evidence (its byte length and the URL).
    pub fn finish(&self, call: &ToolCall, outcome: Result<WebEvidence, WebError>) -> (r: ToolResult)
        requires
            outcome matches Ok(ev) ==> clippable(crate::web::text_or_empty(ev.text_content)),
        ensures
            match outcome {
                Ok(ev) => {
                    &&& r.call_id@ == call.id@
                    &&& r.success
                    &&& !r.is_error
                    &&& clipped(crate::web::text_or_empty(ev.text_content), "... [truncated, "@, " total chars]"@, r.content@)
                    &&& r.evidence@.len() == 1
                    &&& r.evidence@[0].kind@ == "text_content"@
                    &&& is_object2(
                        r.evidence@[0].data,
                        "length"@,
                        equal_to(byte_len_value(crate::web::text_or_empty(ev.text_content))),
                        "url"@,
                        equal_to(JsonValue::spec_opt_str(ev.url)),
                    )
                },
                Err(e) => failed_result(*call, "Extract failed: "@, e, r),
            },
    {
        match outcome {
            Ok(evidence) => {
                let text = match evidence.text_content {
                    Some(t) => t,
                    None => String::new(),
                };
                let shown = clip_text(text.as_str(), "... [truncated, ", " total chars]");
                let data = object2("length", JsonValue::UInt(text.as_str().len() as u64), "url", JsonValue::opt_str(evidence.url));
                ToolResult::success(call.id.as_str(), shown.as_str()).with_evidence(Evidence::new("text_content", data))
            },
            Err(e) => failure(call, "Extract failed: ", &e),
        }
    }
}

/// Whether `v` is the schema of a string property with description `description`.
pub open spec fn is_string_property(v: JsonValue, description: Seq<char>) -> bool {
    is_object2(v, "type"@, text_value("string"@), "description"@, text_value(description))
}

/// Whether `v` is the JSON schema of an object whose properties are the
/// strings named and described by `props`, in order, and whose required
/// properties are `required` when that is given.
pub open spec fn is_object_schema(v: JsonValue, props: Seq<(Seq<char>, Seq<char>)>, required: Option<Seq<Seq<char>>>) -> bool {
    match v {
        JsonValue::Object(fs) => {
            &&& fs@.len() == (if required is Some { 3int } else { 2int })
            &&& fs@[0].0@ == "type"@
            &&& fs@[0].1.spec_as_str() == Some("object"@)
            &&& fs@[1].0@ == "properties"@
            &&& match fs@[1].1 {
                JsonValue::Object(ps) => {
                    &&& ps@.len() == props.len()
                    &&& forall|i: int|
                        0 <= i < props.len() ==> #[trigger] ps@[i].0@ == props[i].0 && is_string_property(
                            ps@[i].1,
                            props[i].1,
                        )
                },
                _ => false,
            }
            &&& match required {
                Some(names) => {
                    &&& fs@[2].0@ == "required"@
                    &&& match fs@[2].1 {
                        JsonValue::Array(items) => {
                            &&& items@.len() == names.len()
                            &&& forall|i: int| 0 <= i < names.len() ==> #[trigger] items@[i].spec_as_str() == Some(names[i])
                        },
                        _ => false,
                    }
                },
                None => true,
            }
        },
        _ => false,
    }
}

/// The JSON schema of an object with the string properties `props` (name,
/// description) and, when given, the required property names.
fn object_schema(props: &[(&str, &str)], required: Option<&[&str]>) -> (r: JsonValue)
    ensures
        is_object_schema(
            r,
            Seq::new(props@.len(), |i: int| (props@[i].0@, props@[i].1@)),
            match required {
                Some(names) => Some(Seq::new(names@.len(), |i: int| names@[i]@)),
                None => None,
            },
        ),
{
    let mut properties: Vec<(String, JsonValue)> = Vec::new();
    let mut i: usize = 0;
    while i < props.len()
        invariant
            i <= props@.len(),
            properties@.len() == i,
            forall|j: int|
                0 <= j < i ==> #[trigger] properties@[j].0@ == props@[j].0@ && is_string_property(
                    properties@[j].1,
                    props@[j].1@,
                ),
        decreases props@.len() - i,
    {
        let (name, description) = props[i];
        properties.push(
            (String::from_str(name), object2("type", crate::json::text("string"), "description", crate::json::text(description))),
        );
        i += 1;
    }
    let ghost pv = Seq::new(props@.len(), |i: int| (props@[i].0@, props@[i].1@));
    assert forall|i: int| 0 <= i < pv.len() implies #[trigger] properties@[i].0@ == pv[i].0 && is_string_property(
        properties@[i].1,
        pv[i].1,
    ) by {
        assert(properties@[i].0@ == props@[i].0@);
    }
    let mut fields: Vec<(String, JsonValue)> = Vec::new();
    fields.push((String::from_str("type"), crate::json::text("object")));
    fields.push((String::from_str("properties"), JsonValue::Object(properties)));
    match required {
        Some(names) => {
            let mut items: Vec<JsonValue> = Vec::new();
            let mut k: usize = 0;
            while k < names.len()
                invariant
                    k <= names@.len(),
                    items@.len() == k,
                    forall|j: int| 0 <= j < k ==> #[trigger] items@[j].spec_as_str() == Some(names@[j]@),
                decreases names@.len() - k,
            {
                items.push(crate::json::text(names[k]));
                k += 1;
            }
            let ghost nv = Seq::new(names@.len(), |i: int| names@[i]@);
            assert forall|i: int| 0 <= i < nv.len() implies #[trigger] items@[i].spec_as_str() == Some(nv[i]) by {
                assert(items@[i].spec_as_str() == Some(names@[i]@));
            }
            fields.push((String::from_str("required"), JsonValue::Array(items)));
        },
        None => {},
    }
    JsonValue::Object(fields)
}

impl<B> Tool for WebNavigateTool<B> {
    open spec fn spec_name(&self) -> Seq<char> {
        "web_navigate"@
    }

    fn name(&self) -> (n: &str) {
        "web_navigate"
    }

    open spec fn spec_description(&self) -> Seq<char> {
        "Navigate the browser to a URL. Returns the page title and URL after navigation."@
    }

    fn description(&self) -> (d: &str) {
        "Navigate the browser to a URL. Returns the page title and URL after navigation."
    }

    open spec fn describes_parameters(&self, schema: JsonValue) -> bool {
        is_object_schema(schema, seq![("url"@, "The URL to navigate to"@)], Some(seq!["url"@]))
    }

    fn parameters_schema(&self) -> (s: JsonValue) {
        let props = [("url", "The URL to navigate to")];
        let required = ["url"];
        let r = object_schema(&props, Some(&required));
        assert(Seq::new(props@.len(), |i: int| (props@[i].0@, props@[i].1@)) =~= seq![("url"@, "The URL to navigate to"@)]);
        assert(Seq::new(required@.len(), |i: int| required@[i]@) =~= seq!["url"@]);
        r
    }
}

impl<B> Tool for WebClickTool<B> {
    open spec fn spec_name(&self) -> Seq<char> {
        "web_click"@
    }

    fn name(&self) -> (n: &str) {
        "web_click"
    }

    open spec fn spec_description(&self) -> Seq<char> {
        "Click an element on the page by CSS selector."@
    }

    fn description(&self) -> (d: &str) {
        "Click an element on the page by CSS selector."
    }

    open spec fn describes_parameters(&self, schema: JsonValue) -> bool {
        is_object_schema(schema, seq![("selector"@, "CSS selector of the element to click"@)], Some(seq!["selector"@]))
    }

    fn parameters_schema(&self) -> (s: JsonValue) {
        let props = [("selector", "CSS selector of the element to click")];
        let required = ["selector"];
        let r = object_schema(&props, Some(&required));
        assert(Seq::new(props@.len(), |i: int| (props@[i].0@, props@[i].1@)) =~= seq![("selector"@, "CSS selector of the element to click"@)]);
        assert(Seq::new(required@.len(), |i: int| required@[i]@) =~= seq!["selector"@]);
        r
    }
}

impl<B> Tool for WebTypeTool<B> {
    open spec fn spec_name(&self) -> Seq<char> {
        "web_type"@
    }

    fn name(&self) -> (n: &str) {
        "web_type"
    }

    open spec fn spec_description(&self) -> Seq<char> {
        "Type text into an input element identified by CSS selector."@
    }

    fn description(&self) -> (d: &str) {
        "Type text into an input element identified by CSS selector."
    }

    open spec fn describes_parameters(&self, schema: JsonValue) -> bool {
        is_object_schema(
            schema,
            seq![("selector"@, "CSS selector of the input element"@), ("text"@, "Text to type into the element"@)],
            Some(seq!["selector"@, "text"@]),
        )
    }

    fn parameters_schema(&self) -> (s: JsonValue) {
        let props = [("selector", "CSS selector of the input element"), ("text", "Text to type into the element")];
        let required = ["selector", "text"];
        let r = object_schema(&props, Some(&required));
        assert(Seq::new(props@.len(), |i: int| (props@[i].0@, props@[i].1@)) =~= seq![
            ("selector"@, "CSS selector of the input element"@),
            ("text"@, "Text to type into the element"@),
        ]);
        assert(Seq::new(required@.len(), |i: int| required@[i]@) =~= seq!["selector"@, "text"@]);
        r
    }
}

impl<B> Tool for WebScreenshotTool<B> {
    open spec fn spec_name(&self) -> Seq<char> {
        "web_screenshot"@
    }

    fn name(&self) -> (n: &str) {
        "web_screenshot"
    }

    open spec fn spec_description(&self) -> Seq<char> {
        "Take a screenshot of the current browser page."@
    }

    fn description(&self) -> (d: &str) {
        "Take a screenshot of the current browser page."
    }

    open spec fn describes_parameters(&self, schema: JsonValue) -> bool {
        is_object_schema(schema, Seq::empty(), None)
    }

    fn parameters_schema(&self) -> (s: JsonValue) {
        let props: [(&str, &str); 0] = [];
        let r = object_schema(&props, None);
        assert(Seq::new(props@.len(), |i: int| (props@[i].0@, props@[i].1@)) =~= Seq::<(Seq<char>, Seq<char>)>::empty());
        r
    }
}

impl<B> Tool for WebExtractTool<B> {
    open spec fn spec_name(&self) -> Seq<char> {
        "web_extract"@
    }

    fn name(&self) -> (n: &str) {
        "web_extract"
    }

    open spec fn spec_description(&self) -> Seq<char> {
        "Extract text content from the page or a specific element by CSS selector."@
    }

    fn description(&self) -> (d: &str) {
        "Extract text content from the page or a specific element by CSS selector."
    }

    open spec fn describes_parameters(&self, schema: JsonValue) -> bool {
        is_object_schema(
            schema,
            seq![("selector"@, "Optional CSS selector. If omitted, extracts full page content."@)],
            None,
        )
    }

    fn parameters_schema(&self) -> (s: JsonValue) {
        let props = [("selector", "Optional CSS selector. If omitted, extracts full page content.")];
        let r = object_schema(&props, None);
        assert(Seq::new(props@.len(), |i: int| (props@[i].0@, props@[i].1@)) =~= seq![
            ("selector"@, "Optional CSS selector. If omitted, extracts full page content."@),
        ]);
        r
    }
}

/// One of the web tools.
pub enum WebTool<B> {
    Navigate(WebNavigateTool<B>),
    Click(WebClickTool<B>),
    Type(WebTypeTool<B>),
    Screenshot(WebScreenshotTool<B>),
    Extract(WebExtractTool<B>),
}

impl<B> Tool for WebTool<B> {
    open spec fn spec_name(&self) -> Seq<char> {
        match self {
            WebTool::Navigate(t) => t.spec_name(),
            WebTool::Click(t) => t.spec_name(),
            WebTool::Type(t) => t.spec_name(),
            WebTool::Screenshot(t) => t.spec_name(),
            WebTool::Extract(t) => t.spec_name(),
        }
    }

    fn name(&self) -> (n: &str) {
        match self {
            WebTool::Navigate(t) => t.name(),
            WebTool::Click(t) => t.name(),
            WebTool::Type(t) => t.name(),
            WebTool::Screenshot(t) => t.name(),
            WebTool::Extract(t) => t.name(),
        }
    }

    open spec fn spec_description(&self) -> Seq<char> {
        match self {
            WebTool::Navigate(t) => t.spec_description(),
            WebTool::Click(t) => t.spec_description(),
            WebTool::Type(t) => t.spec_description(),
            WebTool::Screenshot(t) => t.spec_description(),
            WebTool::Extract(t) => t.spec_description(),
        }
    }

    fn description(&self) -> (d: &str) {
        match self {
            WebTool::Navigate(t) => t.description(),
            WebTool::Click(t) => t.description(),
            WebTool::Type(t) => t.description(),
            WebTool::Screenshot(t) => t.description(),
            WebTool::Extract(t) => t.description(),
        }
    }

    open spec fn describes_parameters(&self, schema: JsonValue) -> bool {
        match self {
            WebTool::Navigate(t) => t.describes_parameters(schema),
            WebTool::Click(t) => t.describes_parameters(schema),
            WebTool::Type(t) => t.describes_parameters(schema),
            WebTool::Screenshot(t) => t.describes_parameters(schema),
            WebTool::Extract(t) => t.describes_parameters(schema),
        }
    }

    fn parameters_schema(&self) -> (s: JsonValue) {
        match self {
            WebTool::Navigate(t) => t.parameters_schema(),
            WebTool::Click(t) => t.parameters_schema(),
            WebTool::Type(t) => t.parameters_schema(),
            WebTool::Screenshot(t) => t.parameters_schema(),
            WebTool::Extract(t) => t.parameters_schema(),
        }
    }
}

/// Register all web tools with a tool registry, each driving `backend`.
pub fn register_web_tools<B: Clone>(registry: &mut ToolRegistry<WebTool<B>>, backend: B)
    requires
        old(registry).wf(),
    ensures
        final(registry).wf(),
        final(registry).tool_named("web_navigate"@) matches Some(WebTool::Navigate(_)),
        final(registry).tool_named("web_click"@) matches Some(WebTool::Click(_)),
        final(registry).tool_named("web_type"@) matches Some(WebTool::Type(_)),
        final(registry).tool_named("web_screenshot"@) matches Some(WebTool::Screenshot(_)),
        final(registry).tool_named("web_extract"@) matches Some(WebTool::Extract(_)),
        forall|n: Seq<char>|
            n != "web_navigate"@ && n != "web_click"@ && n != "web_type"@ && n != "web_screenshot"@ && n
                != "web_extract"@ ==> #[trigger] final(registry).tool_named(n) == old(registry).tool_named(n),
{
    proof {
        reveal_strlit("web_navigate");
        reveal_strlit("web_click");
        reveal_strlit("web_type");
        reveal_strlit("web_screenshot");
        reveal_strlit("web_extract");
        assert("web_navigate"@[4] == 'n');
        assert("web_click"@[4] == 'c');
        assert("web_type"@[4] == 't');
        assert("web_screenshot"@[4] == 's');
        assert("web_extract"@[4] == 'e');
    }
    registry.register(WebTool::Navigate(WebNavigateTool::new(backend.clone())));
    let ghost r1 = *registry;
    registry.register(WebTool::Click(WebClickTool::new(backend.clone())));
    let ghost r2 = *registry;
    assert(r2.tool_named("web_navigate"@) == r1.tool_named("web_navigate"@));
    assert(r2.tool_named("web_navigate"@) == r1.tool_named("web_navigate"@));
    registry.register(WebTool::Type(WebTypeTool::new(backend.clone())));
    let ghost r3 = *registry;
    assert(r3.tool_named("web_navigate"@) == r2.tool_named("web_navigate"@));
    assert(r3.tool_named("web_click"@) == r2.tool_named("web_click"@));
    registry.register(WebTool::Screenshot(WebScreenshotTool::new(backend.clone())));
    let ghost r4 = *registry;
    assert(r4.tool_named("web_navigate"@) == r3.tool_named("web_navigate"@));
    assert(r4.tool_named("web_click"@) == r3.tool_named("web_click"@));
    assert(r4.tool_named("web_type"@) == r3.tool_named("web_type"@));
    registry.register(WebTool::Extract(WebExtractTool::new(backend)));
    assert(registry.tool_named("web_navigate"@) == r4.tool_named("web_navigate"@));
    assert(registry.tool_named("web_click"@) == r4.tool_named("web_click"@));
    assert(registry.tool_named("web_type"@) == r4.tool_named("web_type"@));
    assert(registry.tool_named("web_screenshot"@) == r4.tool_named("web_screenshot"@));
}

} // verus!
