//! The browser tools served to agents: for each request, the intent and
//! artifact contract it runs under, the web action it asks of the backend,
//! what one attempt produced from the backend's report, and the reply.

use vstd::prelude::*;
use vstd::string::*;
use vstd::utf8::*;
use crate::artifact::{Evidence, RequiredEvidenceContract, has_valid_item, item_problem, kind_present, lemma_missing_kinds, lemma_required_verdict, missing_kinds, required_verdict};
use crate::engine::{ToolExecution, finalize_execution_result, finalized, required_evidence_contract};
use crate::intent::Intent;
use crate::json::{JsonValue, equal_to, is_object1, is_object2, object1, object2, text, text_value};
use crate::state::AgentState;
use crate::text::{concat, concat3, concat4, decimal, parse_u64, parse_u64_spec, u64_text};
use crate::web::{WaitCondition, WebAction, WebError, WebEvidence, text_or_empty, web_error_text};
use crate::web_tools::{clip_text, clipped, clippable, byte_len_value, text_or, text_or_default};

verus! {

/// A request an agent makes to the browser tools.
#[derive(Debug, Clone, PartialEq, Eq)]
pub enum ToolRequest {
    Navigate { url: String },
    Click { selector: String },
    Type { selector: String, text: String },
    PressKey { key: String },
    Screenshot { output_path: Option<String> },
    Extract { selector: Option<String> },
    /// A CSS selector to wait for, or a number of milliseconds.
    Wait { condition: String },
}

/// How a request runs through the engine: its intent, its tool call id and
/// the evidence its result must carry.
pub struct ToolPlan {
    pub intent: Intent,
    pub tool_call_id: String,
    pub contract: RequiredEvidenceContract,
}

/// The tool name of a request.
pub open spec fn tool_name(request: ToolRequest) -> Seq<char> {
    match request {
        ToolRequest::Navigate { .. } => "web_navigate"@,
        ToolRequest::Click { .. } => "web_click"@,
        ToolRequest::Type { .. } => "web_type"@,
        ToolRequest::PressKey { .. } => "web_press_key"@,
        ToolRequest::Screenshot { .. } => "web_screenshot"@,
        ToolRequest::Extract { .. } => "web_extract"@,
        ToolRequest::Wait { .. } => "web_wait"@,
    }
}

/// The intent kind of a request.
pub open spec fn intent_kind(request: ToolRequest) -> Seq<char> {
    match request {
        ToolRequest::Navigate { .. } => "web.navigate"@,
        ToolRequest::Click { .. } => "web.click"@,
        ToolRequest::Type { .. } => "web.type"@,
        ToolRequest::PressKey { .. } => "web.press_key"@,
        ToolRequest::Screenshot { .. } => "web.screenshot"@,
        ToolRequest::Extract { .. } => "web.extract"@,
        ToolRequest::Wait { .. } => "web.wait"@,
    }
}

/// The evidence kind a request's result must carry.
pub open spec fn evidence_kind(request: ToolRequest) -> Seq<char> {
    match request {
        ToolRequest::Navigate { .. } => "page_loaded"@,
        ToolRequest::Click { .. } => "element_clicked"@,
        ToolRequest::Type { .. } => "text_typed"@,
        ToolRequest::PressKey { .. } => "key_pressed"@,
        ToolRequest::Screenshot { .. } => "screenshot"@,
        ToolRequest::Extract { .. } => "text_content"@,
        ToolRequest::Wait { .. } => "wait_completed"@,
    }
}

/// The description of a request's contract.
pub open spec fn contract_description(request: ToolRequest) -> Seq<char> {
    match request {
        ToolRequest::Navigate { .. } => "Page must be loaded"@,
        ToolRequest::Click { .. } => "Click evidence required"@,
        ToolRequest::Type { .. } => "Type evidence required"@,
        ToolRequest::PressKey { .. } => "Key press evidence required"@,
        ToolRequest::Screenshot { .. } => "Screenshot capture evidence required"@,
        ToolRequest::Extract { .. } => "Text extraction evidence required"@,
        ToolRequest::Wait { .. } => "Wait completion evidence required"@,
    }
}

/// The parameters recorded in a request's intent.
pub open spec fn intent_params(request: ToolRequest) -> Map<Seq<char>, JsonValue> {
    match request {
        ToolRequest::Navigate { url } => Map::empty().insert("url"@, JsonValue::Str(url)),
        ToolRequest::Click { selector } => Map::empty().insert("selector"@, JsonValue::Str(selector)),
        ToolRequest::Type { selector, text } => Map::empty().insert("selector"@, JsonValue::Str(selector)).insert(
            "text"@,
            JsonValue::Str(text),
        ),
        _ => Map::empty(),
    }
}

fn kind_and_contract(request: &ToolRequest) -> (r: (&'static str, &'static str, &'static str, &'static str))
    ensures
        r.0@ == tool_name(*request),
        r.1@ == intent_kind(*request),
        r.2@ == evidence_kind(*request),
        r.3@ == contract_description(*request),
{
    match request {
        ToolRequest::Navigate { .. } => ("web_navigate", "web.navigate", "page_loaded", "Page must be loaded"),
        ToolRequest::Click { .. } => ("web_click", "web.click", "element_clicked", "Click evidence required"),
        ToolRequest::Type { .. } => ("web_type", "web.type", "text_typed", "Type evidence required"),
        ToolRequest::PressKey { .. } => ("web_press_key", "web.press_key", "key_pressed", "Key press evidence required"),
        ToolRequest::Screenshot { .. } => (
            "web_screenshot",
            "web.screenshot",
            "screenshot",
            "Screenshot capture evidence required",
        ),
        ToolRequest::Extract { .. } => (
            "web_extract",
            "web.extract",
            "text_content",
            "Text extraction evidence required",
        ),
        ToolRequest::Wait { .. } => ("web_wait", "web.wait", "wait_completed", "Wait completion evidence required"),
    }
}

/// The plan of request number `step`: an intent of the request's kind with
/// its parameters, the call id `<tool>_<step>`, and a contract requiring the
/// request's evidence kind.
pub fn plan_request(request: &ToolRequest, step: u32) -> (r: ToolPlan)
    ensures
        r.intent.wf(),
        r.intent.kind@ == intent_kind(*request),
        r.intent.params@ == intent_params(*request),
        r.intent.description is None,
        r.intent.expected_artifacts@.len() == 0,
        r.tool_call_id@ == tool_name(*request) + "_"@ + decimal(step as nat),
        r.contract.required_kinds.deep_view() == seq![evidence_kind(*request)],
        r.contract.description@ == contract_description(*request),
{
    let (name, kind, evidence, description) = kind_and_contract(request);
    let base = Intent::new(kind);
    let intent = match request {
        ToolRequest::Navigate { url } => base.with_param("url", JsonValue::Str(url.clone())),
        ToolRequest::Click { selector } => base.with_param("selector", JsonValue::Str(selector.clone())),
        ToolRequest::Type { selector, text } => base.with_param("selector", JsonValue::Str(selector.clone())).with_param(
            "text",
            JsonValue::Str(text.clone()),
        ),
        _ => base,
    };
    let tool_call_id = concat3(name, "_", u64_text(step as u64).as_str());
    let kinds = [evidence];
    let contract = required_evidence_contract(&kinds, description);
    assert(Seq::new(kinds@.len(), |i: int| kinds@[i]@) =~= seq![evidence_kind(*request)]);
    ToolPlan { intent, tool_call_id, contract }
}

/// The wait condition a request's text names: a number of milliseconds when
/// it parses as one, a selector otherwise.
pub open spec fn wait_condition_of(condition: String) -> WaitCondition {
    match parse_u64_spec(condition@) {
        Some(ms) => WaitCondition::Duration(ms),
        None => WaitCondition::Selector(condition),
    }
}

/// The web action a request asks of the backend.
pub fn request_action(request: &ToolRequest) -> (a: WebAction)
    ensures
        match *request {
            ToolRequest::Navigate { url } => a == WebAction::Navigate { url },
            ToolRequest::Click { selector } => a == WebAction::Click { selector },
            ToolRequest::Type { selector, text } => a == WebAction::Type { selector, text },
            ToolRequest::PressKey { key } => a == WebAction::PressKey { key },
            ToolRequest::Screenshot { output_path } => a == WebAction::Screenshot { output_path },
            ToolRequest::Extract { selector } => a == WebAction::Extract { selector },
            ToolRequest::Wait { condition } => a == WebAction::Wait { condition: wait_condition_of(condition) },
        },
{
    match request {
        ToolRequest::Navigate { url } => WebAction::Navigate { url: url.clone() },
        ToolRequest::Click { selector } => WebAction::Click { selector: selector.clone() },
        ToolRequest::Type { selector, text } => WebAction::Type { selector: selector.clone(), text: text.clone() },
        ToolRequest::PressKey { key } => WebAction::PressKey { key: key.clone() },
        ToolRequest::Screenshot { output_path } => WebAction::Screenshot { output_path: output_path.clone() },
        ToolRequest::Extract { selector } => WebAction::Extract { selector: selector.clone() },
        ToolRequest::Wait { condition } => {
            let parsed = match parse_u64(condition.as_str()) {
                Some(ms) => WaitCondition::Duration(ms),
                None => WaitCondition::Selector(condition.clone()),
            };
            WebAction::Wait { condition: parsed }
        },
    }
}

/// The prefix of the message when the backend fails a request.
pub open spec fn failure_prefix(request: ToolRequest) -> Seq<char> {
    match request {
        ToolRequest::Navigate { .. } => "Navigation failed: "@,
        ToolRequest::Click { .. } => "Click failed: "@,
        ToolRequest::Type { .. } => "Type failed: "@,
        ToolRequest::PressKey { .. } => "Key press failed: "@,
        ToolRequest::Screenshot { .. } => "Screenshot failed: "@,
        ToolRequest::Extract { .. } => "Extract failed: "@,
        ToolRequest::Wait { .. } => "Wait failed: "@,
    }
}

/// Whether `x` is an attempt's output with content `content` and exactly one
/// piece of evidence, of kind `kind`, whose payload satisfies `data`.
pub open spec fn produced(x: ToolExecution, content: Seq<char>, kind: Seq<char>, data: spec_fn(JsonValue) -> bool) -> bool {
    &&& x.content@ == content
    &&& x.evidence@.len() == 1
    &&& x.evidence@[0].kind@ == kind
    &&& data(x.evidence@[0].data)
}

/// Whether a backend report can be turned into an attempt's output: an
/// extracted text must be cut between characters at the display limit.
pub open spec fn reportable(request: ToolRequest, report: Result<WebEvidence, WebError>) -> bool {
    match (request, report) {
        (ToolRequest::Extract { .. }, Ok(ev)) => clippable(text_or_empty(ev.text_content)),
        _ => true,
    }
}

/// What one attempt of `request` produces from the backend's `report`: on
/// an error, the request's failure prefix and the error's message; on
/// success, the action's output and one piece of evidence of the kind the
/// request's contract requires.
pub open spec fn attempt_produced(request: ToolRequest, report: Result<WebEvidence, WebError>, r: Result<ToolExecution, String>) -> bool {
    match report {
        Err(e) => r matches Err(m) && m@ == failure_prefix(request) + web_error_text(e),
        Ok(ev) => match request {
            ToolRequest::Navigate { url } => r matches Ok(x) && produced(
                x,
                "Navigated to "@ + text_or_default(ev.url, url@) + ". Title: "@ + text_or_default(ev.text_content, "(none)"@),
                "page_loaded"@,
                |d: JsonValue| is_object2(d, "url"@, equal_to(JsonValue::spec_opt_str(ev.url)), "title"@, equal_to(JsonValue::spec_opt_str(ev.text_content))),
            ),
            ToolRequest::Click { selector } => r matches Ok(x) && produced(
                x,
                "Clicked element: "@ + selector@,
                "element_clicked"@,
                |d: JsonValue| is_object2(d, "selector"@, text_value(selector@), "url"@, equal_to(JsonValue::spec_opt_str(ev.url))),
            ),
            ToolRequest::Type { selector, text } => r matches Ok(x) && produced(
                x,
                "Typed '"@ + text@ + "' into "@ + selector@,
                "text_typed"@,
                |d: JsonValue| is_object2(d, "selector"@, text_value(selector@), "text"@, text_value(text@)),
            ),
            ToolRequest::PressKey { key } => r matches Ok(x) && produced(
                x,
                "Pressed key: "@ + key@,
                "key_pressed"@,
                |d: JsonValue| is_object1(d, "key"@, text_value(key@)),
            ),
            ToolRequest::Screenshot { .. } => match ev.screenshot {
                Some(path) => r matches Ok(x) && produced(
                    x,
                    "Screenshot saved to: "@ + path@,
                    "screenshot"@,
                    |d: JsonValue| is_object2(d, "path"@, text_value(path@), "url"@, equal_to(JsonValue::spec_opt_str(ev.url))),
                ),
                None => r matches Err(m) && m@ == "Screenshot failed: no file path returned"@,
            },
            ToolRequest::Extract { .. } => r matches Ok(x) && clipped(
                text_or_empty(ev.text_content),
                "... [truncated, "@,
                " chars total]"@,
                x.content@,
            ) && x.evidence@.len() == 1 && x.evidence@[0].kind@ == "text_content"@ && is_object2(
                x.evidence@[0].data,
                "length"@,
                equal_to(byte_len_value(text_or_empty(ev.text_content))),
                "url"@,
                equal_to(JsonValue::spec_opt_str(ev.url)),
            ),
            ToolRequest::Wait { condition } => r matches Ok(x) && produced(
                x,
                "Wait completed for: "@ + condition@,
                "wait_completed"@,
                |d: JsonValue| is_object1(d, "condition"@, text_value(condition@)),
            ),
        },
    }
}

/// What one attempt of a request produced, from what the backend reported:
/// the output and evidence when the action succeeded, the error text when it
/// failed.
pub fn attempt_result(request: &ToolRequest, report: Result<WebEvidence, WebError>) -> (r: Result<ToolExecution, String>)
    requires
        reportable(*request, report),
    ensures
        attempt_produced(*request, report, r),
{
    let evidence = match report {
        Err(e) => {
            let prefix = match request {
                ToolRequest::Navigate { .. } => "Navigation failed: ",
                ToolRequest::Click { .. } => "Click failed: ",
                ToolRequest::Type { .. } => "Type failed: ",
                ToolRequest::PressKey { .. } => "Key press failed: ",
                ToolRequest::Screenshot { .. } => "Screenshot failed: ",
                ToolRequest::Extract { .. } => "Extract failed: ",
                ToolRequest::Wait { .. } => "Wait failed: ",
            };
            return Err(concat(prefix, e.message().as_str()));
        },
        Ok(evidence) => evidence,
    };
    match request {
        ToolRequest::Navigate { url } => {
            let mut content = concat("Navigated to ", text_or(&evidence.url, url.as_str()).as_str());
            content.append(". Title: ");
            content.append(text_or(&evidence.text_content, "(none)").as_str());
            let data = object2(
                "url",
                JsonValue::opt_str(evidence.url),
                "title",
                JsonValue::opt_str(evidence.text_content),
            );
            let mut items: Vec<Evidence> = Vec::new();
            items.push(Evidence::new("page_loaded", data));
            Ok(ToolExecution { content, evidence: items })
        },
        ToolRequest::Click { selector } => {
            let data = object2("selector", text(selector.as_str()), "url", JsonValue::opt_str(evidence.url));
            let mut items: Vec<Evidence> = Vec::new();
            items.push(Evidence::new("element_clicked", data));
            Ok(ToolExecution { content: concat("Clicked element: ", selector.as_str()), evidence: items })
        },
        ToolRequest::Type { selector, text: typed } => {
            let data = object2("selector", text(selector.as_str()), "text", text(typed.as_str()));
            let mut items: Vec<Evidence> = Vec::new();
            items.push(Evidence::new("text_typed", data));
            Ok(ToolExecution { content: concat4("Typed '", typed.as_str(), "' into ", selector.as_str()), evidence: items })
        },
        ToolRequest::PressKey { key } => {
            let data = object1("key", text(key.as_str()));
            let mut items: Vec<Evidence> = Vec::new();
            items.push(Evidence::new("key_pressed", data));
            Ok(ToolExecution { content: concat("Pressed key: ", key.as_str()), evidence: items })
        },
        ToolRequest::Screenshot { .. } => {
            let path = match evidence.screenshot {
                Some(p) => p,
                None => {
                    return Err(String::from_str("Screenshot failed: no file path returned"));
                },
            };
            let data = object2("path", text(path.as_str()), "url", JsonValue::opt_str(evidence.url));
            let mut items: Vec<Evidence> = Vec::new();
            items.push(Evidence::new("screenshot", data));
            Ok(ToolExecution { content: concat("Screenshot saved to: ", path.as_str()), evidence: items })
        },
        ToolRequest::Extract { .. } => {
            let extracted = match evidence.text_content {
                Some(t) => t,
                None => String::new(),
            };
            let content = clip_text(extracted.as_str(), "... [truncated, ", " chars total]");
            let data = object2(
                "length",
                JsonValue::UInt(extracted.as_str().len() as u64),
                "url",
                JsonValue::opt_str(evidence.url),
            );
            let mut items: Vec<Evidence> = Vec::new();
            items.push(Evidence::new("text_content", data));
            Ok(ToolExecution { content, evidence: items })
        },
        ToolRequest::Wait { condition } => {
            let data = object1("condition", text(condition.as_str()));
            let mut items: Vec<Evidence> = Vec::new();
            items.push(Evidence::new("wait_completed", data));
            Ok(ToolExecution { content: concat("Wait completed for: ", condition.as_str()), evidence: items })
        },
    }
}

/// The reply to a request whose run ended with output `result` in `state`:
/// the raw output for a key press, the rendered result otherwise.
pub fn request_reply(request: &ToolRequest, result: String, state: AgentState) -> (r: String)
    ensures
        match *request {
            ToolRequest::PressKey { .. } => r == result,
            _ => r@ == finalized(result@, state@),
        },
{
    match request {
        ToolRequest::PressKey { .. } => result,
        _ => finalize_execution_result(result, state),
    }
}

/// The reply when the browser could not be started.
pub fn launch_failure_reply(error: &str) -> (r: String)
    ensures
        r@ == "Error: Browser launch failed: "@ + error@,
{
    concat("Error: Browser launch failed: ", error)
}

} // verus!

verus! {

/// A successful action meets its own plan: whenever the backend reports
/// success and the attempt produces an output, that output carries evidence
/// of exactly the kind that `plan_request`'s contract requires, so the
/// contract never finds it missing; the contract passes exactly when that
/// evidence is well formed, which for every request but a screenshot or an
/// extraction it always is.
pub proof fn lemma_success_meets_plan(request: ToolRequest, ev: WebEvidence, x: ToolExecution)
    requires
        attempt_produced(request, Ok(ev), Ok(x)),
    ensures
        kind_present(x.evidence@, evidence_kind(request)),
        missing_kinds(seq![evidence_kind(request)], x.evidence@).len() == 0,
        required_verdict(seq![evidence_kind(request)], x.evidence@) is Passed <==> item_problem(
            evidence_kind(request),
            x.evidence@[0].data,
        ) is None,
        !(request is Screenshot) && !(request is Extract) ==> required_verdict(
            seq![evidence_kind(request)],
            x.evidence@,
        ) is Passed,
{
    let k = evidence_kind(request);
    let ev_seq = x.evidence@;
    assert(ev_seq[0].kind@ == k);
    assert(kind_present(ev_seq, k));
    lemma_missing_kinds(seq![k], ev_seq);
    lemma_required_verdict(seq![k], ev_seq);
    assert(seq![k][0] == k);
    reveal_strlit("screenshot");
    reveal_strlit("text_content");
    reveal_strlit("page_loaded");
    reveal_strlit("element_clicked");
    reveal_strlit("text_typed");
    reveal_strlit("key_pressed");
    reveal_strlit("wait_completed");
    if !(request is Screenshot) && !(request is Extract) {
        assert(k.len() != 10 || k[0] != 's');
        assert(k != "screenshot"@);
        assert(k.len() != 12 || k[0] != 't' || k[1] != 'e' || k[2] != 'x' || k[4] != '_');
        assert(k != "text_content"@);
        assert(item_problem(k, ev_seq[0].data) is None);
        assert(has_valid_item(ev_seq, k));
    }
    if item_problem(k, ev_seq[0].data) is None {
        assert(has_valid_item(ev_seq, k));
    } else {
        assert forall|i: int| 0 <= i < ev_seq.len() && #[trigger] ev_seq[i].kind@ == k implies item_problem(
            k,
            ev_seq[i].data,
        ) is Some by {
            assert(i == 0);
        }
    }
}

} // verus!
