//! The tool framework: tool calls, tool results with their evidence, the
//! tool interface, and a registry that finds the tool a call is for.

use vstd::prelude::*;
use vstd::string::*;
use crate::artifact::Evidence;
use crate::intent::ParamMap;
use crate::json::JsonValue;
use crate::text::concat;

verus! {

/// A call to a specific tool with parameters.
pub struct ToolCall {
    /// Unique ID for this call.
    pub id: String,
    /// Tool name (e.g., "web_navigate", "web_click").
    pub name: String,
    /// Parameters for the tool.
    pub params: ParamMap,
}

/// Result from a tool execution.
#[derive(Debug)]
pub struct ToolResult {
    /// The tool call this result is for.
    pub call_id: String,
    /// Whether the tool reports success.
    pub success: bool,
    /// Human-readable output/content.
    pub content: String,
    /// Evidence collected during execution (for artifact verification).
    pub evidence: Vec<Evidence>,
    /// Whether this result is an error.
    pub is_error: bool,
}

impl ToolResult {
    /// A successful result with no evidence yet.
    pub fn success(call_id: &str, content: &str) -> (r: ToolResult)
        ensures
            r.call_id@ == call_id@,
            r.success,
            r.content@ == content@,
            r.evidence@.len() == 0,
            !r.is_error,
    {
        ToolResult {
            call_id: String::from_str(call_id),
            success: true,
            content: String::from_str(content),
            evidence: Vec::new(),
            is_error: false,
        }
    }

    /// A failed result.
    pub fn error(call_id: &str, content: &str) -> (r: ToolResult)
        ensures
            r.call_id@ == call_id@,
            !r.success,
            r.content@ == content@,
            r.evidence@.len() == 0,
            r.is_error,
    {
        ToolResult {
            call_id: String::from_str(call_id),
            success: false,
            content: String::from_str(content),
            evidence: Vec::new(),
            is_error: true,
        }
    }

    /// This result with `evidence` appended.
    pub fn with_evidence(self, evidence: Evidence) -> (r: ToolResult)
        ensures
            r.call_id == self.call_id,
            r.success == self.success,
            r.content == self.content,
            r.evidence@ == self.evidence@.push(evidence),
            r.is_error == self.is_error,
    {
        let mut s = self;
        s.evidence.push(evidence);
        s
    }
}

/// What a tool exposes to the agent: its name, a description, and the JSON
/// schema of its parameters.
pub trait Tool {
    /// The tool's name.
    spec fn spec_name(&self) -> Seq<char>;

    /// Tool name as exposed to the agent.
    fn name(&self) -> (n: &str)
        ensures
            n@ == self.spec_name();

    /// The tool's description.
    spec fn spec_description(&self) -> Seq<char>;

    /// Human-readable description of what this tool does.
    fn description(&self) -> (d: &str)
        ensures
            d@ == self.spec_description();

    /// Whether `schema` is the JSON schema of the tool's parameters.
    spec fn describes_parameters(&self, schema: JsonValue) -> bool;

    /// JSON Schema for the tool's parameters.
    fn parameters_schema(&self) -> (s: JsonValue)
        ensures
            self.describes_parameters(s);
}

/// Schema representation of a tool (for MCP listing).
#[derive(Debug)]
pub struct ToolSchema {
    pub name: String,
    pub description: String,
    pub parameters: JsonValue,
}

/// Registry of available tools: at most one tool per name.
pub struct ToolRegistry<T> {
    tools: Vec<T>,
}

/// Whether no two tools share a name.
pub open spec fn distinct_tools<T: Tool>(tools: Seq<T>) -> bool {
    forall|i: int, j: int|
        0 <= i < tools.len() && 0 <= j < tools.len() && i != j ==> #[trigger] tools[i].spec_name()
            != #[trigger] tools[j].spec_name()
}

/// The tool named `name` among `tools`.
pub open spec fn named_in<T: Tool>(tools: Seq<T>, name: Seq<char>) -> Option<T> {
    if exists|i: int| 0 <= i < tools.len() && #[trigger] tools[i].spec_name() == name {
        Some(tools[choose|i: int| 0 <= i < tools.len() && #[trigger] tools[i].spec_name() == name])
    } else {
        None
    }
}

proof fn lemma_named_at<T: Tool>(tools: Seq<T>, i: int, name: Seq<char>)
    requires
        distinct_tools(tools),
        0 <= i < tools.len(),
        tools[i].spec_name() == name,
    ensures
        named_in(tools, name) == Some(tools[i]),
{
    let k = choose|k: int| 0 <= k < tools.len() && #[trigger] tools[k].spec_name() == name;
    assert(tools[k].spec_name() == name);
    assert(k == i);
}

proof fn lemma_named_same<T: Tool>(a: Seq<T>, b: Seq<T>, name: Seq<char>)
    requires
        distinct_tools(a),
        distinct_tools(b),
        forall|k: int| 0 <= k < a.len() && #[trigger] a[k].spec_name() == name ==> k < b.len() && b[k] == a[k],
        forall|k: int| 0 <= k < b.len() && #[trigger] b[k].spec_name() == name ==> k < a.len() && a[k] == b[k],
    ensures
        named_in(a, name) == named_in(b, name),
{
    if exists|i: int| 0 <= i < a.len() && #[trigger] a[i].spec_name() == name {
        let k = choose|i: int| 0 <= i < a.len() && #[trigger] a[i].spec_name() == name;
        lemma_named_at(a, k, name);
        assert(b[k].spec_name() == name);
        lemma_named_at(b, k, name);
    } else if exists|i: int| 0 <= i < b.len() && #[trigger] b[i].spec_name() == name {
        let k = choose|i: int| 0 <= i < b.len() && #[trigger] b[i].spec_name() == name;
        assert(a[k].spec_name() == name);
    }
}

impl<T: Tool> ToolRegistry<T> {
    /// The registered tools, in order of registration.
    pub closed spec fn spec_tools(&self) -> Seq<T> {
        self.tools@
    }

    /// The registry's invariant: no name occurs twice.
    pub open spec fn wf(&self) -> bool {
        distinct_tools(self.spec_tools())
    }

    /// The tool registered under `name`.
    pub open spec fn tool_named(&self, name: Seq<char>) -> Option<T> {
        named_in(self.spec_tools(), name)
    }

    /// An empty registry.
    pub fn new() -> (r: ToolRegistry<T>)
        ensures
            r.wf(),
            r.spec_tools().len() == 0,
    {
        ToolRegistry { tools: Vec::new() }
    }

    /// Register a tool. Replaces any existing tool with the same name.
    pub fn register(&mut self, tool: T)
        requires
            old(self).wf(),
        ensures
            final(self).wf(),
            final(self).tool_named(tool.spec_name()) == Some(tool),
            forall|n: Seq<char>| n != tool.spec_name() ==> #[trigger] final(self).tool_named(n) == old(self).tool_named(n),
    {
        let ghost name = tool.spec_name();
        let ghost before = self.tools@;
        let wanted = String::from_str(tool.name());
        let mut i: usize = 0;
        while i < self.tools.len()
            invariant
                self.tools@ == before,
                old(self).tools@ == before,
                distinct_tools(before),
                wanted@ == name,
                tool.spec_name() == name,
                i <= before.len(),
                forall|j: int| 0 <= j < i ==> #[trigger] before[j].spec_name() != name,
            decreases before.len() - i,
        {
            let existing = String::from_str(self.tools[i].name());
            if existing == wanted {
                self.tools.set(i, tool);
                proof {
                    let after = self.tools@;
                    assert(after[i as int].spec_name() == name);
                    assert(distinct_tools(after)) by {
                        assert forall|p: int, q: int| 0 <= p < after.len() && 0 <= q < after.len() && p != q implies
                            #[trigger] after[p].spec_name() != #[trigger] after[q].spec_name() by {
                            if p != i as int && q != i as int {
                                assert(before[p].spec_name() != before[q].spec_name());
                            } else if p == i as int {
                                assert(before[q].spec_name() != before[i as int].spec_name());
                            } else {
                                assert(before[p].spec_name() != before[i as int].spec_name());
                            }
                        }
                    }
                    lemma_named_at(after, i as int, name);
                    assert forall|n: Seq<char>| n != name implies #[trigger] named_in(after, n) == named_in(before, n) by {
                        lemma_named_same(after, before, n);
                    }
                }
                return;
            }
            i += 1;
        }
        self.tools.push(tool);
        proof {
            let after = self.tools@;
            assert(after[before.len() as int].spec_name() == name);
            assert(distinct_tools(after)) by {
                assert forall|p: int, q: int| 0 <= p < after.len() && 0 <= q < after.len() && p != q implies
                    #[trigger] after[p].spec_name() != #[trigger] after[q].spec_name() by {
                    if p < before.len() && q < before.len() {
                        assert(before[p].spec_name() != before[q].spec_name());
                    } else if p < before.len() {
                        assert(before[p].spec_name() != name);
                    } else {
                        assert(before[q].spec_name() != name);
                    }
                }
            }
            lemma_named_at(after, before.len() as int, name);
            assert forall|n: Seq<char>| n != name implies #[trigger] named_in(after, n) == named_in(before, n) by {
                lemma_named_same(after, before, n);
            }
        }
    }

    /// Get a tool by name.
    pub fn get(&self, name: &str) -> (r: Option<&T>)
        requires
            self.wf(),
        ensures
            match r {
                Some(t) => self.tool_named(name@) == Some(*t),
                None => self.tool_named(name@) is None,
            },
    {
        let wanted = String::from_str(name);
        let mut i: usize = 0;
        while i < self.tools.len()
            invariant
                i <= self.tools@.len(),
                wanted@ == name@,
                distinct_tools(self.tools@),
                forall|j: int| 0 <= j < i ==> #[trigger] self.tools@[j].spec_name() != name@,
            decreases self.tools@.len() - i,
        {
            let existing = String::from_str(self.tools[i].name());
            if existing == wanted {
                proof {
                    lemma_named_at(self.tools@, i as int, name@);
                }
                return Some(&self.tools[i]);
            }
            i += 1;
        }
        None
    }

    /// List all registered tool names, in order of registration.
    pub fn list(&self) -> (r: Vec<String>)
        ensures
            r.deep_view() == Seq::new(self.spec_tools().len(), |i: int| self.spec_tools()[i].spec_name()),
    {
        let mut names: Vec<String> = Vec::new();
        let mut i: usize = 0;
        while i < self.tools.len()
            invariant
                i <= self.tools@.len(),
                names@.len() == i,
                forall|j: int| 0 <= j < i ==> #[trigger] names@[j]@ == self.tools@[j].spec_name(),
            decreases self.tools@.len() - i,
        {
            names.push(String::from_str(self.tools[i].name()));
            i += 1;
        }
        assert(names.deep_view() =~= Seq::new(self.spec_tools().len(), |i: int| self.spec_tools()[i].spec_name()));
        names
    }

    /// The tool a call is addressed to, or the error result answering a call
    /// to an unknown tool.
    pub fn dispatch_target(&self, call: &ToolCall) -> (r: Result<&T, ToolResult>)
        requires
            self.wf(),
        ensures
            match r {
                Ok(t) => self.tool_named(call.name@) == Some(*t),
                Err(res) => self.tool_named(call.name@) is None && res.call_id@ == call.id@ && !res.success
                    && res.is_error && res.evidence@.len() == 0 && res.content@ == "Unknown tool: "@ + call.name@,
            },
    {
        match self.get(call.name.as_str()) {
            Some(t) => Ok(t),
            None => Err(ToolResult::error(call.id.as_str(), concat("Unknown tool: ", call.name.as_str()).as_str())),
        }
    }

    /// Get tool schemas for all registered tools (for MCP tool listing).
    pub fn schemas(&self) -> (r: Vec<ToolSchema>)
        ensures
            r@.len() == self.spec_tools().len(),
            forall|i: int|
                0 <= i < r@.len() ==> {
                    &&& #[trigger] r@[i].name@ == self.spec_tools()[i].spec_name()
                    &&& r@[i].description@ == self.spec_tools()[i].spec_description()
                    &&& self.spec_tools()[i].describes_parameters(r@[i].parameters)
                },
    {
        let mut out: Vec<ToolSchema> = Vec::new();
        let mut i: usize = 0;
        while i < self.tools.len()
            invariant
                i <= self.tools@.len(),
                out@.len() == i,
                forall|j: int|
                    0 <= j < i ==> {
                        &&& #[trigger] out@[j].name@ == self.tools@[j].spec_name()
                        &&& out@[j].description@ == self.tools@[j].spec_description()
                        &&& self.tools@[j].describes_parameters(out@[j].parameters)
                    },
            decreases self.tools@.len() - i,
        {
            let t = &self.tools[i];
            out.push(ToolSchema {
                name: String::from_str(t.name()),
                description: String::from_str(t.description()),
                parameters: t.parameters_schema(),
            });
            i += 1;
        }
        out
    }
}

} // verus!
