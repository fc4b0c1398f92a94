//! The tool execution contract: the metadata every capability publishes, the
//! result record through which every outcome — success or failure — is
//! reported, and the call record parsed from a model response.

use vstd::prelude::*;

verus! {

/// The exclusive vehicle for reporting a tool outcome. No tool invocation
/// may abort the process: every error becomes `error: Some(..)` here.
#[derive(Debug, Clone)]
pub struct ToolResult {
    pub success: bool,
    pub output: String,
    pub error: Option<String>,
}

impl ToolResult {
    /// A successful outcome carrying the tool's output text.
    pub fn succeeded(output: String) -> (r: ToolResult)
        ensures
            r.success,
            r.output == output,
            r.error is None,
    {
        ToolResult { success: true, output, error: None }
    }

    /// A failed outcome carrying an explanatory reason and no output.
    pub fn failed(message: String) -> (r: ToolResult)
        ensures
            !r.success,
            r.output@ == Seq::<char>::empty(),
            r.error == Some(message),
    {
        ToolResult { success: false, output: String::new(), error: Some(message) }
    }
}

/// A `ToolResult` that failed with exactly the given reason.
pub open spec fn spec_failed_with(r: ToolResult, msg: Seq<char>) -> bool {
    &&& !r.success
    &&& r.output@ == Seq::<char>::empty()
    &&& r.error matches Some(m) && m@ == msg
}

/// One tool invocation requested by the model within a turn: the id
/// correlates the eventual result with the request.
#[derive(Debug, Clone)]
pub struct ToolCall {
    pub id: String,
    pub tool_name: String,
    pub arguments: String,
}

/// The published surface of one registered tool, as assembled into the
/// system prompt.
#[derive(Debug, Clone)]
pub struct ToolInfo {
    pub name: String,
    pub description: String,
    pub parameters_schema: String,
}

/// The uniform capability contract: a stable routing name, usage guidance
/// for the model, and a machine-checkable argument schema. Performing the
/// action itself involves I/O and runs in the embedding, which screens every
/// invocation through each tool's own checked pipeline first.
pub trait Tool {
    /// The routing name this tool answers to.
    spec fn spec_name(&self) -> Seq<char>;

    /// The usage guidance this tool publishes.
    spec fn spec_description(&self) -> Seq<char>;

    /// The JSON text of this tool's parameter schema.
    spec fn spec_schema(&self) -> Seq<char>;

    fn name(&self) -> (r: String)
        ensures
            r@ == self.spec_name(),
    ;

    fn description(&self) -> (r: String)
        ensures
            r@ == self.spec_description(),
    ;

    fn parameters_schema_text(&self) -> (r: String)
        ensures
            r@ == self.spec_schema(),
    ;
}

} // verus!
