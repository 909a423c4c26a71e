//! A tool's definition kept together with what answers its calls.

use vstd::prelude::*;

use crate::mcp::tool::Tool;

verus! {

/// A tool: its definition, and the responder that answers its calls.
pub struct ToolHandlerService<R> {
    pub responder: R,
    pub tool: Tool,
}

impl<R> ToolHandlerService<R> {
    /// A copy of the tool's definition.
    pub fn tool_definition(&self) -> (t: Tool)
        ensures
            t.name@ == self.tool.name@,
    {
        Tool { name: self.tool.name.clone() }
    }
}

} // verus!
