use vstd::prelude::*;

use crate::mcp::tool::Tool;

verus! {

#[derive(Debug)]
pub struct ToolsList {
    pub tools: Vec<Tool>,
}

} // verus!
