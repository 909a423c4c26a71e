use vstd::prelude::*;

use crate::mcp::jsonrpc::id::Id;
use crate::mcp::jsonrpc::meta::Meta;
use crate::mcp::list_resources_cursor::ListResourcesCursor;

verus! {

#[derive(Debug)]
pub struct ToolsListParams {
    pub cursor: Option<ListResourcesCursor>,
    pub meta: Option<Meta>,
}

/// A request for a page of tool definitions.
#[derive(Debug)]
pub struct ToolsList {
    pub id: Id,
    pub jsonrpc: String,
    pub params: ToolsListParams,
}

} // verus!
