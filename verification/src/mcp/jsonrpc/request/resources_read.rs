use vstd::prelude::*;

use crate::mcp::jsonrpc::id::Id;
use crate::mcp::jsonrpc::meta::Meta;

verus! {

#[derive(Debug)]
pub struct ResourcesReadParams {
    pub meta: Option<Meta>,
    pub uri: String,
}

/// A request to read one resource.
#[derive(Debug)]
pub struct ResourcesRead {
    pub id: Id,
    pub jsonrpc: String,
    pub params: ResourcesReadParams,
}

} // verus!
