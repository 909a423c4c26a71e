use vstd::prelude::*;

use crate::mcp::jsonrpc::meta::Meta;
use crate::mcp::resource_content::ResourceContent;

verus! {

#[derive(Debug)]
pub struct ResourcesRead {
    pub contents: Vec<ResourceContent>,
    pub meta: Option<Meta>,
}

} // verus!
