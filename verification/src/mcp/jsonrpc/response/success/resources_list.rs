use vstd::prelude::*;

use crate::mcp::list_resources_cursor::ListResourcesCursor;
use crate::mcp::resource::Resource;

verus! {

/// A page of resources, with the cursor of the next page if there is one.
#[derive(Debug)]
pub struct ResourcesList {
    pub next_cursor: Option<ListResourcesCursor>,
    pub resources: Vec<Resource>,
}

} // verus!
