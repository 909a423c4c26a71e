use vstd::prelude::*;

use crate::mcp::jsonrpc::id::Id;

verus! {

/// Metadata that may travel with a request.
#[derive(Debug)]
pub struct Meta {
    pub progress_token: Option<Id>,
}

} // verus!
