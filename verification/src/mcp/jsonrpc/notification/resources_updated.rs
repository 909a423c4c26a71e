use vstd::prelude::*;

verus! {

/// Which resource changed.
#[derive(Clone, Debug)]
pub struct ResourcesUpdatedParams {
    pub uri: String,
}

/// Tells a client that a resource it subscribed to changed.
#[derive(Clone, Debug)]
pub struct ResourcesUpdated {
    pub jsonrpc: String,
    pub params: ResourcesUpdatedParams,
}

} // verus!
