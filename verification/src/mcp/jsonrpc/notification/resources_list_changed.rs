use vstd::prelude::*;

verus! {

/// Tells a client that the list of resources changed.
#[derive(Clone, Debug)]
pub struct ResourcesListChanged {
    pub jsonrpc: String,
}

} // verus!
