use vstd::prelude::*;

verus! {

/// The definition of a tool, as offered to clients.
#[derive(Clone, Debug)]
pub struct Tool {
    pub name: String,
}

} // verus!
