use vstd::prelude::*;

verus! {

/// A resource a client may read.
#[derive(Clone, Debug)]
pub struct Resource {
    pub description: String,
    pub name: String,
    pub title: String,
    pub uri: String,
}

} // verus!
