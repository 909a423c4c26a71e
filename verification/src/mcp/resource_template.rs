use vstd::prelude::*;

verus! {

/// A family of resources that share a uri pattern.
#[derive(Clone, Debug)]
pub struct ResourceTemplate {
    pub description: String,
    pub mime_type: String,
    pub name: String,
    pub title: String,
    pub uri_template: String,
}

} // verus!
