use vstd::prelude::*;

use crate::mcp::resource_content::ResourceContent;

verus! {

/// The contents of a resource, with its title and uri.
pub struct ResourceContentParts {
    pub parts: Vec<ResourceContent>,
    pub title: String,
    pub uri: String,
}

} // verus!
