use vstd::prelude::*;

verus! {

/// The text of a resource.
#[derive(Clone, Debug)]
pub struct TextResourceContent {
    pub mime_type: String,
    pub text: String,
    pub uri: String,
}

/// One part of a resource's contents.
#[derive(Clone, Debug)]
pub enum ResourceContent {
    Text(TextResourceContent),
}

} // verus!
