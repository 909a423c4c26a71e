use vstd::prelude::*;

verus! {

/// An argument a prompt takes.
#[derive(Clone, Debug)]
pub struct PromptArgument {
    pub description: String,
    pub name: String,
    pub required: bool,
    pub title: String,
}

/// A prompt, as offered to clients.
#[derive(Clone, Debug)]
pub struct Prompt {
    pub arguments: Vec<PromptArgument>,
    pub description: String,
    pub name: String,
    pub title: String,
}

} // verus!
