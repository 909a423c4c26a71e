use vstd::prelude::*;

use crate::mcp::jsonrpc::meta::Meta;
use crate::mcp::prompt_message::PromptMessage;

verus! {

/// The messages of a rendered prompt.
#[derive(Debug)]
pub struct PromptsGetResult {
    pub description: Option<String>,
    pub messages: Vec<PromptMessage>,
    pub meta: Option<Meta>,
}

} // verus!
