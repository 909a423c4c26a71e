//! What answers for one prompt.

use vstd::prelude::*;

use crate::mcp::prompt::Prompt;

verus! {

/// Something that offers one prompt to clients.
pub trait PromptController {
    /// The prompt this controller offers.
    fn get_mcp_prompt(&self) -> Prompt;
}

} // verus!
