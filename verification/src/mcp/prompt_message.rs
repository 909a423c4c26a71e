//! One message of a rendered prompt.

use vstd::prelude::*;

use crate::mcp::content_block::text_content::TextContent;
use crate::mcp::jsonrpc::role::Role;

verus! {

/// One message of a prompt: what was said, and by whom.
#[derive(Clone, Debug)]
pub struct PromptMessage {
    pub content: TextContent,
    pub role: Role,
}

impl PromptMessage {
    /// The speaker and the text of the message.
    pub open spec fn view_pair(self) -> (Role, Seq<char>) {
        (self.role, self.content.text@)
    }
}

} // verus!
