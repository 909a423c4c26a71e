//! Answering `prompts/list`.

use vstd::prelude::*;

use crate::mcp::jsonrpc::id::Id;
use crate::mcp::jsonrpc::response::error::Error;
use crate::mcp::list_resources_cursor::ListResourcesCursor;
use crate::mcp::name_index::page_of;
use crate::mcp::prompt::Prompt;
use crate::mcp::prompt_controller::PromptController;
use crate::mcp::prompt_controller_collection::PromptControllerCollection;
use crate::mcp::handler::resources_list_handler::cursor_or_default;

verus! {

/// The text of the error for a request that comes before the prompts are
/// loaded.
pub fn not_ready_message() -> (s: String)
    ensures
        s@ == "Prompt controller collection is not ready. The server is not ready yet or is still starting."@,
{
    String::from_str(
        "Prompt controller collection is not ready. The server is not ready yet or is still starting.",
    )
}

/// Answers `prompts/list` from the prompts, once they are loaded.
pub struct PromptsListHandler<C> {
    pub prompt_controller_collection: Option<PromptControllerCollection<C>>,
}

impl<C: PromptController> PromptsListHandler<C> {
    /// The prompts on the page that `cursor` (or the default one) names;
    /// before the prompts are loaded, an internal error for request `id`.
    pub fn handle(&self, id: Id, cursor: Option<ListResourcesCursor>) -> (r: Result<
        Vec<Prompt>,
        Error,
    >)
        ensures
            r is Ok <==> self.prompt_controller_collection is Some,
            r matches Err(e) ==> (e matches Error::RequestInternal { id: i, message } && i == id
                && message@
                == "Prompt controller collection is not ready. The server is not ready yet or is still starting."@),
            r matches Ok(prompts) ==> self.prompt_controller_collection matches Some(collection)
                && ({
                let page = page_of(
                    collection.0.view(),
                    cursor_or_default(cursor).offset as int,
                    cursor_or_default(cursor).per_page as int,
                );
                &&& prompts@.len() == page.len()
                &&& forall|i: int|
                    0 <= i < prompts@.len() ==> call_ensures(
                        C::get_mcp_prompt,
                        (&page[i],),
                        #[trigger] prompts@[i],
                    )
            }),
    {
        match &self.prompt_controller_collection {
            Some(collection) => {
                let c = match cursor {
                    Some(c) => c,
                    None => ListResourcesCursor::default(),
                };
                Ok(collection.list_mcp_prompts(c))
            },
            None => Err(Error::request_internal(id, not_ready_message())),
        }
    }
}

} // verus!
