//! Answering `prompts/get`: which prompt controller responds.

use vstd::prelude::*;

use crate::mcp::handler::prompts_list_handler::not_ready_message;
use crate::mcp::jsonrpc::id::Id;
use crate::mcp::jsonrpc::response::error::Error;
use crate::mcp::prompt_controller_collection::PromptControllerCollection;

verus! {

/// Answers `prompts/get` from the prompts, once they are loaded.
pub struct PromptsGetHandler<C> {
    pub prompt_controller_collection: Option<PromptControllerCollection<C>>,
}

impl<C> PromptsGetHandler<C> {
    /// The controller of the prompt named `name`, which responds to the
    /// request `id`; an internal error before the prompts are loaded, and an
    /// invalid prompt name where no prompt has that name.
    pub fn handle(&self, id: Id, name: String) -> (r: Result<&C, Error>)
        ensures
            match self.prompt_controller_collection {
                None => r matches Err(Error::RequestInternal { id: i, message }) && i == id
                    && message@
                    == "Prompt controller collection is not ready. The server is not ready yet or is still starting."@,
                Some(collection) => if collection.0.as_map().contains_key(name@) {
                    r matches Ok(c) && *c == collection.0.as_map()[name@]
                } else {
                    r matches Err(Error::InvalidPromptName { id: i, name: n }) && i == id && n
                        == name
                },
            },
    {
        match &self.prompt_controller_collection {
            Some(collection) => match collection.0.get(name.as_str()) {
                Some(controller) => Ok(controller),
                None => Err(Error::invalid_prompt_name(id, name)),
            },
            None => Err(Error::request_internal(id, not_ready_message())),
        }
    }
}

} // verus!
