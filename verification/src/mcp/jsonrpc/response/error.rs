//! JSON-RPC error responses.

use vstd::prelude::*;

use crate::mcp::jsonrpc::id::Id;

verus! {

/// An error answered to a request, with the id of that request.
#[derive(Debug)]
pub enum Error {
    /// The request's parameters cannot be used.
    InvalidParams { id: Id, message: String },
    /// No prompt has the name the request asked for.
    InvalidPromptName { id: Id, name: String },
    /// The server could not answer the request.
    RequestInternal { id: Id, message: String },
}

impl Error {
    /// The request `id` carried parameters that cannot be used.
    pub fn invalid_params(id: Id, message: String) -> (e: Error)
        ensures
            e == (Error::InvalidParams { id, message }),
    {
        Error::InvalidParams { id, message }
    }

    /// The request `id` asked for a prompt named `name`, which does not exist.
    pub fn invalid_prompt_name(id: Id, name: String) -> (e: Error)
        ensures
            e == (Error::InvalidPromptName { id, name }),
    {
        Error::InvalidPromptName { id, name }
    }

    /// The server could not answer the request `id`.
    pub fn request_internal(id: Id, message: String) -> (e: Error)
        ensures
            e == (Error::RequestInternal { id, message }),
    {
        Error::RequestInternal { id, message }
    }
}

} // verus!
