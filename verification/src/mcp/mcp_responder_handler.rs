//! What an MCP endpoint does with a request, given what the client accepts.

use vstd::prelude::*;

use crate::mcp::accepts_all::Conclusion;

verus! {

/// What to answer a request with.
#[derive(Debug)]
pub enum ResponderAction {
    /// Let the responder answer.
    Respond,
    /// Answer `406 Not Acceptable`.
    NotAcceptable,
    /// Answer `500 Internal Server Error`, with `body`.
    InternalServerError { body: String },
}

/// Serves requests with the responder `R`.
pub struct McpResponderHandler<R>(pub R);

impl<R> McpResponderHandler<R> {
    /// The answer for a client of whom `conclusion` tells whether it accepts
    /// every media type the responder answers with: the responder answers
    /// where it does, `406` where it does not, and `500`, with the reason,
    /// where its `Accept` header could not be read.
    pub fn action_for(conclusion: Conclusion) -> (a: ResponderAction)
        ensures
            match conclusion {
                Conclusion::AllAcceptable => a is Respond,
                Conclusion::NotAllAcceptable => a is NotAcceptable,
                Conclusion::ErrorParsingHeader { message } => a matches ResponderAction::InternalServerError {
                    body,
                } && body == message,
            },
    {
        match conclusion {
            Conclusion::AllAcceptable => ResponderAction::Respond,
            Conclusion::NotAllAcceptable => ResponderAction::NotAcceptable,
            Conclusion::ErrorParsingHeader { message } => ResponderAction::InternalServerError {
                body: message,
            },
        }
    }
}

} // verus!
