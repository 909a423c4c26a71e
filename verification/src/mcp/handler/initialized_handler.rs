//! What the server says once a client has completed the handshake.

use vstd::prelude::*;

use crate::mcp::jsonrpc::notification::message::MessageParams;
use crate::mcp::log_level::LogLevel;

verus! {

/// Answers the `initialized` notification.
#[derive(Clone, Copy, Debug)]
pub struct InitializedHandler {}

impl InitializedHandler {
    /// The debug message logged to the client when the handshake completes.
    pub fn handshake_message() -> (m: MessageParams)
        ensures
            m.data@ == "Initialization handshake is successfully completed"@,
            m.level == LogLevel::Debug,
    {
        MessageParams {
            data: String::from_str("Initialization handshake is successfully completed"),
            level: LogLevel::Debug,
        }
    }
}

} // verus!
