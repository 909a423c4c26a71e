use vstd::prelude::*;

use crate::mcp::log_level::LogLevel;

verus! {

/// The body of a log message sent to a client.
#[derive(Clone, Debug)]
pub struct MessageParams {
    pub data: String,
    pub level: LogLevel,
}

/// A log message notification.
#[derive(Clone, Debug)]
pub struct Message {
    pub jsonrpc: String,
    pub params: MessageParams,
}

} // verus!
