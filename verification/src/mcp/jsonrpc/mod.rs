pub mod id;
pub mod meta;
pub mod notification;
pub mod request;
pub mod response;
pub mod role;
pub mod server_to_client_notification;

use vstd::prelude::*;

verus! {

/// The JSON-RPC version every message carries.
pub const JSONRPC_VERSION: &'static str = "2.0";

} // verus!
