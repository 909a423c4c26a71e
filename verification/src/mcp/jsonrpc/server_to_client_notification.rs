use vstd::prelude::*;

use crate::mcp::jsonrpc::notification::message::Message;
use crate::mcp::jsonrpc::notification::resources_list_changed::ResourcesListChanged;
use crate::mcp::jsonrpc::notification::resources_updated::ResourcesUpdated;

verus! {

/// A notification the server pushes to a client.
#[derive(Clone, Debug)]
pub enum ServerToClientNotification {
    Message(Message),
    ResourcesListChanged(ResourcesListChanged),
    ResourcesUpdated(ResourcesUpdated),
}

} // verus!
