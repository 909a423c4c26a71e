//! The id that pairs a JSON-RPC response with its request.

use vstd::prelude::*;

verus! {

/// A JSON-RPC request id: a number or a string.
#[derive(Clone, Debug)]
pub enum Id {
    Number(i64),
    String(String),
}

} // verus!
