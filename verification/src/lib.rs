//! The request and notification dispatch engine of a language server: it
//! parses JSON-RPC messages, routes each to its typed action, and records the
//! replies.

pub mod actions;
pub mod harness;
pub mod json;
pub mod lsp_data;
pub mod rpc;
pub mod server;
pub mod span;
pub mod text;
pub mod vfs;

use vstd::prelude::*;

verus! {

/// The version of the server.
pub fn version() -> (v: &'static str)
    ensures
        v@ == "0.1.0"@,
{
    "0.1.0"
}

} // verus!
