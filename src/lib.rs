//! A JSON-RPC tool server core: request handling, tool dispatch to an
//! external command-line program, bounded capture of its output, and a
//! time-limited on-disk thumbnail cache.
//!
//! Everything here is decision logic with contracts; the parts that
//! touch sockets, processes and the file system live in the application
//! around the library and feed their results back into these functions.

use vstd::prelude::*;

pub mod banner;
pub mod command;
pub mod json;
pub mod process;
pub mod rpc;
pub mod text;
pub mod thumbnail;
pub mod tools;

verus! {

/// Server identity reported by `initialize`.
#[derive(Clone, Debug)]
pub struct AppState {
    pub server_name: String,
    pub server_version: String,
}

} // verus!
