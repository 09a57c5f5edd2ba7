//! Language Server Protocol runtime core: message framing, JSON-RPC types, the
//! pending-request registries, the session lifecycle and the dispatch rules.

pub mod client;
pub mod codec;
pub mod ext;
pub mod jsonrpc;
pub mod server;
pub mod service;
