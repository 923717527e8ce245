//! The IDE-integration core of a terminal code-review tool: the JSON-RPC
//! envelopes, the tool registry, the session snapshot that tools read, and
//! the decisions of the server and of the host loop, each with a contract.
//!
//! Nothing here opens a socket, takes a lock or touches the disk. A caller
//! reads and sends; the functions of this crate say what is to be read as
//! what, and what is to be sent.

pub mod codec;
pub mod command;
pub mod comment;
pub mod handlers;
pub mod host;
pub mod json;
pub mod json_text;
pub mod lockfile;
pub mod mcp;
pub mod payloads;
pub mod protocol;
pub mod seq_laws;
pub mod server;
pub mod state;
pub mod text;
pub mod tools;
pub mod vcs;
