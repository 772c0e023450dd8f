//! A line-delimited JSON-RPC engine: the envelope types, the method registry
//! and dispatcher, the frame reader that cuts a byte stream into requests, and
//! the state machine of the server around them. Beside the engine stand the
//! address configuration it is bound with and the row-based text buffer that
//! an editor's methods work on.

pub mod json;
pub mod types;
pub mod text;
pub mod config;
pub mod server;
pub mod frame;
pub mod connection;
pub mod buffer;
