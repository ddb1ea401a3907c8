//! Client core for the UnrealIRCd JSON-RPC interface.
//!
//! The library holds the connection state, the JSON-RPC envelope codec, the
//! request/reply state machine and the params of the remote methods.
//! Network I/O is left to the caller, which feeds transport events into
//! [`Connection`] and performs the actions it hands back.

pub mod auth;
pub mod call;
pub mod channel;
pub mod connection;
pub mod envelope;
pub mod error;
pub mod json;
pub mod log;
pub mod name_ban;
pub mod options;
pub mod rpc;
pub mod server;
pub mod server_ban;
pub mod server_ban_exception;
pub mod spamfilter;
pub mod stats;
pub mod user;

pub use call::Call;
pub use connection::Connection;
pub use error::Error;
pub use json::Json;
pub use options::Options;
