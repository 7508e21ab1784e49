//! The protocol logic of a client for goval containers: the decisions of a
//! connection attempt, the routing of incoming messages to channels and to
//! pending requests, and the life of a session.
//!
//! Everything here is a function of plain values. Sockets, timers, HTTP and
//! the message encoding are the business of the program around the library.

pub mod channel;
pub mod client;
pub mod connect;
pub mod default_connection_metadata;
pub mod endpoint;
pub mod error;
pub mod exchange_laws;
pub mod goval;
pub mod laws;
pub mod message_laws;
pub mod metadata;
pub mod operation_laws;
pub mod refs;
pub mod req_map;
pub mod session;
pub mod session_laws;

pub use channel::Channel;
pub use client::{Client, ConnectionStatus};
pub use default_connection_metadata::DefaultConnectionMetadataFetcher;
pub use error::CrosisError;
pub use metadata::{FetchConnectionMetadataError, FetchConnectionMetadataResult, GovalMetadata};
