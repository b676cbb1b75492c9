//! A typed, transport-free client for the bunny.net account API and the
//! Edge Storage API.
//!
//! The clients in this crate describe each HTTP request as plain data and
//! say what a response status means for the operation that was sent. Sending
//! the request, awaiting the response and decoding its body are left to the
//! caller's transport.

pub mod error;
pub mod text;
pub mod web_url;
pub mod header;
pub mod request;
pub mod query;
pub mod bunny;
pub use bunny::BunnyClient;
pub mod edge_storage;
pub use edge_storage::EdgeStorageClient;
