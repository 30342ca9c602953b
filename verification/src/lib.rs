//! Client side of a mint's JSON-over-HTTP protocol: what to send for each
//! operation, and how to read what comes back.
//!
//! The library does no I/O. For each operation [`client::HttpClient`] gives
//! the request to send and reads the reply that the caller's transport
//! brought back. A reply is read in one way for all operations
//! ([`protocol::respond`]): as the payload the operation expects, else as
//! an error that the mint reports, else as a body that cannot be read and
//! is handed back as it came.

pub mod address;
pub mod client;
pub mod error;
pub mod json;
pub mod key;
pub mod payload;
pub mod protocol;
pub mod request;
pub mod schema;
pub mod text;
