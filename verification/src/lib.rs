//! A minimal HTTP upload gateway: the verified core.
//!
//! The library holds everything the gateway decides on plain values: startup
//! configuration validation, the per-request upload planning (which multipart
//! field is uploaded, under which key, and which response each outcome gets),
//! the fixed route responses, and an in-memory object store that models the
//! backend's put-object semantics for testing.
//!
//! Network transport (the HTTP server and the object-storage client) lives
//! outside the library and hands it plain values.

pub mod config;
pub mod response;
pub mod store;
pub mod upload;
