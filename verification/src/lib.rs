//! A minimal file-transfer library.
//!
//! The library holds the logic of a small upload service: the multipart
//! wire format that an upload client produces and the server consumes,
//! the per-request decision of the upload handler, the derivation of the
//! storage path from a declared filename, the runtime configuration with
//! its override rules, and the validation of the storage root directory.
//! The surrounding process (sockets, the async runtime, file handles)
//! lives outside the library and only hands plain values in and out.

pub mod cli;
pub mod config;
pub mod handle;
pub mod laws;
pub mod multipart;
pub mod search;
pub mod server;
pub mod utils;

pub use config::{RuntimeConfig, ServerConfig, TlsConfig};
