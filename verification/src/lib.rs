//! Request ingestion and normalization for a JSON-RPC caching proxy.
//!
//! This library takes an untrusted JSON-RPC 2.0 request, validates and
//! decodes it into a strongly typed, method-specific request object, and
//! computes a deterministic cache-key fingerprint over the raw parameter
//! bytes.  Every malformed input is answered with the exact wire-protocol
//! error; nothing here panics.

pub mod config;
pub mod context;
pub mod decimal;
pub mod hashing;
pub mod jsonext;
pub mod request;
pub mod types;
