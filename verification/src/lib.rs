//! Path-prefix request routing for an edge reverse proxy.
//!
//! The crate decides, for each inbound request, which upstream backend
//! receives it (first matching path prefix wins, with a catch-all default),
//! how the forwarded request is shaped (cookie headers collapsed into one,
//! an optional prefix strip on the forwarded path), the response-compression
//! settings, and the `Location` answer the plaintext listener returns to
//! send clients to the secure origin.

pub mod config;
pub mod cookies;
pub mod redirect;
pub mod route;
pub mod text;
