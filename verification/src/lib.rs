//! ipeek: the verified core of an IP-intelligence HTTP service.
//!
//! The library covers the parts of the service that carry real logic:
//! resolving the response format a client asked for (from a path suffix or
//! an `Accept` header), encoding a response value into the chosen wire
//! format, and checking an address against DNS-based reputation lists.
//! Network I/O, the HTTP server and the GeoIP database reader live outside
//! the library and hand it plain values.

pub mod blocklist;
pub mod config;
pub mod encode;
pub mod format;
pub mod headers;
pub mod ip;
pub mod models;
pub mod seqs;
pub mod text;
