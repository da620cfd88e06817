//! A minimal, configuration-driven HTTP server engine: for each configured
//! virtual service it matches parsed requests against an ordered route
//! table and answers them from a local file or an upstream server, all
//! through one shared wire encoding. Parsing, routing, encoding and the
//! per-connection state machine are pure and carry proofs; the sockets and
//! the filesystem stay with the caller.
pub mod configuration;
pub mod http;
pub mod scan;
pub mod wire;
