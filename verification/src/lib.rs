//! An injecting reverse proxy, reduced to its decisions.
//!
//! The proxy forwards `GET` requests to one upstream origin and, for a
//! configured set of paths, splices extra bytes into the response body
//! immediately before the first occurrence of a marker. This crate holds
//! everything the proxy decides: what is forwarded, how a response is
//! assembled, and how a buffered body is turned into the single chunk that is
//! sent on. Sockets, the HTTP client and the async runtime stay with the
//! caller, which hands plain values in and carries the answers out.

pub mod configuration;
pub mod paths;
pub mod service;
pub mod text;
pub mod uri;
