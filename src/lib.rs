//! Schema-directed generation of typed client calls from untyped test
//! actions, and the index lifecycle management namespace of the client.
//!
//! A test action names an operation and gives its arguments as untyped
//! values ([`raw`]). Against the endpoint schema ([`schema`]), each argument
//! is classified as a path part, a query parameter, the body or the
//! `ignore` directive ([`call`]); the path parts select one URL template
//! ([`resolve`]); every value is coerced to its declared type ([`coerce`]);
//! the body is encoded as one JSON document or as newline-delimited entries
//! ([`body`]). The result is a call description, or every error found.
pub mod action;
pub mod body;
pub mod call;
pub mod client;
pub mod coerce;
pub mod error;
pub mod ilm;
pub mod laws;
pub mod literal;
pub mod naming;
pub mod raw;
pub mod resolve;
pub mod schema;
pub mod text;
