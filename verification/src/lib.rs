//! Build-time generator that bridges RPC service definitions to an
//! HTTP/REST handler layer.
//!
//! Given the schema of each RPC method (input message shape, streaming
//! flags) and a per-method HTTP binding annotation (verb, path template,
//! body mapping), this library decides how the input message is split
//! across path parameters, query parameters and the request body, reuses
//! or synthesizes the partial message types this requires, and emits the
//! handler functions and router registration source text.

pub mod config;
pub mod emit;
pub mod errors;
pub mod generator;
pub mod http;
pub mod message;
pub mod options;
pub mod parse;
pub mod text;
