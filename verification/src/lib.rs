//! A proxy between Language Server Protocol clients that speak over WebSocket
//! and a language server that speaks over its standard input and output.
//!
//! The library holds the parts of the proxy that decide and compute: the
//! codec for the `Content-Length` framed transport, the message model, the
//! rewriting of document URIs between the project-relative `source://` form
//! and the absolute `file://` form, the rules of the file-operations
//! endpoint, and the decisions of a proxy session.
pub mod api;
pub mod client;
pub mod lsp;
pub mod options;
pub mod text;
