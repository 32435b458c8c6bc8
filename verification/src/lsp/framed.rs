//! The `Content-Length` framed transport of a language server.
pub mod codec;
pub mod parser;
