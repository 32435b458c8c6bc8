//! Extensions to the protocol.
pub mod relative_uri;
