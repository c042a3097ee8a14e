//! What the client can ask of a server.

pub mod operations;
