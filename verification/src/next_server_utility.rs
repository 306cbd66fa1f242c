//! Edges to utilities that the server side shares.

pub mod server_utility_reference;
