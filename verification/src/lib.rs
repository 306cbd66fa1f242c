//! Synthetic reference edges of a bundler's module graph.
//!
//! An edge points at exactly one target module. This crate says what an edge
//! resolves to, how the chunking pass has to lay it out, and how it is
//! labelled in diagnostics.

pub mod chunk;
pub mod merge_tag;
pub mod next_server_component;
pub mod next_server_utility;
pub mod reference;
pub mod resolve;
