//! Edges to modules that are wrapped as server components.

pub mod server_component_reference;
