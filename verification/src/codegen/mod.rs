//! Planning of the Rust code generated from a tree-sitter `node-types.json`.
pub mod tables;
pub mod names;
pub mod node_types;
pub mod registry;
pub mod plan;
pub mod output;
pub mod generator;
pub mod laws;
