//! Verified core of an LSP framework driven by tree-sitter grammars.
pub mod symbol_data;
pub mod text;
pub mod codegen;
pub mod macros;
pub mod ast;
pub mod server;
pub mod document;
pub mod document_symbols_builder;
