//! The decisions of the language server: encodings, message dispatch, and
//! the handling of files.
pub mod decisions;
