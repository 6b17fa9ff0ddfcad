//! The syntax tree side: ranges, nodes, errors and the symbols' data.
pub mod range;
pub mod errors;
pub mod node;
pub mod lexer;
pub mod traits;
pub mod stack;
pub mod order;
pub mod scope;
pub mod traverse;
pub mod capture;
