//! The analysis behind the derive macros: reading field and variant types.
pub mod types;
pub mod fields;
pub mod variants;
pub mod paths;
pub mod features;
pub mod stager;
