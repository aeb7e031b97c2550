//! Compile-time code generation on a generic token-tree model:
//! a builder synthesizer for record types and an integer-range
//! repetition expander, both pure tree-to-tree transformers.

pub mod attr;
pub mod command;
pub mod descriptor;
pub mod error;
pub mod expand;
pub mod gen;
pub mod num;
pub mod shape;
pub mod token;
