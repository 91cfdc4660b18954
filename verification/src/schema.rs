//! The schema-definition language: its AST, its diagnostics, and the
//! grammar rules that build the AST from a token stream.

pub mod ast;
pub mod error;
pub mod grammar;
