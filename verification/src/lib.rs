//! A recursive-descent parser for a GraphQL-style schema-definition
//! language.  The tokenizer turns source text into a position-tagged token
//! sequence; the grammar rules in `schema::grammar` turn that sequence into
//! a `Document` of schema blocks and type definitions.  Every rule carries a
//! contract relating its result to a specification-level grammar function,
//! so parsing is proved deterministic and faithful to the grammar.

pub mod position;
pub mod tokenizer;
pub mod helpers;
pub mod common;
pub mod schema;
