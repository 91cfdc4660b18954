//! Source positions: 1-based line and column, attached to every token,
//! definition and diagnostic.

use vstd::prelude::*;

verus! {

/// A location in the source text, counting lines and columns from 1.
#[derive(Clone, Copy, Debug, PartialEq, Eq, Structural)]
pub struct Pos {
    pub line: usize,
    pub column: usize,
}

} // verus!
