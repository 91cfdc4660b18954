//! Diagnostics.  Ordinary grammar mismatches carry a single entry; the
//! schema-block rule accumulates every duplicate or unrecognized operation
//! role it finds before failing, so its error value can hold several
//! entries at once.

use vstd::prelude::*;
use crate::position::Pos;

verus! {

/// One diagnostic entry.
#[derive(Clone, Debug, PartialEq, Eq)]
pub enum ParseError {
    /// A token was present where the grammar required a different one.
    UnexpectedToken { found: String, position: Pos },
    /// The token stream ended where the grammar required a token.
    UnexpectedEnd { position: Pos },
    /// None of the listed alternatives could begin at this position.
    ExpectedOneOf { alternatives: Vec<String>, position: Pos },
    /// An operation role appeared a second time inside one schema block.
    DuplicateOperationRole { role: String, position: Pos },
    /// A schema-block role was none of `query`, `mutation`, `subscription`.
    InvalidOperationRole { found: String, position: Pos },
}

#[verifier::ext_equal]
pub enum SpecParseError {
    UnexpectedToken { found: Seq<char>, position: Pos },
    UnexpectedEnd { position: Pos },
    ExpectedOneOf { alternatives: Seq<Seq<char>>, position: Pos },
    DuplicateOperationRole { role: Seq<char>, position: Pos },
    InvalidOperationRole { found: Seq<char>, position: Pos },
}

impl View for ParseError {
    type V = SpecParseError;

    open spec fn view(&self) -> SpecParseError {
        match self {
            ParseError::UnexpectedToken { found, position } => SpecParseError::UnexpectedToken {
                found: found@,
                position: *position,
            },
            ParseError::UnexpectedEnd { position } => SpecParseError::UnexpectedEnd {
                position: *position,
            },
            ParseError::ExpectedOneOf { alternatives, position } => SpecParseError::ExpectedOneOf {
                alternatives: alternatives.deep_view(),
                position: *position,
            },
            ParseError::DuplicateOperationRole { role, position } => SpecParseError::DuplicateOperationRole {
                role: role@,
                position: *position,
            },
            ParseError::InvalidOperationRole { found, position } => SpecParseError::InvalidOperationRole {
                found: found@,
                position: *position,
            },
        }
    }
}

impl DeepView for ParseError {
    type V = SpecParseError;

    open spec fn deep_view(&self) -> SpecParseError {
        self.view()
    }
}

/// The failure value of a parse: the position where the failing rule
/// began, and every diagnostic that rule gathered.
#[derive(Clone, Debug, PartialEq, Eq)]
pub struct SchemaParseError {
    pub position: Pos,
    pub errors: Vec<ParseError>,
}

#[verifier::ext_equal]
pub struct SpecSchemaParseError {
    pub position: Pos,
    pub errors: Seq<SpecParseError>,
}

impl View for SchemaParseError {
    type V = SpecSchemaParseError;

    open spec fn view(&self) -> SpecSchemaParseError {
        SpecSchemaParseError { position: self.position, errors: self.errors.deep_view() }
    }
}

impl DeepView for SchemaParseError {
    type V = SpecSchemaParseError;

    open spec fn deep_view(&self) -> SpecSchemaParseError {
        self.view()
    }
}

} // verus!
