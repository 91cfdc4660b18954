//! The grammar rules, one per syntactic form, and the document driver.
//!
//! Each executable rule consumes tokens from a `TokenStream` and is proved
//! to agree exactly with its specification-level counterpart (`spec_*`).
//! Alternatives are chosen by looking at the next token, never by
//! backtracking: a rule commits once its leading keyword is consumed.
//! Every rule fails fast on the first mismatch, except the schema block,
//! which gathers every duplicate or unrecognized operation role before
//! failing, so one pass reports every mistake inside the block.

use vstd::prelude::*;
use crate::position::Pos;
use crate::tokenizer::{
    Kind, SpecStream, SpecToken, Token, TokenStream, spec_position, spec_stream, spec_tokenize,
};
use crate::helpers::{
    at_ident, at_kind, at_punct, ident, kind, name, punct, spec_at_ident, spec_at_kind,
    spec_at_punct, spec_ident, spec_name, spec_punct, spec_unexpected_end, unexpected_end,
};
use crate::common::{directives, spec_directives, string};
use crate::schema::ast::{
    Definition, Document, NamedType, ObjectType, ScalarType, SchemaDefinition, SpecDefinition,
    SpecDocument, SpecObjectType, SpecScalarType, SpecSchemaDefinition, SpecTypeDefinition,
    TypeDefinition,
};
use crate::schema::error::{ParseError, SchemaParseError, SpecParseError, SpecSchemaParseError};

verus! {

/// One `role : TypeName` pair from a schema block: the role token, kept
/// whole for its text and position, and the referenced type name.
pub struct RolePair {
    pub role: Token,
    pub target: String,
}

#[verifier::ext_equal]
pub struct SpecRolePair {
    pub role: SpecToken,
    pub target: Seq<char>,
}

impl View for RolePair {
    type V = SpecRolePair;

    open spec fn view(&self) -> SpecRolePair {
        SpecRolePair { role: self.role@, target: self.target@ }
    }
}

impl DeepView for RolePair {
    type V = SpecRolePair;

    open spec fn deep_view(&self) -> SpecRolePair {
        self.view()
    }
}

/// The brace-delimited list of `Name : Name` pairs of a schema block,
/// gathered onto `acc`.  A token of any other kind ends the list without
/// being consumed; a name not followed by `:` and a name is a failure.
pub open spec fn spec_pairs(s: SpecStream, p: int, acc: Seq<SpecRolePair>) -> Result<
    (Seq<SpecRolePair>, int),
    SpecSchemaParseError,
>
    decreases s.tokens.len() - p,
{
    if !spec_at_kind(s, p, Kind::Name) {
        Ok((acc, p))
    } else {
        let role = s.tokens[p];
        match spec_punct(s, p + 1, ":"@) {
            Err(e) => Err(e),
            Ok((_colon, q)) => match spec_name(s, q) {
                Err(e) => Err(e),
                Ok((target, q2)) => spec_pairs(s, q2, acc.push(SpecRolePair { role, target })),
            },
        }
    }
}

pub proof fn lemma_pairs_progress(s: SpecStream, p: int, acc: Seq<SpecRolePair>)
    requires
        0 <= p <= s.tokens.len(),
    ensures
        match spec_pairs(s, p, acc) {
            Ok((ps, q)) => p <= q <= s.tokens.len(),
            Err(e) => true,
        },
    decreases s.tokens.len() - p,
{
    if spec_at_kind(s, p, Kind::Name) {
        match spec_punct(s, p + 1, ":"@) {
            Err(e) => {},
            Ok((_colon, q)) => match spec_name(s, q) {
                Err(e) => {},
                Ok((target, q2)) => {
                    lemma_pairs_progress(s, q2, acc.push(SpecRolePair { role: s.tokens[p], target }));
                },
            },
        }
    }
}

/// The diagnostics recorded for a role that is none of the three legal
/// keywords: the offending token, then one expectation per keyword.
pub open spec fn spec_invalid_role_errors(role: SpecToken) -> Seq<SpecParseError> {
    seq![
        SpecParseError::InvalidOperationRole { found: role.text, position: role.pos },
        SpecParseError::ExpectedOneOf { alternatives: seq!["query"@], position: role.pos },
        SpecParseError::ExpectedOneOf { alternatives: seq!["mutation"@], position: role.pos },
        SpecParseError::ExpectedOneOf { alternatives: seq!["subscription"@], position: role.pos },
    ]
}

/// Walks the role pairs from index `i`, recording the first type name seen
/// for each legal role, a duplicate diagnostic for every repeat, and the
/// diagnostics of `spec_invalid_role_errors` for every unrecognized role.
/// Yields the three recorded names and every diagnostic gathered.
pub open spec fn spec_assign(
    pairs: Seq<SpecRolePair>,
    i: int,
    query: Option<Seq<char>>,
    mutation: Option<Seq<char>>,
    subscription: Option<Seq<char>>,
    errs: Seq<SpecParseError>,
) -> (Option<Seq<char>>, Option<Seq<char>>, Option<Seq<char>>, Seq<SpecParseError>)
    decreases pairs.len() - i,
{
    if i < 0 || i >= pairs.len() {
        (query, mutation, subscription, errs)
    } else {
        let pr = pairs[i];
        if pr.role.text == "query"@ {
            if query.is_some() {
                spec_assign(
                    pairs,
                    i + 1,
                    query,
                    mutation,
                    subscription,
                    errs.push(
                        SpecParseError::DuplicateOperationRole {
                            role: pr.role.text,
                            position: pr.role.pos,
                        },
                    ),
                )
            } else {
                spec_assign(pairs, i + 1, Some(pr.target), mutation, subscription, errs)
            }
        } else if pr.role.text == "mutation"@ {
            if mutation.is_some() {
                spec_assign(
                    pairs,
                    i + 1,
                    query,
                    mutation,
                    subscription,
                    errs.push(
                        SpecParseError::DuplicateOperationRole {
                            role: pr.role.text,
                            position: pr.role.pos,
                        },
                    ),
                )
            } else {
                spec_assign(pairs, i + 1, query, Some(pr.target), subscription, errs)
            }
        } else if pr.role.text == "subscription"@ {
            if subscription.is_some() {
                spec_assign(
                    pairs,
                    i + 1,
                    query,
                    mutation,
                    subscription,
                    errs.push(
                        SpecParseError::DuplicateOperationRole {
                            role: pr.role.text,
                            position: pr.role.pos,
                        },
                    ),
                )
            } else {
                spec_assign(pairs, i + 1, query, mutation, Some(pr.target), errs)
            }
        } else {
            spec_assign(
                pairs,
                i + 1,
                query,
                mutation,
                subscription,
                errs + spec_invalid_role_errors(pr.role),
            )
        }
    }
}

/// The schema-block rule: `schema` directives `{` pairs `}`, then the role
/// walk; any diagnostic from the walk fails the whole rule with every
/// diagnostic gathered, positioned at the `schema` keyword.
pub open spec fn spec_schema(s: SpecStream, p: int) -> Result<
    (SpecSchemaDefinition, int),
    SpecSchemaParseError,
> {
    let pos0 = spec_position(s, p);
    match spec_ident(s, p, "schema"@) {
        Err(e) => Err(e),
        Ok((_kw, p1)) => match spec_directives(s, p1, Seq::empty()) {
            Err(e) => Err(e),
            Ok((dirs, p2)) => match spec_punct(s, p2, "{"@) {
                Err(e) => Err(e),
                Ok((_open, p3)) => match spec_pairs(s, p3, Seq::empty()) {
                    Err(e) => Err(e),
                    Ok((pairs, p4)) => match spec_punct(s, p4, "}"@) {
                        Err(e) => Err(e),
                        Ok((_close, p5)) => {
                            let (query, mutation, subscription, errs) = spec_assign(
                                pairs,
                                0,
                                None,
                                None,
                                None,
                                Seq::empty(),
                            );
                            if errs.len() > 0 {
                                Err(SpecSchemaParseError { position: pos0, errors: errs })
                            } else {
                                Ok(
                                    (
                                        SpecSchemaDefinition {
                                            position: pos0,
                                            directives: dirs,
                                            query,
                                            mutation,
                                            subscription,
                                        },
                                        p5,
                                    ),
                                )
                            }
                        },
                    },
                },
            },
        },
    }
}

pub proof fn lemma_schema_progress(s: SpecStream, p: int)
    requires
        0 <= p <= s.tokens.len(),
    ensures
        match spec_schema(s, p) {
            Ok((d, q)) => p < q <= s.tokens.len(),
            Err(e) => true,
        },
{
    match spec_ident(s, p, "schema"@) {
        Err(e) => {},
        Ok((_kw, p1)) => {
            lemma_directives_progress_from(s, p1);
        },
    }
}

/// Helper for `lemma_schema_progress`, carrying the walk past the
/// directive list.
proof fn lemma_directives_progress_from(s: SpecStream, p1: int)
    requires
        0 <= p1 <= s.tokens.len(),
    ensures
        match spec_directives(s, p1, Seq::empty()) {
            Ok((dirs, p2)) => match spec_punct(s, p2, "{"@) {
                Ok((_open, p3)) => match spec_pairs(s, p3, Seq::empty()) {
                    Ok((pairs, p4)) => p1 <= p4 <= s.tokens.len(),
                    Err(e) => true,
                },
                Err(e) => true,
            },
            Err(e) => true,
        },
{
    crate::common::lemma_directives_progress(s, p1, Seq::empty());
    match spec_directives(s, p1, Seq::empty()) {
        Ok((dirs, p2)) => match spec_punct(s, p2, "{"@) {
            Ok((_open, p3)) => {
                lemma_pairs_progress(s, p3, Seq::empty());
            },
            Err(e) => {},
        },
        Err(e) => {},
    }
}

/// The scalar-type rule: `scalar` Name directives.  The description slot
/// stays empty here; `spec_type_definition` fills it.
pub open spec fn spec_scalar_type(s: SpecStream, p: int) -> Result<
    (SpecScalarType, int),
    SpecSchemaParseError,
> {
    let pos0 = spec_position(s, p);
    match spec_ident(s, p, "scalar"@) {
        Err(e) => Err(e),
        Ok((_kw, p1)) => match spec_name(s, p1) {
            Err(e) => Err(e),
            Ok((nm, p2)) => match spec_directives(s, p2, Seq::empty()) {
                Err(e) => Err(e),
                Ok((dirs, p3)) => Ok(
                    (
                        SpecScalarType {
                            position: pos0,
                            description: None,
                            name: nm,
                            directives: dirs,
                        },
                        p3,
                    ),
                ),
            },
        },
    }
}

pub proof fn lemma_scalar_type_progress(s: SpecStream, p: int)
    requires
        0 <= p <= s.tokens.len(),
    ensures
        match spec_scalar_type(s, p) {
            Ok((d, q)) => p < q <= s.tokens.len(),
            Err(e) => true,
        },
{
    match spec_ident(s, p, "scalar"@) {
        Err(e) => {},
        Ok((_kw, p1)) => match spec_name(s, p1) {
            Err(e) => {},
            Ok((nm, p2)) => {
                crate::common::lemma_directives_progress(s, p2, Seq::empty());
            },
        },
    }
}

/// The optional interface list: nothing, or `implements`, an optional
/// cosmetic leading `&`, and one or more `&`-separated names.
pub open spec fn spec_interface_tail(s: SpecStream, p: int, acc: Seq<Seq<char>>) -> Result<
    (Seq<Seq<char>>, int),
    SpecSchemaParseError,
>
    decreases s.tokens.len() - p,
{
    if !spec_at_punct(s, p, "&"@) {
        Ok((acc, p))
    } else {
        match spec_name(s, p + 1) {
            Err(e) => Err(e),
            Ok((nm, q)) => spec_interface_tail(s, q, acc.push(nm)),
        }
    }
}

pub proof fn lemma_interface_tail_progress(s: SpecStream, p: int, acc: Seq<Seq<char>>)
    requires
        0 <= p <= s.tokens.len(),
    ensures
        match spec_interface_tail(s, p, acc) {
            Ok((ns, q)) => p <= q <= s.tokens.len(),
            Err(e) => true,
        },
    decreases s.tokens.len() - p,
{
    if spec_at_punct(s, p, "&"@) {
        match spec_name(s, p + 1) {
            Err(e) => {},
            Ok((nm, q)) => {
                lemma_interface_tail_progress(s, q, acc.push(nm));
            },
        }
    }
}

pub open spec fn spec_implements_interfaces(s: SpecStream, p: int) -> Result<
    (Seq<Seq<char>>, int),
    SpecSchemaParseError,
> {
    if !spec_at_ident(s, p, "implements"@) {
        Ok((Seq::empty(), p))
    } else {
        let q = if spec_at_punct(s, p + 1, "&"@) {
            p + 2
        } else {
            p + 1
        };
        match spec_name(s, q) {
            Err(e) => Err(e),
            Ok((first, q2)) => spec_interface_tail(s, q2, seq![first]),
        }
    }
}

pub proof fn lemma_implements_interfaces_progress(s: SpecStream, p: int)
    requires
        0 <= p <= s.tokens.len(),
    ensures
        match spec_implements_interfaces(s, p) {
            Ok((ns, q)) => p <= q <= s.tokens.len(),
            Err(e) => true,
        },
{
    if spec_at_ident(s, p, "implements"@) {
        let q = if spec_at_punct(s, p + 1, "&"@) {
            p + 2
        } else {
            p + 1
        };
        match spec_name(s, q) {
            Err(e) => {},
            Ok((first, q2)) => {
                lemma_interface_tail_progress(s, q2, seq![first]);
            },
        }
    }
}

/// The object-type rule: `type` Name interface-list directives.  Field
/// lists lie outside this grammar, so the field sequence is always empty.
pub open spec fn spec_object_type(s: SpecStream, p: int) -> Result<
    (SpecObjectType, int),
    SpecSchemaParseError,
> {
    let pos0 = spec_position(s, p);
    match spec_ident(s, p, "type"@) {
        Err(e) => Err(e),
        Ok((_kw, p1)) => match spec_name(s, p1) {
            Err(e) => Err(e),
            Ok((nm, p2)) => match spec_implements_interfaces(s, p2) {
                Err(e) => Err(e),
                Ok((ifaces, p3)) => match spec_directives(s, p3, Seq::empty()) {
                    Err(e) => Err(e),
                    Ok((dirs, p4)) => Ok(
                        (
                            SpecObjectType {
                                position: pos0,
                                description: None,
                                name: nm,
                                implements_interfaces: ifaces,
                                directives: dirs,
                                fields: Seq::empty(),
                            },
                            p4,
                        ),
                    ),
                },
            },
        },
    }
}

pub proof fn lemma_object_type_progress(s: SpecStream, p: int)
    requires
        0 <= p <= s.tokens.len(),
    ensures
        match spec_object_type(s, p) {
            Ok((d, q)) => p < q <= s.tokens.len(),
            Err(e) => true,
        },
{
    match spec_ident(s, p, "type"@) {
        Err(e) => {},
        Ok((_kw, p1)) => match spec_name(s, p1) {
            Err(e) => {},
            Ok((nm, p2)) => {
                lemma_implements_interfaces_progress(s, p2);
                match spec_implements_interfaces(s, p2) {
                    Err(e) => {},
                    Ok((ifaces, p3)) => {
                        crate::common::lemma_directives_progress(s, p3, Seq::empty());
                    },
                }
            },
        },
    }
}

/// Attaches the optional leading description to whichever variant was
/// parsed.  The match stays exhaustive over every variant, constructible
/// here or not, so a new variant forces this step to be revisited.
pub open spec fn spec_with_description(
    def: SpecTypeDefinition,
    description: Option<Seq<char>>,
) -> SpecTypeDefinition {
    match def {
        SpecTypeDefinition::Scalar(t) => SpecTypeDefinition::Scalar(
            SpecScalarType { description, ..t },
        ),
        SpecTypeDefinition::Object(t) => SpecTypeDefinition::Object(
            SpecObjectType { description, ..t },
        ),
        SpecTypeDefinition::Interface(t) => SpecTypeDefinition::Interface(
            crate::schema::ast::SpecInterfaceType { description, ..t },
        ),
        SpecTypeDefinition::Union(t) => SpecTypeDefinition::Union(
            crate::schema::ast::SpecUnionType { description, ..t },
        ),
        SpecTypeDefinition::Enum(t) => SpecTypeDefinition::Enum(
            crate::schema::ast::SpecEnumType { description, ..t },
        ),
        SpecTypeDefinition::InputObject(t) => SpecTypeDefinition::InputObject(
            crate::schema::ast::SpecInputObjectType { description, ..t },
        ),
    }
}

/// The failure of the dispatcher when no variant keyword begins here.
pub open spec fn spec_no_variant_error(s: SpecStream, p: int) -> SpecSchemaParseError {
    if p >= s.tokens.len() {
        spec_unexpected_end(s.end)
    } else {
        SpecSchemaParseError {
            position: s.tokens[p].pos,
            errors: seq![
                SpecParseError::ExpectedOneOf {
                    alternatives: seq!["scalar"@, "type"@],
                    position: s.tokens[p].pos,
                },
            ],
        }
    }
}

/// The type-definition dispatcher: an optional description string, then
/// the variant whose keyword comes next; the description is patched onto
/// the parsed variant afterwards.
pub open spec fn spec_type_definition(s: SpecStream, p: int) -> Result<
    (SpecTypeDefinition, int),
    SpecSchemaParseError,
> {
    let (description, p1): (Option<Seq<char>>, int) = if spec_at_kind(s, p, Kind::StringValue) {
        (Some(s.tokens[p].text), p + 1)
    } else {
        (None, p)
    };
    if spec_at_ident(s, p1, "scalar"@) {
        match spec_scalar_type(s, p1) {
            Err(e) => Err(e),
            Ok((t, p2)) => Ok(
                (spec_with_description(SpecTypeDefinition::Scalar(t), description), p2),
            ),
        }
    } else if spec_at_ident(s, p1, "type"@) {
        match spec_object_type(s, p1) {
            Err(e) => Err(e),
            Ok((t, p2)) => Ok(
                (spec_with_description(SpecTypeDefinition::Object(t), description), p2),
            ),
        }
    } else {
        Err(spec_no_variant_error(s, p1))
    }
}

pub proof fn lemma_type_definition_progress(s: SpecStream, p: int)
    requires
        0 <= p <= s.tokens.len(),
    ensures
        match spec_type_definition(s, p) {
            Ok((d, q)) => p < q <= s.tokens.len(),
            Err(e) => true,
        },
{
    let p1: int = if spec_at_kind(s, p, Kind::StringValue) {
        p + 1
    } else {
        p
    };
    if spec_at_ident(s, p1, "scalar"@) {
        lemma_scalar_type_progress(s, p1);
    } else if spec_at_ident(s, p1, "type"@) {
        lemma_object_type_progress(s, p1);
    }
}

/// The top-level definition rule: a schema block when the `schema` keyword
/// comes next, otherwise a type definition.
pub open spec fn spec_definition(s: SpecStream, p: int) -> Result<
    (SpecDefinition, int),
    SpecSchemaParseError,
> {
    if spec_at_ident(s, p, "schema"@) {
        match spec_schema(s, p) {
            Err(e) => Err(e),
            Ok((d, q)) => Ok((SpecDefinition::SchemaDefinition(d), q)),
        }
    } else {
        match spec_type_definition(s, p) {
            Err(e) => Err(e),
            Ok((d, q)) => Ok((SpecDefinition::TypeDefinition(d), q)),
        }
    }
}

pub proof fn lemma_definition_progress(s: SpecStream, p: int)
    requires
        0 <= p <= s.tokens.len(),
    ensures
        match spec_definition(s, p) {
            Ok((d, q)) => p < q <= s.tokens.len(),
            Err(e) => true,
        },
{
    if spec_at_ident(s, p, "schema"@) {
        lemma_schema_progress(s, p);
    } else {
        lemma_type_definition_progress(s, p);
    }
}

/// One or more definitions, then the end of the input.  An empty document
/// is a failure; a definition that cannot start where one is required is
/// the failure of the definition rule at that point.
pub open spec fn spec_definitions(s: SpecStream, p: int, acc: Seq<SpecDefinition>) -> Result<
    (Seq<SpecDefinition>, int),
    SpecSchemaParseError,
>
    decreases s.tokens.len() - p,
{
    if p < 0 || p >= s.tokens.len() {
        if acc.len() == 0 {
            Err(spec_unexpected_end(s.end))
        } else {
            Ok((acc, p))
        }
    } else {
        match spec_definition(s, p) {
            Err(e) => Err(e),
            Ok((d, q)) => {
                proof {
                    lemma_definition_progress(s, p);
                }
                spec_definitions(s, q, acc.push(d))
            },
        }
    }
}

/// The whole parse: lex the text, then one or more definitions to the end
/// of the input.
pub open spec fn spec_parse_text(text: Seq<char>) -> Result<SpecDocument, SpecSchemaParseError> {
    match spec_stream(text) {
        Err(e) => Err(e),
        Ok(st) => match spec_definitions(st, 0, Seq::empty()) {
            Err(e) => Err(e),
            Ok((defs, _q)) => Ok(SpecDocument { definitions: defs }),
        },
    }
}

/// Parses the `Name : Name` pairs inside a schema block's braces.
fn operation_pairs(input: &mut TokenStream) -> (r: Result<Vec<RolePair>, SchemaParseError>)
    requires
        old(input).wf(),
    ensures
        final(input).wf(),
        final(input)@ == old(input)@,
        match r {
            Ok(ps) => spec_pairs(old(input)@, old(input).offset as int, Seq::empty()) == Ok::<
                _,
                SpecSchemaParseError,
            >((ps.deep_view(), final(input).offset as int))
                && old(input).offset <= final(input).offset,
            Err(e) => spec_pairs(old(input)@, old(input).offset as int, Seq::empty()) == Err::<
                (Seq<SpecRolePair>, int),
                _,
            >(e@),
        },
{
    let mut pairs: Vec<RolePair> = Vec::new();
    proof {
        assert(pairs.deep_view() =~= Seq::<SpecRolePair>::empty());
    }
    loop
        invariant
            input.wf(),
            input@ == old(input)@,
            old(input).offset <= input.offset,
            spec_pairs(old(input)@, old(input).offset as int, Seq::empty())
                == spec_pairs(input@, input.offset as int, pairs.deep_view()),
        decreases input.tokens@.len() - input.offset,
    {
        if !at_kind(input, Kind::Name) {
            return Ok(pairs);
        }
        let ghost pre: Seq<SpecRolePair> = pairs.deep_view();
        let role = match kind(input, Kind::Name) {
            Ok(t) => t,
            Err(e) => return Err(e),
        };
        if let Err(e) = punct(input, ":") {
            return Err(e);
        }
        let target = match name(input) {
            Ok(v) => v,
            Err(e) => return Err(e),
        };
        pairs.push(RolePair { role, target });
        proof {
            assert(pairs.deep_view() =~= pre.push(pairs[pairs.len() - 1]@));
        }
    }
}

/// Parses a schema block at the cursor, reporting every duplicate or
/// unrecognized operation role inside it in one failure.
pub fn schema(input: &mut TokenStream) -> (r: Result<SchemaDefinition, SchemaParseError>)
    requires
        old(input).wf(),
    ensures
        final(input).wf(),
        final(input)@ == old(input)@,
        match r {
            Ok(d) => spec_schema(old(input)@, old(input).offset as int) == Ok::<
                _,
                SpecSchemaParseError,
            >((d@, final(input).offset as int))
                && old(input).offset < final(input).offset,
            Err(e) => spec_schema(old(input)@, old(input).offset as int) == Err::<
                (SpecSchemaDefinition, int),
                _,
            >(e@),
        },
{
    let pos0 = input.position();
    if let Err(e) = ident(input, "schema") {
        return Err(e);
    }
    let dirs = match directives(input) {
        Ok(v) => v,
        Err(e) => return Err(e),
    };
    if let Err(e) = punct(input, "{") {
        return Err(e);
    }
    let pairs = match operation_pairs(input) {
        Ok(v) => v,
        Err(e) => return Err(e),
    };
    if let Err(e) = punct(input, "}") {
        return Err(e);
    }
    let query_kw = String::from_str("query");
    let mutation_kw = String::from_str("mutation");
    let subscription_kw = String::from_str("subscription");
    let mut query: Option<String> = None;
    let mut mutation: Option<String> = None;
    let mut subscription: Option<String> = None;
    let mut errs: Vec<ParseError> = Vec::new();
    let mut k: usize = 0;
    proof {
        assert(errs.deep_view() =~= Seq::<SpecParseError>::empty());
    }
    while k < pairs.len()
        invariant
            k <= pairs.len(),
            query_kw@ == "query"@,
            mutation_kw@ == "mutation"@,
            subscription_kw@ == "subscription"@,
            spec_assign(pairs.deep_view(), 0, None, None, None, Seq::empty()) == spec_assign(
                pairs.deep_view(),
                k as int,
                query.deep_view(),
                mutation.deep_view(),
                subscription.deep_view(),
                errs.deep_view(),
            ),
        decreases pairs.len() - k,
    {
        let ghost pre_errs: Seq<SpecParseError> = errs.deep_view();
        let pr = &pairs[k];
        if pr.role.text == query_kw {
            if query.is_some() {
                errs.push(
                    ParseError::DuplicateOperationRole {
                        role: pr.role.text.clone(),
                        position: pr.role.pos,
                    },
                );
                proof {
                    assert(errs.deep_view() =~= pre_errs.push(
                        SpecParseError::DuplicateOperationRole {
                            role: pairs.deep_view()[k as int].role.text,
                            position: pairs.deep_view()[k as int].role.pos,
                        },
                    ));
                }
            } else {
                query = Some(pr.target.clone());
            }
        } else if pr.role.text == mutation_kw {
            if mutation.is_some() {
                errs.push(
                    ParseError::DuplicateOperationRole {
                        role: pr.role.text.clone(),
                        position: pr.role.pos,
                    },
                );
                proof {
                    assert(errs.deep_view() =~= pre_errs.push(
                        SpecParseError::DuplicateOperationRole {
                            role: pairs.deep_view()[k as int].role.text,
                            position: pairs.deep_view()[k as int].role.pos,
                        },
                    ));
                }
            } else {
                mutation = Some(pr.target.clone());
            }
        } else if pr.role.text == subscription_kw {
            if subscription.is_some() {
                errs.push(
                    ParseError::DuplicateOperationRole {
                        role: pr.role.text.clone(),
                        position: pr.role.pos,
                    },
                );
                proof {
                    assert(errs.deep_view() =~= pre_errs.push(
                        SpecParseError::DuplicateOperationRole {
                            role: pairs.deep_view()[k as int].role.text,
                            position: pairs.deep_view()[k as int].role.pos,
                        },
                    ));
                }
            } else {
                subscription = Some(pr.target.clone());
            }
        } else {
            errs.push(
                ParseError::InvalidOperationRole {
                    found: pr.role.text.clone(),
                    position: pr.role.pos,
                },
            );
            errs.push(
                ParseError::ExpectedOneOf {
                    alternatives: vec![String::from_str("query")],
                    position: pr.role.pos,
                },
            );
            errs.push(
                ParseError::ExpectedOneOf {
                    alternatives: vec![String::from_str("mutation")],
                    position: pr.role.pos,
                },
            );
            errs.push(
                ParseError::ExpectedOneOf {
                    alternatives: vec![String::from_str("subscription")],
                    position: pr.role.pos,
                },
            );
            proof {
                assert(errs.deep_view() =~~= pre_errs + spec_invalid_role_errors(
                    pairs.deep_view()[k as int].role,
                ));
            }
        }
        k = k + 1;
    }
    if errs.len() > 0 {
        return Err(SchemaParseError { position: pos0, errors: errs });
    }
    Ok(SchemaDefinition { position: pos0, directives: dirs, query, mutation, subscription })
}

/// Parses a scalar-type definition at the cursor.
pub fn scalar_type(input: &mut TokenStream) -> (r: Result<ScalarType, SchemaParseError>)
    requires
        old(input).wf(),
    ensures
        final(input).wf(),
        final(input)@ == old(input)@,
        match r {
            Ok(t) => spec_scalar_type(old(input)@, old(input).offset as int) == Ok::<
                _,
                SpecSchemaParseError,
            >((t@, final(input).offset as int))
                && old(input).offset < final(input).offset,
            Err(e) => spec_scalar_type(old(input)@, old(input).offset as int) == Err::<
                (SpecScalarType, int),
                _,
            >(e@),
        },
{
    let pos0 = input.position();
    if let Err(e) = ident(input, "scalar") {
        return Err(e);
    }
    let nm = match name(input) {
        Ok(v) => v,
        Err(e) => return Err(e),
    };
    let dirs = match directives(input) {
        Ok(v) => v,
        Err(e) => return Err(e),
    };
    Ok(ScalarType { position: pos0, description: None, name: nm, directives: dirs })
}

/// Parses the optional `implements` clause; an empty list when the
/// keyword is absent.
pub fn implements_interfaces(input: &mut TokenStream) -> (r: Result<
    Vec<NamedType>,
    SchemaParseError,
>)
    requires
        old(input).wf(),
    ensures
        final(input).wf(),
        final(input)@ == old(input)@,
        match r {
            Ok(ns) => spec_implements_interfaces(old(input)@, old(input).offset as int) == Ok::<
                _,
                SpecSchemaParseError,
            >((ns.deep_view(), final(input).offset as int))
                && old(input).offset <= final(input).offset,
            Err(e) => spec_implements_interfaces(old(input)@, old(input).offset as int) == Err::<
                (Seq<Seq<char>>, int),
                _,
            >(e@),
        },
{
    let mut ifaces: Vec<String> = Vec::new();
    if !at_ident(input, "implements") {
        proof {
            assert(ifaces.deep_view() =~= Seq::<Seq<char>>::empty());
        }
        return Ok(ifaces);
    }
    if let Err(e) = ident(input, "implements") {
        return Err(e);
    }
    if at_punct(input, "&") {
        if let Err(e) = punct(input, "&") {
            return Err(e);
        }
    }
    let first = match name(input) {
        Ok(v) => v,
        Err(e) => return Err(e),
    };
    ifaces.push(first);
    proof {
        assert(ifaces.deep_view() =~= seq![ifaces[0]@]);
    }
    loop
        invariant
            input.wf(),
            input@ == old(input)@,
            old(input).offset <= input.offset,
            spec_implements_interfaces(old(input)@, old(input).offset as int)
                == spec_interface_tail(input@, input.offset as int, ifaces.deep_view()),
        decreases input.tokens@.len() - input.offset,
    {
        if !at_punct(input, "&") {
            return Ok(ifaces);
        }
        let ghost pre: Seq<Seq<char>> = ifaces.deep_view();
        if let Err(e) = punct(input, "&") {
            return Err(e);
        }
        let nm = match name(input) {
            Ok(v) => v,
            Err(e) => return Err(e),
        };
        ifaces.push(nm);
        proof {
            assert(ifaces.deep_view() =~= pre.push(nm@));
        }
    }
}

/// Parses an object-type definition at the cursor.  No field list is
/// parsed: that part of the language lies outside this grammar, so the
/// field vector is always empty.
pub fn object_type(input: &mut TokenStream) -> (r: Result<ObjectType, SchemaParseError>)
    requires
        old(input).wf(),
    ensures
        final(input).wf(),
        final(input)@ == old(input)@,
        match r {
            Ok(t) => spec_object_type(old(input)@, old(input).offset as int) == Ok::<
                _,
                SpecSchemaParseError,
            >((t@, final(input).offset as int))
                && old(input).offset < final(input).offset,
            Err(e) => spec_object_type(old(input)@, old(input).offset as int) == Err::<
                (SpecObjectType, int),
                _,
            >(e@),
        },
{
    let pos0 = input.position();
    if let Err(e) = ident(input, "type") {
        return Err(e);
    }
    let nm = match name(input) {
        Ok(v) => v,
        Err(e) => return Err(e),
    };
    let ifaces = match implements_interfaces(input) {
        Ok(v) => v,
        Err(e) => return Err(e),
    };
    let dirs = match directives(input) {
        Ok(v) => v,
        Err(e) => return Err(e),
    };
    let fields: Vec<crate::schema::ast::Field> = Vec::new();
    proof {
        assert(fields.deep_view() =~= Seq::<crate::schema::ast::SpecField>::empty());
    }
    Ok(
        ObjectType {
            position: pos0,
            description: None,
            name: nm,
            implements_interfaces: ifaces,
            directives: dirs,
            fields,
        },
    )
}

/// Parsing is a function of the text alone: the same text always yields
/// the same outcome, so re-parsing a text gives a structurally equal
/// document.  `parse_schema` ensures its result equals
/// `spec_parse_text(s@)`, and that value depends on nothing but the text.
pub proof fn lemma_parse_deterministic(a: Seq<char>, b: Seq<char>)
    requires
        a == b,
    ensures
        spec_parse_text(a) == spec_parse_text(b),
{
}

proof fn lemma_definitions_nonempty(s: SpecStream, p: int, acc: Seq<SpecDefinition>)
    requires
        0 <= p,
    ensures
        match spec_definitions(s, p, acc) {
            Ok((defs, q)) => defs.len() >= 1 && defs.len() >= acc.len(),
            Err(e) => true,
        },
    decreases s.tokens.len() - p,
{
    if p < s.tokens.len() {
        match spec_definition(s, p) {
            Err(e) => {},
            Ok((d, q)) => {
                lemma_definition_progress(s, p);
                lemma_definitions_nonempty(s, q, acc.push(d));
            },
        }
    }
}

/// A document requires at least one definition: whenever a parse
/// succeeds, the document holds one or more definitions, so the empty
/// text can never parse.
pub proof fn lemma_parsed_document_nonempty(text: Seq<char>, d: SpecDocument)
    requires
        spec_parse_text(text) == Ok::<SpecDocument, SpecSchemaParseError>(d),
    ensures
        d.definitions.len() >= 1,
{
    match spec_stream(text) {
        Err(e) => {},
        Ok(st) => {
            lemma_definitions_nonempty(st, 0, Seq::empty());
        },
    }
}

proof fn lemma_definitions_consume_all(s: SpecStream, p: int, acc: Seq<SpecDefinition>)
    requires
        0 <= p <= s.tokens.len(),
    ensures
        match spec_definitions(s, p, acc) {
            Ok((defs, q)) => q == s.tokens.len(),
            Err(e) => true,
        },
    decreases s.tokens.len() - p,
{
    if p < s.tokens.len() {
        match spec_definition(s, p) {
            Err(e) => {},
            Ok((d, q)) => {
                lemma_definition_progress(s, p);
                lemma_definitions_consume_all(s, q, acc.push(d));
            },
        }
    }
}

/// A parse succeeds only at the end of the input: the definitions cover
/// every token, so a complete definition sequence followed by anything
/// further fails at the end-of-input check rather than yielding a
/// document.
pub proof fn lemma_parse_consumes_all(text: Seq<char>, st: SpecStream)
    requires
        spec_stream(text) == Ok::<SpecStream, SpecSchemaParseError>(st),
    ensures
        match spec_definitions(st, 0, Seq::empty()) {
            Ok((defs, q)) => q == st.tokens.len(),
            Err(e) => true,
        },
{
    lemma_definitions_consume_all(st, 0, Seq::empty());
}

/// The first pair with the given role text, and the type name it records.
pub open spec fn spec_first_role(pairs: Seq<SpecRolePair>, i: int, role: Seq<char>) -> Option<
    Seq<char>,
>
    decreases pairs.len() - i,
{
    if i < 0 || i >= pairs.len() {
        None
    } else if pairs[i].role.text == role {
        Some(pairs[i].target)
    } else {
        spec_first_role(pairs, i + 1, role)
    }
}

proof fn lemma_assign_keeps_first_rec(
    pairs: Seq<SpecRolePair>,
    i: int,
    query: Option<Seq<char>>,
    mutation: Option<Seq<char>>,
    subscription: Option<Seq<char>>,
    errs: Seq<SpecParseError>,
)
    requires
        0 <= i,
    ensures
        ({
            let (q, m, sub, es) = spec_assign(pairs, i, query, mutation, subscription, errs);
            (q == if query.is_some() {
                query
            } else {
                spec_first_role(pairs, i, "query"@)
            }) && (m == if mutation.is_some() {
                mutation
            } else {
                spec_first_role(pairs, i, "mutation"@)
            }) && (sub == if subscription.is_some() {
                subscription
            } else {
                spec_first_role(pairs, i, "subscription"@)
            })
        }),
    decreases pairs.len() - i,
{
    lemma_role_keywords_distinct();
    if i < pairs.len() {
        let pr = pairs[i];
        if pr.role.text == "query"@ {
            if query.is_some() {
                lemma_assign_keeps_first_rec(
                    pairs,
                    i + 1,
                    query,
                    mutation,
                    subscription,
                    errs.push(
                        SpecParseError::DuplicateOperationRole {
                            role: pr.role.text,
                            position: pr.role.pos,
                        },
                    ),
                );
            } else {
                lemma_assign_keeps_first_rec(
                    pairs,
                    i + 1,
                    Some(pr.target),
                    mutation,
                    subscription,
                    errs,
                );
            }
        } else if pr.role.text == "mutation"@ {
            if mutation.is_some() {
                lemma_assign_keeps_first_rec(
                    pairs,
                    i + 1,
                    query,
                    mutation,
                    subscription,
                    errs.push(
                        SpecParseError::DuplicateOperationRole {
                            role: pr.role.text,
                            position: pr.role.pos,
                        },
                    ),
                );
            } else {
                lemma_assign_keeps_first_rec(
                    pairs,
                    i + 1,
                    query,
                    Some(pr.target),
                    subscription,
                    errs,
                );
            }
        } else if pr.role.text == "subscription"@ {
            if subscription.is_some() {
                lemma_assign_keeps_first_rec(
                    pairs,
                    i + 1,
                    query,
                    mutation,
                    subscription,
                    errs.push(
                        SpecParseError::DuplicateOperationRole {
                            role: pr.role.text,
                            position: pr.role.pos,
                        },
                    ),
                );
            } else {
                lemma_assign_keeps_first_rec(
                    pairs,
                    i + 1,
                    query,
                    mutation,
                    Some(pr.target),
                    errs,
                );
            }
        } else {
            lemma_assign_keeps_first_rec(
                pairs,
                i + 1,
                query,
                mutation,
                subscription,
                errs + spec_invalid_role_errors(pr.role),
            );
        }
    }
}

/// The three role keywords are pairwise distinct texts.
proof fn lemma_role_keywords_distinct()
    ensures
        "query"@ != "mutation"@,
        "query"@ != "subscription"@,
        "mutation"@ != "subscription"@,
{
    reveal_strlit("query");
    reveal_strlit("mutation");
    reveal_strlit("subscription");
    assert("query"@.len() == 5);
    assert("mutation"@.len() == 8);
    assert("subscription"@.len() == 12);
}

/// The role walk of a schema block records, for each legal role, the
/// type name of the first pair written for it: a repeated role adds a
/// duplicate diagnostic and never overwrites the value already recorded.
pub proof fn lemma_first_role_kept(pairs: Seq<SpecRolePair>)
    ensures
        ({
            let (q, m, sub, es) = spec_assign(pairs, 0, None, None, None, Seq::empty());
            q == spec_first_role(pairs, 0, "query"@) && m == spec_first_role(
                pairs,
                0,
                "mutation"@,
            ) && sub == spec_first_role(pairs, 0, "subscription"@)
        }),
{
    lemma_assign_keeps_first_rec(pairs, 0, None, None, None, Seq::empty());
}

/// True when `e` is a duplicate-role diagnostic for `role`.
pub open spec fn is_duplicate_diag(e: SpecParseError, role: Seq<char>) -> bool {
    match e {
        SpecParseError::DuplicateOperationRole { role: r, position } => r == role,
        _ => false,
    }
}

/// True when some entry of `errs` is a duplicate-role diagnostic for
/// `role`.
pub open spec fn contains_duplicate_diag(errs: Seq<SpecParseError>, role: Seq<char>) -> bool {
    exists|k: int| 0 <= k < errs.len() && is_duplicate_diag(#[trigger] errs[k], role)
}

/// The role walk only ever appends diagnostics: what is recorded stays.
proof fn lemma_assign_errs_grow(
    pairs: Seq<SpecRolePair>,
    i: int,
    query: Option<Seq<char>>,
    mutation: Option<Seq<char>>,
    subscription: Option<Seq<char>>,
    errs: Seq<SpecParseError>,
)
    requires
        0 <= i,
    ensures
        ({
            let (q, m, sub, es) = spec_assign(pairs, i, query, mutation, subscription, errs);
            es.len() >= errs.len() && forall|k: int| 0 <= k < errs.len() ==> es[k] == errs[k]
        }),
    decreases pairs.len() - i,
{
    if i < pairs.len() {
        let pr = pairs[i];
        if pr.role.text == "query"@ {
            if query.is_some() {
                lemma_assign_errs_grow(
                    pairs,
                    i + 1,
                    query,
                    mutation,
                    subscription,
                    errs.push(
                        SpecParseError::DuplicateOperationRole {
                            role: pr.role.text,
                            position: pr.role.pos,
                        },
                    ),
                );
            } else {
                lemma_assign_errs_grow(pairs, i + 1, Some(pr.target), mutation, subscription, errs);
            }
        } else if pr.role.text == "mutation"@ {
            if mutation.is_some() {
                lemma_assign_errs_grow(
                    pairs,
                    i + 1,
                    query,
                    mutation,
                    subscription,
                    errs.push(
                        SpecParseError::DuplicateOperationRole {
                            role: pr.role.text,
                            position: pr.role.pos,
                        },
                    ),
                );
            } else {
                lemma_assign_errs_grow(pairs, i + 1, query, Some(pr.target), subscription, errs);
            }
        } else if pr.role.text == "subscription"@ {
            if subscription.is_some() {
                lemma_assign_errs_grow(
                    pairs,
                    i + 1,
                    query,
                    mutation,
                    subscription,
                    errs.push(
                        SpecParseError::DuplicateOperationRole {
                            role: pr.role.text,
                            position: pr.role.pos,
                        },
                    ),
                );
            } else {
                lemma_assign_errs_grow(pairs, i + 1, query, mutation, Some(pr.target), errs);
            }
        } else {
            lemma_assign_errs_grow(
                pairs,
                i + 1,
                query,
                mutation,
                subscription,
                errs + spec_invalid_role_errors(pr.role),
            );
        }
    }
}

/// Once the slot for `role` is filled, a later pair with that role makes
/// the walk record a duplicate diagnostic for it.
proof fn lemma_assign_dup_from_filled(
    pairs: Seq<SpecRolePair>,
    i: int,
    j: int,
    query: Option<Seq<char>>,
    mutation: Option<Seq<char>>,
    subscription: Option<Seq<char>>,
    errs: Seq<SpecParseError>,
    role: Seq<char>,
)
    requires
        0 <= i <= j < pairs.len(),
        pairs[j].role.text == role,
        role == "query"@ || role == "mutation"@ || role == "subscription"@,
        role == "query"@ ==> query.is_some(),
        role == "mutation"@ ==> mutation.is_some(),
        role == "subscription"@ ==> subscription.is_some(),
    ensures
        contains_duplicate_diag(
            spec_assign(pairs, i, query, mutation, subscription, errs).3,
            role,
        ),
    decreases pairs.len() - i,
{
    lemma_role_keywords_distinct();
    let pr = pairs[i];
    if i == j {
        let pushed = errs.push(
            SpecParseError::DuplicateOperationRole { role: pr.role.text, position: pr.role.pos },
        );
        lemma_assign_errs_grow(pairs, i + 1, query, mutation, subscription, pushed);
        let es = spec_assign(pairs, i, query, mutation, subscription, errs).3;
        assert(is_duplicate_diag(es[errs.len() as int], role));
    } else {
        if pr.role.text == "query"@ {
            if query.is_some() {
                lemma_assign_dup_from_filled(
                    pairs,
                    i + 1,
                    j,
                    query,
                    mutation,
                    subscription,
                    errs.push(
                        SpecParseError::DuplicateOperationRole {
                            role: pr.role.text,
                            position: pr.role.pos,
                        },
                    ),
                    role,
                );
            } else {
                lemma_assign_dup_from_filled(
                    pairs,
                    i + 1,
                    j,
                    Some(pr.target),
                    mutation,
                    subscription,
                    errs,
                    role,
                );
            }
        } else if pr.role.text == "mutation"@ {
            if mutation.is_some() {
                lemma_assign_dup_from_filled(
                    pairs,
                    i + 1,
                    j,
                    query,
                    mutation,
                    subscription,
                    errs.push(
                        SpecParseError::DuplicateOperationRole {
                            role: pr.role.text,
                            position: pr.role.pos,
                        },
                    ),
                    role,
                );
            } else {
                lemma_assign_dup_from_filled(
                    pairs,
                    i + 1,
                    j,
                    query,
                    Some(pr.target),
                    subscription,
                    errs,
                    role,
                );
            }
        } else if pr.role.text == "subscription"@ {
            if subscription.is_some() {
                lemma_assign_dup_from_filled(
                    pairs,
                    i + 1,
                    j,
                    query,
                    mutation,
                    subscription,
                    errs.push(
                        SpecParseError::DuplicateOperationRole {
                            role: pr.role.text,
                            position: pr.role.pos,
                        },
                    ),
                    role,
                );
            } else {
                lemma_assign_dup_from_filled(
                    pairs,
                    i + 1,
                    j,
                    query,
                    mutation,
                    Some(pr.target),
                    errs,
                    role,
                );
            }
        } else {
            lemma_assign_dup_from_filled(
                pairs,
                i + 1,
                j,
                query,
                mutation,
                subscription,
                errs + spec_invalid_role_errors(pr.role),
                role,
            );
        }
    }
}

/// Walks up to the first of the two equal-role pairs, from which the slot
/// for that role is filled.
proof fn lemma_assign_dup_rec(
    pairs: Seq<SpecRolePair>,
    t: int,
    i: int,
    j: int,
    query: Option<Seq<char>>,
    mutation: Option<Seq<char>>,
    subscription: Option<Seq<char>>,
    errs: Seq<SpecParseError>,
)
    requires
        0 <= t <= i < j < pairs.len(),
        pairs[i].role.text == pairs[j].role.text,
        pairs[i].role.text == "query"@ || pairs[i].role.text == "mutation"@
            || pairs[i].role.text == "subscription"@,
    ensures
        contains_duplicate_diag(
            spec_assign(pairs, t, query, mutation, subscription, errs).3,
            pairs[i].role.text,
        ),
    decreases pairs.len() - t,
{
    lemma_role_keywords_distinct();
    let pr = pairs[t];
    let role = pairs[i].role.text;
    if t == i {
        if role == "query"@ {
            if query.is_some() {
                lemma_assign_dup_from_filled(pairs, t, j, query, mutation, subscription, errs, role);
            } else {
                lemma_assign_dup_from_filled(
                    pairs,
                    t + 1,
                    j,
                    Some(pr.target),
                    mutation,
                    subscription,
                    errs,
                    role,
                );
            }
        } else if role == "mutation"@ {
            if mutation.is_some() {
                lemma_assign_dup_from_filled(pairs, t, j, query, mutation, subscription, errs, role);
            } else {
                lemma_assign_dup_from_filled(
                    pairs,
                    t + 1,
                    j,
                    query,
                    Some(pr.target),
                    subscription,
                    errs,
                    role,
                );
            }
        } else {
            if subscription.is_some() {
                lemma_assign_dup_from_filled(pairs, t, j, query, mutation, subscription, errs, role);
            } else {
                lemma_assign_dup_from_filled(
                    pairs,
                    t + 1,
                    j,
                    query,
                    mutation,
                    Some(pr.target),
                    errs,
                    role,
                );
            }
        }
    } else {
        if pr.role.text == "query"@ {
            if query.is_some() {
                lemma_assign_dup_rec(
                    pairs,
                    t + 1,
                    i,
                    j,
                    query,
                    mutation,
                    subscription,
                    errs.push(
                        SpecParseError::DuplicateOperationRole {
                            role: pr.role.text,
                            position: pr.role.pos,
                        },
                    ),
                );
            } else {
                lemma_assign_dup_rec(
                    pairs,
                    t + 1,
                    i,
                    j,
                    Some(pr.target),
                    mutation,
                    subscription,
                    errs,
                );
            }
        } else if pr.role.text == "mutation"@ {
            if mutation.is_some() {
                lemma_assign_dup_rec(
                    pairs,
                    t + 1,
                    i,
                    j,
                    query,
                    mutation,
                    subscription,
                    errs.push(
                        SpecParseError::DuplicateOperationRole {
                            role: pr.role.text,
                            position: pr.role.pos,
                        },
                    ),
                );
            } else {
                lemma_assign_dup_rec(
                    pairs,
                    t + 1,
                    i,
                    j,
                    query,
                    Some(pr.target),
                    subscription,
                    errs,
                );
            }
        } else if pr.role.text == "subscription"@ {
            if subscription.is_some() {
                lemma_assign_dup_rec(
                    pairs,
                    t + 1,
                    i,
                    j,
                    query,
                    mutation,
                    subscription,
                    errs.push(
                        SpecParseError::DuplicateOperationRole {
                            role: pr.role.text,
                            position: pr.role.pos,
                        },
                    ),
                );
            } else {
                lemma_assign_dup_rec(
                    pairs,
                    t + 1,
                    i,
                    j,
                    query,
                    mutation,
                    Some(pr.target),
                    errs,
                );
            }
        } else {
            lemma_assign_dup_rec(
                pairs,
                t + 1,
                i,
                j,
                query,
                mutation,
                subscription,
                errs + spec_invalid_role_errors(pr.role),
            );
        }
    }
}

/// A repeated legal operation role never passes silently: when two pairs
/// of one schema block write the same legal role, the role walk records a
/// duplicate diagnostic for it, so the block fails with that diagnostic
/// in its error set.
pub proof fn lemma_duplicate_role_reported(pairs: Seq<SpecRolePair>, i: int, j: int)
    requires
        0 <= i < j < pairs.len(),
        pairs[i].role.text == pairs[j].role.text,
        pairs[i].role.text == "query"@ || pairs[i].role.text == "mutation"@
            || pairs[i].role.text == "subscription"@,
    ensures
        contains_duplicate_diag(
            spec_assign(pairs, 0, None, None, None, Seq::empty()).3,
            pairs[i].role.text,
        ),
{
    lemma_assign_dup_rec(pairs, 0, i, j, None, None, None, Seq::empty());
}

/// The empty text does not parse: it lexes to no tokens, and a document
/// requires at least one definition.
pub proof fn lemma_empty_text_fails()
    ensures
        spec_parse_text(Seq::<char>::empty()) == Err::<SpecDocument, SpecSchemaParseError>(
            spec_unexpected_end(Pos { line: 1, column: 1 }),
        ),
{
    assert(spec_tokenize(Seq::<char>::empty(), 0, 1, 1, Seq::empty()) == Ok::<
        _,
        SpecSchemaParseError,
    >((Seq::<SpecToken>::empty(), Pos { line: 1, column: 1 })));
}

/// Attaches the description parsed ahead of a type definition to the
/// variant that was parsed after it.  The variant rules are parsed without
/// the description so that no rule ever needs to backtrack past it; the
/// match enumerates every variant, constructible here or not, so a new
/// variant cannot silently skip this step.
fn with_description(def: TypeDefinition, description: Option<String>) -> (r: TypeDefinition)
    ensures
        r@ == spec_with_description(def@, description.deep_view()),
{
    match def {
        TypeDefinition::Scalar(t) => TypeDefinition::Scalar(
            ScalarType {
                position: t.position,
                description,
                name: t.name,
                directives: t.directives,
            },
        ),
        TypeDefinition::Object(t) => TypeDefinition::Object(
            ObjectType {
                position: t.position,
                description,
                name: t.name,
                implements_interfaces: t.implements_interfaces,
                directives: t.directives,
                fields: t.fields,
            },
        ),
        TypeDefinition::Interface(t) => TypeDefinition::Interface(
            crate::schema::ast::InterfaceType {
                position: t.position,
                description,
                name: t.name,
                directives: t.directives,
            },
        ),
        TypeDefinition::Union(t) => TypeDefinition::Union(
            crate::schema::ast::UnionType {
                position: t.position,
                description,
                name: t.name,
                directives: t.directives,
            },
        ),
        TypeDefinition::Enum(t) => TypeDefinition::Enum(
            crate::schema::ast::EnumType {
                position: t.position,
                description,
                name: t.name,
                directives: t.directives,
            },
        ),
        TypeDefinition::InputObject(t) => TypeDefinition::InputObject(
            crate::schema::ast::InputObjectType {
                position: t.position,
                description,
                name: t.name,
                directives: t.directives,
            },
        ),
    }
}

/// Parses a type definition: an optional description string, then the
/// variant whose keyword comes next, with the description patched on.
pub fn type_definition(input: &mut TokenStream) -> (r: Result<TypeDefinition, SchemaParseError>)
    requires
        old(input).wf(),
    ensures
        final(input).wf(),
        final(input)@ == old(input)@,
        match r {
            Ok(t) => spec_type_definition(old(input)@, old(input).offset as int) == Ok::<
                _,
                SpecSchemaParseError,
            >((t@, final(input).offset as int))
                && old(input).offset < final(input).offset,
            Err(e) => spec_type_definition(old(input)@, old(input).offset as int) == Err::<
                (SpecTypeDefinition, int),
                _,
            >(e@),
        },
{
    let description: Option<String> = if at_kind(input, Kind::StringValue) {
        match string(input) {
            Ok(v) => Some(v),
            Err(e) => return Err(e),
        }
    } else {
        None
    };
    if at_ident(input, "scalar") {
        match scalar_type(input) {
            Ok(t) => Ok(with_description(TypeDefinition::Scalar(t), description)),
            Err(e) => Err(e),
        }
    } else if at_ident(input, "type") {
        match object_type(input) {
            Ok(t) => Ok(with_description(TypeDefinition::Object(t), description)),
            Err(e) => Err(e),
        }
    } else if input.at_end() {
        Err(unexpected_end(input.end))
    } else {
        let pos = input.position();
        let alternatives = vec![String::from_str("scalar"), String::from_str("type")];
        let r = SchemaParseError {
            position: pos,
            errors: vec![ParseError::ExpectedOneOf { alternatives, position: pos }],
        };
        proof {
            assert(r@.errors =~~= spec_no_variant_error(input@, input.offset as int).errors);
        }
        Err(r)
    }
}

/// Parses one top-level definition: a schema block when the `schema`
/// keyword comes next, otherwise a type definition.
pub fn definition(input: &mut TokenStream) -> (r: Result<Definition, SchemaParseError>)
    requires
        old(input).wf(),
    ensures
        final(input).wf(),
        final(input)@ == old(input)@,
        match r {
            Ok(d) => spec_definition(old(input)@, old(input).offset as int) == Ok::<
                _,
                SpecSchemaParseError,
            >((d@, final(input).offset as int))
                && old(input).offset < final(input).offset,
            Err(e) => spec_definition(old(input)@, old(input).offset as int) == Err::<
                (SpecDefinition, int),
                _,
            >(e@),
        },
{
    if at_ident(input, "schema") {
        match schema(input) {
            Ok(d) => Ok(Definition::SchemaDefinition(d)),
            Err(e) => Err(e),
        }
    } else {
        match type_definition(input) {
            Ok(d) => Ok(Definition::TypeDefinition(d)),
            Err(e) => Err(e),
        }
    }
}

/// Parses a piece of schema language and returns its document: one or more
/// top-level definitions covering the whole text.  The result is a
/// function of the text alone, exactly `spec_parse_text`; an empty text,
/// and any text the grammar does not cover completely, is a failure.
pub fn parse_schema(s: &str) -> (r: Result<Document, SchemaParseError>)
    requires
        s@.len() < usize::MAX,
    ensures
        match r {
            Ok(d) => spec_parse_text(s@) == Ok::<_, SpecSchemaParseError>(d@),
            Err(e) => spec_parse_text(s@) == Err::<SpecDocument, _>(e@),
        },
{
    let mut input = match TokenStream::new(s) {
        Ok(t) => t,
        Err(e) => return Err(e),
    };
    let mut defs: Vec<Definition> = Vec::new();
    proof {
        assert(defs.deep_view() =~= Seq::<SpecDefinition>::empty());
    }
    loop
        invariant
            input.wf(),
            spec_stream(s@) == Ok::<SpecStream, SpecSchemaParseError>(input@),
            spec_definitions(input@, 0, Seq::empty()) == spec_definitions(
                input@,
                input.offset as int,
                defs.deep_view(),
            ),
        decreases input.tokens@.len() - input.offset,
    {
        if input.at_end() {
            if defs.len() == 0 {
                return Err(unexpected_end(input.end));
            }
            return Ok(Document { definitions: defs });
        }
        let ghost pre: Seq<SpecDefinition> = defs.deep_view();
        let d = match definition(&mut input) {
            Ok(d) => d,
            Err(e) => return Err(e),
        };
        defs.push(d);
        proof {
            assert(defs.deep_view() =~= pre.push(defs[defs.len() - 1]@));
        }
    }
}

} // verus!
