//! Sub-parsers shared by several grammar rules: the directive list and the
//! description string.

use vstd::prelude::*;
use crate::schema::ast::{Directive, SpecDirective};
use crate::schema::error::{SchemaParseError, SpecSchemaParseError};
use crate::helpers::{at_punct, kind, name, punct, spec_at_punct, spec_kind, spec_name};
use crate::tokenizer::{Kind, SpecStream, TokenStream};

verus! {

/// Zero or more directives, each `@` followed by a name, gathered onto
/// `acc`.  A `@` not followed by a name is a failure; anything else ends
/// the list without being consumed.
pub open spec fn spec_directives(s: SpecStream, p: int, acc: Seq<SpecDirective>) -> Result<
    (Seq<SpecDirective>, int),
    SpecSchemaParseError,
>
    decreases s.tokens.len() - p,
{
    if !spec_at_punct(s, p, "@"@) {
        Ok((acc, p))
    } else {
        let dpos = s.tokens[p].pos;
        match spec_name(s, p + 1) {
            Ok((nm, q)) => spec_directives(s, q, acc.push(SpecDirective { position: dpos, name: nm })),
            Err(e) => Err(e),
        }
    }
}

/// On success the cursor never moves backwards and stays inside the
/// stream.
pub proof fn lemma_directives_progress(s: SpecStream, p: int, acc: Seq<SpecDirective>)
    requires
        0 <= p <= s.tokens.len(),
    ensures
        match spec_directives(s, p, acc) {
            Ok((ds, q)) => p <= q <= s.tokens.len(),
            Err(e) => true,
        },
    decreases s.tokens.len() - p,
{
    if spec_at_punct(s, p, "@"@) {
        match spec_name(s, p + 1) {
            Ok((nm, q)) => {
                lemma_directives_progress(s, q, acc.push(SpecDirective { position: s.tokens[p].pos, name: nm }));
            },
            Err(e) => {},
        }
    }
}

/// One string token, yielding the text between its quotes.
pub open spec fn spec_string(s: SpecStream, p: int) -> Result<
    (Seq<char>, int),
    SpecSchemaParseError,
> {
    match spec_kind(s, p, Kind::StringValue) {
        Ok((tok, q)) => Ok((tok.text, q)),
        Err(e) => Err(e),
    }
}

/// Parses the directive list attached to a definition.
pub fn directives(input: &mut TokenStream) -> (r: Result<Vec<Directive>, SchemaParseError>)
    requires
        old(input).wf(),
    ensures
        final(input).wf(),
        final(input)@ == old(input)@,
        match r {
            Ok(ds) => spec_directives(old(input)@, old(input).offset as int, Seq::empty()) == Ok::<
                _,
                SpecSchemaParseError,
            >((ds.deep_view(), final(input).offset as int))
                && old(input).offset <= final(input).offset,
            Err(e) => spec_directives(old(input)@, old(input).offset as int, Seq::empty()) == Err::<
                (Seq<SpecDirective>, int),
                _,
            >(e@),
        },
{
    let mut ds: Vec<Directive> = Vec::new();
    proof {
        assert(ds.deep_view() =~= Seq::<SpecDirective>::empty());
    }
    loop
        invariant
            input.wf(),
            input@ == old(input)@,
            old(input).offset <= input.offset,
            spec_directives(old(input)@, old(input).offset as int, Seq::empty())
                == spec_directives(input@, input.offset as int, ds.deep_view()),
        decreases input.tokens@.len() - input.offset,
    {
        if !at_punct(input, "@") {
            return Ok(ds);
        }
        let ghost pre: Seq<SpecDirective> = ds.deep_view();
        let at_tok = match punct(input, "@") {
            Ok(t) => t,
            Err(e) => return Err(e),
        };
        let nm = match name(input) {
            Ok(v) => v,
            Err(e) => return Err(e),
        };
        ds.push(Directive { position: at_tok.pos, name: nm });
        proof {
            assert(ds.deep_view() =~= pre.push(
                SpecDirective { position: at_tok.pos, name: nm@ },
            ));
        }
    }
}

/// Parses one description string.
pub fn string(input: &mut TokenStream) -> (r: Result<String, SchemaParseError>)
    requires
        old(input).wf(),
    ensures
        final(input).wf(),
        final(input)@ == old(input)@,
        match r {
            Ok(text) => spec_string(old(input)@, old(input).offset as int) == Ok::<
                _,
                SpecSchemaParseError,
            >((text@, final(input).offset as int)) && final(input).offset == old(input).offset + 1,
            Err(e) => spec_string(old(input)@, old(input).offset as int) == Err::<
                (Seq<char>, int),
                _,
            >(e@) && final(input).offset == old(input).offset,
        },
{
    match kind(input, Kind::StringValue) {
        Ok(tok) => Ok(tok.text),
        Err(e) => Err(e),
    }
}

} // verus!
