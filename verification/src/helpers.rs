//! Single-token matchers.  Each consumes exactly one token of the required
//! shape, or fails without moving the cursor, so ordered-choice callers may
//! peek and try alternatives safely.

use vstd::prelude::*;
use crate::position::Pos;
use crate::tokenizer::{Kind, SpecStream, SpecToken, Token, TokenStream};
use crate::schema::error::{ParseError, SchemaParseError, SpecParseError, SpecSchemaParseError};

verus! {

/// The failure of a matcher that found the wrong token.
pub open spec fn spec_unexpected_token(tok: SpecToken) -> SpecSchemaParseError {
    SpecSchemaParseError {
        position: tok.pos,
        errors: seq![SpecParseError::UnexpectedToken { found: tok.text, position: tok.pos }],
    }
}

/// The failure of a matcher that found the end of the input.
pub open spec fn spec_unexpected_end(end: Pos) -> SpecSchemaParseError {
    SpecSchemaParseError {
        position: end,
        errors: seq![SpecParseError::UnexpectedEnd { position: end }],
    }
}

/// True when the token at `p` is the punctuator `t`.
pub open spec fn spec_at_punct(s: SpecStream, p: int, t: Seq<char>) -> bool {
    0 <= p < s.tokens.len() && s.tokens[p].kind == Kind::Punctuator && s.tokens[p].text == t
}

/// True when the token at `p` is a name whose text is `t`.
pub open spec fn spec_at_ident(s: SpecStream, p: int, t: Seq<char>) -> bool {
    0 <= p < s.tokens.len() && s.tokens[p].kind == Kind::Name && s.tokens[p].text == t
}

/// True when the token at `p` has lexical kind `k`.
pub open spec fn spec_at_kind(s: SpecStream, p: int, k: Kind) -> bool {
    0 <= p < s.tokens.len() && s.tokens[p].kind == k
}

/// Consuming the punctuator `t` at `p`: the token and the new cursor, or
/// a positioned failure that leaves the cursor where it was.
pub open spec fn spec_punct(s: SpecStream, p: int, t: Seq<char>) -> Result<
    (SpecToken, int),
    SpecSchemaParseError,
> {
    if p < 0 || p >= s.tokens.len() {
        Err(spec_unexpected_end(s.end))
    } else if s.tokens[p].kind == Kind::Punctuator && s.tokens[p].text == t {
        Ok((s.tokens[p], p + 1))
    } else {
        Err(spec_unexpected_token(s.tokens[p]))
    }
}

/// Consuming the keyword `t`: a name token with exactly that text.
pub open spec fn spec_ident(s: SpecStream, p: int, t: Seq<char>) -> Result<
    (SpecToken, int),
    SpecSchemaParseError,
> {
    if p < 0 || p >= s.tokens.len() {
        Err(spec_unexpected_end(s.end))
    } else if s.tokens[p].kind == Kind::Name && s.tokens[p].text == t {
        Ok((s.tokens[p], p + 1))
    } else {
        Err(spec_unexpected_token(s.tokens[p]))
    }
}

/// Consuming one token of kind `k`, whatever its text.
pub open spec fn spec_kind(s: SpecStream, p: int, k: Kind) -> Result<
    (SpecToken, int),
    SpecSchemaParseError,
> {
    if p < 0 || p >= s.tokens.len() {
        Err(spec_unexpected_end(s.end))
    } else if s.tokens[p].kind == k {
        Ok((s.tokens[p], p + 1))
    } else {
        Err(spec_unexpected_token(s.tokens[p]))
    }
}

/// Consuming one name token and yielding its text.
pub open spec fn spec_name(s: SpecStream, p: int) -> Result<
    (Seq<char>, int),
    SpecSchemaParseError,
> {
    match spec_kind(s, p, Kind::Name) {
        Ok((tok, q)) => Ok((tok.text, q)),
        Err(e) => Err(e),
    }
}

/// Builds the failure value for a wrong token.
pub fn unexpected_token(tok: &Token) -> (r: SchemaParseError)
    ensures
        r@ == spec_unexpected_token(tok@),
{
    let found = tok.text.clone();
    let r = SchemaParseError {
        position: tok.pos,
        errors: vec![ParseError::UnexpectedToken { found, position: tok.pos }],
    };
    proof {
        assert(r@.errors =~= spec_unexpected_token(tok@).errors);
    }
    r
}

/// Builds the failure value for a missing token.
pub fn unexpected_end(end: Pos) -> (r: SchemaParseError)
    ensures
        r@ == spec_unexpected_end(end),
{
    let r = SchemaParseError {
        position: end,
        errors: vec![ParseError::UnexpectedEnd { position: end }],
    };
    proof {
        assert(r@.errors =~= spec_unexpected_end(end).errors);
    }
    r
}

/// A copy of the token under the cursor.
fn copy_token(tok: &Token) -> (r: Token)
    ensures
        r@ == tok@,
{
    Token { kind: tok.kind, text: tok.text.clone(), pos: tok.pos }
}

/// True when the next token is the punctuator `t`; consumes nothing.
pub fn at_punct(input: &TokenStream, t: &str) -> (b: bool)
    requires
        input.wf(),
    ensures
        b == spec_at_punct(input@, input.offset as int, t@),
{
    input.offset < input.tokens.len() && input.tokens[input.offset].kind == Kind::Punctuator
        && input.tokens[input.offset].text == String::from_str(t)
}

/// True when the next token is a name with text `t`; consumes nothing.
pub fn at_ident(input: &TokenStream, t: &str) -> (b: bool)
    requires
        input.wf(),
    ensures
        b == spec_at_ident(input@, input.offset as int, t@),
{
    input.offset < input.tokens.len() && input.tokens[input.offset].kind == Kind::Name
        && input.tokens[input.offset].text == String::from_str(t)
}

/// True when the next token has kind `k`; consumes nothing.
pub fn at_kind(input: &TokenStream, k: Kind) -> (b: bool)
    requires
        input.wf(),
    ensures
        b == spec_at_kind(input@, input.offset as int, k),
{
    input.offset < input.tokens.len() && input.tokens[input.offset].kind == k
}

/// Consumes the punctuator `t`, or fails without moving the cursor.
pub fn punct(input: &mut TokenStream, t: &str) -> (r: Result<Token, SchemaParseError>)
    requires
        old(input).wf(),
    ensures
        final(input).wf(),
        final(input)@ == old(input)@,
        match r {
            Ok(tok) => spec_punct(old(input)@, old(input).offset as int, t@) == Ok::<
                _,
                SpecSchemaParseError,
            >((tok@, final(input).offset as int)) && final(input).offset == old(input).offset + 1,
            Err(e) => spec_punct(old(input)@, old(input).offset as int, t@) == Err::<
                (SpecToken, int),
                _,
            >(e@) && final(input).offset == old(input).offset,
        },
{
    if input.offset < input.tokens.len() {
        let tok = copy_token(&input.tokens[input.offset]);
        if tok.kind == Kind::Punctuator && tok.text == String::from_str(t) {
            input.offset = input.offset + 1;
            Ok(tok)
        } else {
            Err(unexpected_token(&tok))
        }
    } else {
        Err(unexpected_end(input.end))
    }
}

/// Consumes the keyword `t` (a name token with that text), or fails
/// without moving the cursor.
pub fn ident(input: &mut TokenStream, t: &str) -> (r: Result<Token, SchemaParseError>)
    requires
        old(input).wf(),
    ensures
        final(input).wf(),
        final(input)@ == old(input)@,
        match r {
            Ok(tok) => spec_ident(old(input)@, old(input).offset as int, t@) == Ok::<
                _,
                SpecSchemaParseError,
            >((tok@, final(input).offset as int)) && final(input).offset == old(input).offset + 1,
            Err(e) => spec_ident(old(input)@, old(input).offset as int, t@) == Err::<
                (SpecToken, int),
                _,
            >(e@) && final(input).offset == old(input).offset,
        },
{
    if input.offset < input.tokens.len() {
        let tok = copy_token(&input.tokens[input.offset]);
        if tok.kind == Kind::Name && tok.text == String::from_str(t) {
            input.offset = input.offset + 1;
            Ok(tok)
        } else {
            Err(unexpected_token(&tok))
        }
    } else {
        Err(unexpected_end(input.end))
    }
}

/// Consumes one token of kind `k`, or fails without moving the cursor.
pub fn kind(input: &mut TokenStream, k: Kind) -> (r: Result<Token, SchemaParseError>)
    requires
        old(input).wf(),
    ensures
        final(input).wf(),
        final(input)@ == old(input)@,
        match r {
            Ok(tok) => spec_kind(old(input)@, old(input).offset as int, k) == Ok::<
                _,
                SpecSchemaParseError,
            >((tok@, final(input).offset as int)) && final(input).offset == old(input).offset + 1,
            Err(e) => spec_kind(old(input)@, old(input).offset as int, k) == Err::<
                (SpecToken, int),
                _,
            >(e@) && final(input).offset == old(input).offset,
        },
{
    if input.offset < input.tokens.len() {
        let tok = copy_token(&input.tokens[input.offset]);
        if tok.kind == k {
            input.offset = input.offset + 1;
            Ok(tok)
        } else {
            Err(unexpected_token(&tok))
        }
    } else {
        Err(unexpected_end(input.end))
    }
}

/// Consumes one name token and yields its text, or fails without moving
/// the cursor.
pub fn name(input: &mut TokenStream) -> (r: Result<String, SchemaParseError>)
    requires
        old(input).wf(),
    ensures
        final(input).wf(),
        final(input)@ == old(input)@,
        match r {
            Ok(text) => spec_name(old(input)@, old(input).offset as int) == Ok::<
                _,
                SpecSchemaParseError,
            >((text@, final(input).offset as int)) && final(input).offset == old(input).offset + 1,
            Err(e) => spec_name(old(input)@, old(input).offset as int) == Err::<
                (Seq<char>, int),
                _,
            >(e@) && final(input).offset == old(input).offset,
        },
{
    match kind(input, Kind::Name) {
        Ok(tok) => Ok(tok.text),
        Err(e) => Err(e),
    }
}

} // verus!
