//! The lexer: turns source text into a sequence of classified,
//! position-tagged tokens.  Whitespace, commas and nothing else separate
//! tokens; a name is a letter or underscore followed by letters, digits or
//! underscores; a punctuator is a single character from a fixed set; a
//! string is double-quoted and must close on the same line.
//!
//! `spec_tokenize` is the specification of the whole lexer; `tokenize` and
//! `TokenStream::new` are proved to agree with it exactly.

use vstd::prelude::*;
use crate::position::Pos;
use crate::schema::error::{ParseError, SchemaParseError, SpecParseError, SpecSchemaParseError};

verus! {

/// The lexical class of a token.
#[derive(Clone, Copy, Debug, PartialEq, Eq, Structural)]
pub enum Kind {
    Punctuator,
    Name,
    StringValue,
}

/// One classified token: its class, its text and where it begins.  For a
/// string token the text is the contents between the quotes.
#[derive(Clone, Debug, PartialEq, Eq)]
pub struct Token {
    pub kind: Kind,
    pub text: String,
    pub pos: Pos,
}

#[verifier::ext_equal]
pub struct SpecToken {
    pub kind: Kind,
    pub text: Seq<char>,
    pub pos: Pos,
}

impl View for Token {
    type V = SpecToken;

    open spec fn view(&self) -> SpecToken {
        SpecToken { kind: self.kind, text: self.text@, pos: self.pos }
    }
}

impl DeepView for Token {
    type V = SpecToken;

    open spec fn deep_view(&self) -> SpecToken {
        self.view()
    }
}

/// The tokens of one source text together with the position just past the
/// last character, which diagnostics at end of input report.
#[verifier::ext_equal]
pub struct SpecStream {
    pub tokens: Seq<SpecToken>,
    pub end: Pos,
}

/// A fully lexed source text and a cursor into it.  Grammar rules consume
/// tokens left to right by advancing `offset`.
pub struct TokenStream {
    pub tokens: Vec<Token>,
    pub offset: usize,
    pub end: Pos,
}

impl View for TokenStream {
    type V = SpecStream;

    open spec fn view(&self) -> SpecStream {
        SpecStream { tokens: self.tokens.deep_view(), end: self.end }
    }
}

impl TokenStream {
    /// The cursor never passes the end of the token sequence.
    pub open spec fn wf(&self) -> bool {
        self.offset <= self.tokens.len()
    }
}

/// Space, tab, carriage return, newline and comma separate tokens and are
/// otherwise ignored.
pub open spec fn is_ws(c: char) -> bool {
    c == ' ' || c == '\t' || c == '\r' || c == '\n' || c == ','
}

/// A name begins with an ASCII letter or an underscore.
pub open spec fn is_name_start(c: char) -> bool {
    (97 <= c as u32 && c as u32 <= 122)  // a-z
    || (65 <= c as u32 && c as u32 <= 90)  // A-Z
    || c == '_'
}

/// After its first character a name may also contain ASCII digits.
pub open spec fn is_name_cont(c: char) -> bool {
    is_name_start(c) || (48 <= c as u32 && c as u32 <= 57)  // 0-9
}

/// The single-character punctuators of the language.
pub open spec fn is_punct_char(c: char) -> bool {
    c == '!' || c == '$' || c == '(' || c == ')' || c == ':' || c == '='
    || c == '@' || c == '[' || c == ']' || c == '{' || c == '}' || c == '|'
    || c == '&'
}

fn ws_char(c: char) -> (b: bool)
    ensures
        b == is_ws(c),
{
    c == ' ' || c == '\t' || c == '\r' || c == '\n' || c == ','
}

fn name_start_char(c: char) -> (b: bool)
    ensures
        b == is_name_start(c),
{
    (97 <= c as u32 && c as u32 <= 122) || (65 <= c as u32 && c as u32 <= 90) || c == '_'
}

fn name_cont_char(c: char) -> (b: bool)
    ensures
        b == is_name_cont(c),
{
    name_start_char(c) || (48 <= c as u32 && c as u32 <= 57)
}

fn punct_char(c: char) -> (b: bool)
    ensures
        b == is_punct_char(c),
{
    c == '!' || c == '$' || c == '(' || c == ')' || c == ':' || c == '=' || c == '@' || c == '['
        || c == ']' || c == '{' || c == '}' || c == '|' || c == '&'
}

/// The first index at or after `i` whose character cannot continue a name,
/// or the end of the text.
pub open spec fn spec_name_end(s: Seq<char>, i: int) -> int
    decreases s.len() - i,
{
    if 0 <= i < s.len() && is_name_cont(s[i]) {
        spec_name_end(s, i + 1)
    } else {
        i
    }
}

pub proof fn lemma_name_end_bounds(s: Seq<char>, i: int)
    requires
        0 <= i <= s.len(),
    ensures
        i <= spec_name_end(s, i) <= s.len(),
    decreases s.len() - i,
{
    if i < s.len() && is_name_cont(s[i]) {
        lemma_name_end_bounds(s, i + 1);
    }
}

/// The first index at or after `i` holding a closing quote or a newline,
/// or the end of the text.
pub open spec fn spec_string_end(s: Seq<char>, i: int) -> int
    decreases s.len() - i,
{
    if 0 <= i < s.len() && s[i] != '"' && s[i] != '\n' {
        spec_string_end(s, i + 1)
    } else {
        i
    }
}

pub proof fn lemma_string_end_bounds(s: Seq<char>, i: int)
    requires
        0 <= i <= s.len(),
    ensures
        i <= spec_string_end(s, i) <= s.len(),
    decreases s.len() - i,
{
    if i < s.len() && s[i] != '"' && s[i] != '\n' {
        lemma_string_end_bounds(s, i + 1);
    }
}

/// A lexing failure: the offending character, at its position.
pub open spec fn spec_char_error(s: Seq<char>, i: int, line: int, col: int) -> SpecSchemaParseError {
    SpecSchemaParseError {
        position: Pos { line: line as usize, column: col as usize },
        errors: seq![
            SpecParseError::UnexpectedToken {
                found: s.subrange(i, i + 1),
                position: Pos { line: line as usize, column: col as usize },
            },
        ],
    }
}

/// The lexer, one token or separator character per recursive step.
/// `line` and `col` locate `s[i]`; `acc` holds the tokens already cut.
/// Success yields all tokens and the position just past the text.
pub open spec fn spec_tokenize(
    s: Seq<char>,
    i: int,
    line: int,
    col: int,
    acc: Seq<SpecToken>,
) -> Result<(Seq<SpecToken>, Pos), SpecSchemaParseError>
    decreases s.len() - i,
{
    if i < 0 || i >= s.len() {
        Ok((acc, Pos { line: line as usize, column: col as usize }))
    } else {
        let c = s[i];
        if c == '\n' {
            spec_tokenize(s, i + 1, line + 1, 1, acc)
        } else if is_ws(c) {
            spec_tokenize(s, i + 1, line, col + 1, acc)
        } else if is_name_start(c) {
            let j = spec_name_end(s, i + 1);
            proof {
                lemma_name_end_bounds(s, i + 1);
            }
            spec_tokenize(
                s,
                j,
                line,
                col + (j - i),
                acc.push(
                    SpecToken {
                        kind: Kind::Name,
                        text: s.subrange(i, j),
                        pos: Pos { line: line as usize, column: col as usize },
                    },
                ),
            )
        } else if is_punct_char(c) {
            spec_tokenize(
                s,
                i + 1,
                line,
                col + 1,
                acc.push(
                    SpecToken {
                        kind: Kind::Punctuator,
                        text: s.subrange(i, i + 1),
                        pos: Pos { line: line as usize, column: col as usize },
                    },
                ),
            )
        } else if c == '"' {
            let j = spec_string_end(s, i + 1);
            proof {
                lemma_string_end_bounds(s, i + 1);
            }
            if j < s.len() && s[j] == '"' {
                spec_tokenize(
                    s,
                    j + 1,
                    line,
                    col + (j + 1 - i),
                    acc.push(
                        SpecToken {
                            kind: Kind::StringValue,
                            text: s.subrange(i + 1, j),
                            pos: Pos { line: line as usize, column: col as usize },
                        },
                    ),
                )
            } else {
                Err(spec_char_error(s, i, line, col))
            }
        } else {
            Err(spec_char_error(s, i, line, col))
        }
    }
}

/// The token stream of a whole text, or its first lexing failure.
pub open spec fn spec_stream(text: Seq<char>) -> Result<SpecStream, SpecSchemaParseError> {
    match spec_tokenize(text, 0, 1, 1, Seq::empty()) {
        Ok((tokens, end)) => Ok(SpecStream { tokens, end }),
        Err(e) => Err(e),
    }
}

/// Builds the failure value for the character at `i`.
fn char_error(s: &str, i: usize, line: usize, col: usize) -> (r: SchemaParseError)
    requires
        i < s@.len(),
        s@.len() < usize::MAX,
    ensures
        r@ == spec_char_error(s@, i as int, line as int, col as int),
{
    let position = Pos { line, column: col };
    let found = String::from_str(s.substring_char(i, i + 1));
    let r = SchemaParseError {
        position,
        errors: vec![ParseError::UnexpectedToken { found, position }],
    };
    proof {
        assert(r@.errors =~= spec_char_error(s@, i as int, line as int, col as int).errors);
    }
    r
}

/// Lexes the whole text, yielding the tokens and the position just past
/// the last character, exactly as `spec_tokenize` describes.
pub fn tokenize(s: &str) -> (r: Result<(Vec<Token>, Pos), SchemaParseError>)
    requires
        s@.len() < usize::MAX,
    ensures
        match r {
            Ok(p) => spec_tokenize(s@, 0, 1, 1, Seq::empty()) == Ok::<_, SpecSchemaParseError>(
                (p.0.deep_view(), p.1),
            ),
            Err(e) => spec_tokenize(s@, 0, 1, 1, Seq::empty()) == Err::<
                (Seq<SpecToken>, Pos),
                _,
            >(e@),
        },
{
    let n = s.unicode_len();
    let mut toks: Vec<Token> = Vec::new();
    let mut i: usize = 0;
    let mut line: usize = 1;
    let mut col: usize = 1;
    proof {
        assert(toks.deep_view() =~= Seq::<SpecToken>::empty());
    }
    loop
        invariant
            n == s@.len(),
            n < usize::MAX,
            i <= n,
            1 <= line <= i + 1,
            1 <= col <= i + 1,
            spec_tokenize(s@, 0, 1, 1, Seq::empty()) == spec_tokenize(
                s@,
                i as int,
                line as int,
                col as int,
                toks.deep_view(),
            ),
        decreases n - i,
    {
        if i >= n {
            return Ok((toks, Pos { line, column: col }));
        }
        let ghost pre: Seq<SpecToken> = toks.deep_view();
        let c = s.get_char(i);
        if c == '\n' {
            i = i + 1;
            line = line + 1;
            col = 1;
        } else if ws_char(c) {
            i = i + 1;
            col = col + 1;
        } else if name_start_char(c) {
            let mut j = i + 1;
            while j < n && name_cont_char(s.get_char(j))
                invariant
                    n == s@.len(),
                    i + 1 <= j <= n,
                    spec_name_end(s@, i + 1) == spec_name_end(s@, j as int),
                decreases n - j,
            {
                j = j + 1;
            }
            proof {
                lemma_name_end_bounds(s@, i + 1);
                assert(spec_name_end(s@, j as int) == j);
            }
            let text = String::from_str(s.substring_char(i, j));
            toks.push(Token { kind: Kind::Name, text, pos: Pos { line, column: col } });
            proof {
                assert(toks.deep_view() =~= pre.push(
                    SpecToken {
                        kind: Kind::Name,
                        text: s@.subrange(i as int, j as int),
                        pos: Pos { line, column: col },
                    },
                ));
            }
            col = col + (j - i);
            i = j;
        } else if punct_char(c) {
            let text = String::from_str(s.substring_char(i, i + 1));
            toks.push(Token { kind: Kind::Punctuator, text, pos: Pos { line, column: col } });
            proof {
                assert(toks.deep_view() =~= pre.push(
                    SpecToken {
                        kind: Kind::Punctuator,
                        text: s@.subrange(i as int, i + 1),
                        pos: Pos { line, column: col },
                    },
                ));
            }
            i = i + 1;
            col = col + 1;
        } else if c == '"' {
            let mut j = i + 1;
            while j < n && s.get_char(j) != '"' && s.get_char(j) != '\n'
                invariant
                    n == s@.len(),
                    i + 1 <= j <= n,
                    spec_string_end(s@, i + 1) == spec_string_end(s@, j as int),
                decreases n - j,
            {
                j = j + 1;
            }
            proof {
                lemma_string_end_bounds(s@, i + 1);
                assert(spec_string_end(s@, j as int) == j);
            }
            if j < n && s.get_char(j) == '"' {
                let text = String::from_str(s.substring_char(i + 1, j));
                toks.push(Token { kind: Kind::StringValue, text, pos: Pos { line, column: col } });
                proof {
                    assert(toks.deep_view() =~= pre.push(
                        SpecToken {
                            kind: Kind::StringValue,
                            text: s@.subrange(i + 1, j as int),
                            pos: Pos { line, column: col },
                        },
                    ));
                }
                col = col + (j + 1 - i);
                i = j + 1;
            } else {
                return Err(char_error(s, i, line, col));
            }
        } else {
            return Err(char_error(s, i, line, col));
        }
    }
}

impl TokenStream {
    /// Lexes `s` into a fresh stream with the cursor at the first token.
    pub fn new(s: &str) -> (r: Result<TokenStream, SchemaParseError>)
        requires
            s@.len() < usize::MAX,
        ensures
            match r {
                Ok(ts) => ts.wf() && ts.offset == 0 && spec_stream(s@) == Ok::<
                    _,
                    SpecSchemaParseError,
                >(ts@),
                Err(e) => spec_stream(s@) == Err::<SpecStream, _>(e@),
            },
    {
        match tokenize(s) {
            Ok((tokens, end)) => Ok(TokenStream { tokens, offset: 0, end }),
            Err(e) => Err(e),
        }
    }

    /// True when every token has been consumed.
    pub fn at_end(&self) -> (b: bool)
        ensures
            b == (self.offset == self.tokens@.len()),
    {
        self.offset == self.tokens.len()
    }
}

/// The position a rule reports at cursor `p`: the next token's, or the end
/// of the text once the tokens are exhausted.
pub open spec fn spec_position(s: SpecStream, p: int) -> Pos {
    if 0 <= p < s.tokens.len() {
        s.tokens[p].pos
    } else {
        s.end
    }
}

impl TokenStream {
    /// The position of the next token, or of the end of the text.
    pub fn position(&self) -> (p: Pos)
        requires
            self.wf(),
        ensures
            p == spec_position(self@, self.offset as int),
    {
        if self.offset < self.tokens.len() {
            self.tokens[self.offset].pos
        } else {
            self.end
        }
    }
}

} // verus!
