//! The token model the compiler works on.
//!
//! A template arrives as a stream of tokens: string literals, identifiers,
//! punctuation, and delimited groups whose contents are themselves token
//! streams. Every token carries a source span so that diagnostics can point
//! back into the template text.

use vstd::prelude::*;

verus! {

/// A half-open range of positions in the template source text.
#[derive(Clone, Copy, PartialEq, Eq, Structural, Debug)]
pub struct Span {
    pub lo: usize,
    pub hi: usize,
}

impl Span {
    /// The smallest span covering both `self` and `other`.
    pub fn join(self, other: Span) -> (r: Span)
        ensures
            r == spec_join(self, other),
    {
        Span {
            lo: if self.lo <= other.lo {
                self.lo
            } else {
                other.lo
            },
            hi: if self.hi >= other.hi {
                self.hi
            } else {
                other.hi
            },
        }
    }
}

/// The smallest span covering both arguments.
pub open spec fn spec_join(a: Span, b: Span) -> Span {
    Span {
        lo: if a.lo <= b.lo {
            a.lo
        } else {
            b.lo
        },
        hi: if a.hi >= b.hi {
            a.hi
        } else {
            b.hi
        },
    }
}

/// The delimiter of a token group.
#[derive(Clone, Copy, PartialEq, Eq, Structural, Debug)]
pub enum Delim {
    Paren,
    Bracket,
    Brace,
}

/// One token of the template surface syntax.
///
/// Keywords such as `if` or `for` are `Ident` tokens; the parser recognises
/// them by name. Tokens that the grammar does not interpret (numbers, the
/// punctuation inside embedded expressions) are carried opaquely as `Raw`
/// tokens holding their source text.
#[derive(Debug)]
pub enum Tok {
    /// A string literal, holding its value (unescaped).
    Str(String, Span),
    /// An identifier or keyword.
    Ident(String, Span),
    /// A single punctuation character; the flag says whether it is joint with
    /// the next token (as the two halves of a two-character operator are), so
    /// that generated text can keep them together.
    Punct(char, bool, Span),
    /// A delimited group with a nested token stream.
    Group(Delim, Vec<Tok>, Span),
    /// Any other token, carried by its source text.
    Raw(String, Span),
}

impl Tok {
    /// The source span of this token.
    pub fn span(&self) -> (r: Span)
        ensures
            r == spec_tok_span(*self),
    {
        match self {
            Tok::Str(_, sp) => *sp,
            Tok::Ident(_, sp) => *sp,
            Tok::Punct(_, _, sp) => *sp,
            Tok::Group(_, _, sp) => *sp,
            Tok::Raw(_, sp) => *sp,
        }
    }
}

/// The source span of a token.
pub open spec fn spec_tok_span(t: Tok) -> Span {
    match t {
        Tok::Str(_, sp) => sp,
        Tok::Ident(_, sp) => sp,
        Tok::Punct(_, _, sp) => sp,
        Tok::Group(_, _, sp) => sp,
        Tok::Raw(_, sp) => sp,
    }
}

/// The size of a token, counting it and everything nested inside it.
/// Always at least one; the termination measure of the parser.
pub open spec fn tok_size(t: Tok) -> nat
    decreases t,
{
    match t {
        Tok::Group(_, inner, _) => 1 + forest_size(inner@),
        _ => 1,
    }
}

/// The total size of a token stream.
pub open spec fn forest_size(s: Seq<Tok>) -> nat
    decreases s,
{
    if s.len() == 0 {
        0
    } else {
        tok_size(s[0]) + forest_size(s.drop_first())
    }
}

/// Every token has positive size, so consuming one strictly shrinks a stream.
pub proof fn lemma_tok_size_pos(t: Tok)
    ensures
        tok_size(t) >= 1,
{
}

/// Removing the front token shrinks the stream's size by exactly that token.
pub proof fn lemma_forest_size_drop_first(s: Seq<Tok>)
    requires
        s.len() > 0,
    ensures
        forest_size(s.drop_first()) == forest_size(s) - tok_size(s[0]),
{
}

} // verus!
