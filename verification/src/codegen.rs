//! The code generator.
//!
//! Each instruction maps to one emission operation against the channel sender
//! of the runtime bridge: a literal emits a constant chunk, a computed value
//! emits the expression's value, a computation is spliced verbatim so that
//! bindings it introduces stay in scope for later siblings, and conditionals
//! and loops map to the host's control constructs around recursively
//! generated bodies. At the top level the whole sequence is wrapped in the
//! bridge constructor.

use vstd::prelude::*;
use vstd::string::StrSliceExecFns;
use crate::tokens::{Delim, Tok, forest_size, tok_size};
use crate::intermediate::{Intermediate, inst_size, insts_size};

verus! {

/// Relies on String::push: appends the given character to the end of the
/// string.
#[verifier::external_body]
fn push_char(s: &mut String, c: char)
    ensures
        final(s)@ == old(s)@.push(c),
{
    s.push(c);
}

/// A character as it appears inside a generated string literal: backslashes
/// and double quotes get a leading backslash, and a carriage return becomes
/// the escape `\r`, since a bare one is not accepted inside a string literal.
pub open spec fn escape_char(c: char) -> Seq<char> {
    if c == '\\' || c == '"' {
        seq!['\\', c]
    } else if c == '\r' {
        seq!['\\', 'r']
    } else {
        seq![c]
    }
}

/// A text as it appears inside a generated string literal.
pub open spec fn escape_text(s: Seq<char>) -> Seq<char>
    decreases s.len(),
{
    if s.len() == 0 {
        Seq::empty()
    } else {
        escape_char(s[0]) + escape_text(s.drop_first())
    }
}

proof fn lemma_escape_text_snoc(a: Seq<char>, c: char)
    ensures
        escape_text(a.push(c)) == escape_text(a) + escape_char(c),
    decreases a.len(),
{
    if a.len() == 0 {
        assert(a.push(c)[0] == c);
        assert(a.push(c).drop_first() =~= Seq::<char>::empty());
        assert(escape_text(Seq::<char>::empty()) =~= Seq::<char>::empty());
        assert(escape_text(a.push(c)) =~= escape_text(a) + escape_char(c));
    } else {
        assert(a.push(c)[0] == a[0]);
        assert(a.push(c).drop_first() =~= a.drop_first().push(c));
        lemma_escape_text_snoc(a.drop_first(), c);
        assert(escape_text(a.push(c)) =~= escape_text(a) + escape_char(c));
    }
}

/// Escape a text for embedding in a generated string literal.
pub fn escape_literal(s: &str) -> (r: String)
    ensures
        r@ == escape_text(s@),
{
    let n = s.unicode_len();
    let mut out = String::new();
    let mut i: usize = 0;
    while i < n
        invariant
            i <= n,
            n == s@.len(),
            out@ == escape_text(s@.subrange(0, i as int)),
        decreases n - i,
    {
        let c = s.get_char(i);
        let ghost pre = s@.subrange(0, i as int);
        if c == '\\' || c == '"' {
            push_char(&mut out, '\\');
            push_char(&mut out, c);
        } else if c == '\r' {
            push_char(&mut out, '\\');
            push_char(&mut out, 'r');
        } else {
            push_char(&mut out, c);
        }
        proof {
            assert(s@.subrange(0, i + 1 as int) =~= pre.push(s@[i as int]));
            lemma_escape_text_snoc(pre, s@[i as int]);
            assert(out@ =~= escape_text(s@.subrange(0, i + 1 as int)));
        }
        i = i + 1;
    }
    proof {
        assert(s@.subrange(0, n as int) =~= s@);
    }
    out
}

/// The text of a group's opening delimiter.
pub open spec fn open_delim_text(d: Delim) -> Seq<char> {
    match d {
        Delim::Paren => "("@,
        Delim::Bracket => "["@,
        Delim::Brace => "{ "@,
    }
}

/// The text of a group's closing delimiter.
pub open spec fn close_delim_text(d: Delim) -> Seq<char> {
    match d {
        Delim::Paren => ") "@,
        Delim::Bracket => "] "@,
        Delim::Brace => "} "@,
    }
}

/// The generated text of one opaque token: identifiers and raw tokens keep
/// their text, string literals are re-quoted and escaped, punctuation joint
/// with its neighbour stays unseparated, and groups re-wrap their contents
/// in their delimiters.
pub open spec fn tok_text(t: Tok) -> Seq<char>
    decreases t,
{
    match t {
        Tok::Str(s, _) => "\""@ + escape_text(s@) + "\" "@,
        Tok::Ident(n, _) => n@ + " "@,
        Tok::Punct(c, joint, _) => if joint {
            seq![c]
        } else {
            seq![c] + " "@
        },
        Tok::Group(d, inner, _) => open_delim_text(d) + toks_text(inner@) + close_delim_text(d),
        Tok::Raw(s, _) => s@ + " "@,
    }
}

/// The generated text of a sequence of opaque tokens.
pub open spec fn toks_text(s: Seq<Tok>) -> Seq<char>
    decreases s,
{
    if s.len() == 0 {
        Seq::empty()
    } else {
        tok_text(s[0]) + toks_text(s.drop_first())
    }
}

/// The generated text of the tokens from index `i` on.
fn tokens_text_from(toks: &Vec<Tok>, i: usize) -> (r: String)
    requires
        i <= toks@.len(),
    ensures
        r@ == toks_text(toks@.skip(i as int)),
    decreases forest_size(toks@.skip(i as int)),
{
    let ghost s = toks@.skip(i as int);
    if i == toks.len() {
        let r = String::new();
        proof {
            assert(s =~= Seq::<Tok>::empty());
        }
        r
    } else {
        proof {
            assert(s[0] == toks@[i as int]);
            assert(s.drop_first() =~= toks@.skip(i + 1 as int));
            crate::tokens::lemma_forest_size_drop_first(s);
            crate::tokens::lemma_tok_size_pos(s[0]);
        }
        let mut out = match &toks[i] {
            Tok::Str(text, _) => {
                let mut o = String::from_str("\"");
                o.append(escape_literal(text.as_str()).as_str());
                o.append("\" ");
                o
            },
            Tok::Ident(n, _) => {
                let mut o = n.clone();
                o.append(" ");
                o
            },
            Tok::Punct(c, joint, _) => {
                let mut o = String::new();
                push_char(&mut o, *c);
                if !*joint {
                    o.append(" ");
                }
                proof {
                    assert(Seq::<char>::empty().push(*c) =~= seq![*c]);
                }
                o
            },
            Tok::Group(d, inner, _) => {
                proof {
                    assert(tok_size(s[0]) == 1 + forest_size(inner@));
                    assert(inner@.skip(0) =~= inner@);
                }
                let mut o = match d {
                    Delim::Paren => String::from_str("("),
                    Delim::Bracket => String::from_str("["),
                    Delim::Brace => String::from_str("{ "),
                };
                o.append(tokens_text_from(inner, 0).as_str());
                match d {
                    Delim::Paren => o.append(") "),
                    Delim::Bracket => o.append("] "),
                    Delim::Brace => o.append("} "),
                }
                o
            },
            Tok::Raw(text, _) => {
                let mut o = text.clone();
                o.append(" ");
                o
            },
        };
        assert(out@ == tok_text(s[0]));
        out.append(tokens_text_from(toks, i + 1).as_str());
        assert(out@ =~= toks_text(s));
        out
    }
}

/// The generated text of a token stream consumed opaquely: the expression
/// sub-language is reproduced token for token, never interpreted.
pub fn tokens_text(toks: &Vec<Tok>) -> (r: String)
    ensures
        r@ == toks_text(toks@),
{
    let r = tokens_text_from(toks, 0);
    proof {
        assert(toks@.skip(0) =~= toks@);
    }
    r
}

/// The generated text of one instruction.
pub open spec fn spec_codegen_intermediate(i: Intermediate) -> Seq<char>
    decreases i,
{
    match i {
        Intermediate::Literal(t, _) => "tx.send(::alloc::borrow::Cow::Borrowed(\""@ + escape_text(
            t@,
        ) + "\")).await.unwrap();\n"@,
        Intermediate::Computation(b, _) => toks_text(b@) + "\n"@,
        Intermediate::ComputedValue(e, _) => "tx.send("@ + toks_text(e@)
            + ").await.unwrap();\n"@,
        Intermediate::If(c, th, el, _) => "if "@ + toks_text(c@) + "{\n"@ + spec_codegen(th@)
            + "}"@ + match el {
            Some(e) => " else {\n"@ + spec_codegen(e@) + "}\n"@,
            None => "\n"@,
        },
        Intermediate::For(p, e, body, _) => "for "@ + toks_text(p@) + "in "@ + toks_text(e@)
            + "{\n"@ + spec_codegen(body@) + "}\n"@,
    }
}

/// The generated text of an instruction sequence, in order.
pub open spec fn spec_codegen(s: Seq<Intermediate>) -> Seq<char>
    decreases s,
{
    if s.len() == 0 {
        Seq::empty()
    } else {
        spec_codegen_intermediate(s[0]) + spec_codegen(s.drop_first())
    }
}

/// The generated text of a whole template: the instruction sequence wrapped
/// in the bridge constructor, so the produced value exposes a pull-based
/// sequence to the caller.
pub open spec fn spec_top_level(s: Seq<Intermediate>) -> Seq<char> {
    "{\nlet (tx, rx) = ::tokio::sync::mpsc::channel(1);\nlet future = async move {\n"@
        + spec_codegen(s)
        + "};\n::async_zero_cost_templating::TemplateToStream::new(future, rx)\n}\n"@
}

/// Generate the emission operation of one instruction.
pub fn codegen_intermediate(input: &Intermediate) -> (r: String)
    ensures
        r@ == spec_codegen_intermediate(*input),
    decreases inst_size(*input), 0int,
{
    match input {
        Intermediate::Literal(t, _) => {
            let mut s = String::from_str("tx.send(::alloc::borrow::Cow::Borrowed(\"");
            s.append(escape_literal(t.as_str()).as_str());
            s.append("\")).await.unwrap();\n");
            assert(s@ =~= spec_codegen_intermediate(*input));
            s
        },
        Intermediate::Computation(b, _) => {
            let mut s = tokens_text(b);
            s.append("\n");
            assert(s@ =~= spec_codegen_intermediate(*input));
            s
        },
        Intermediate::ComputedValue(e, _) => {
            let mut s = String::from_str("tx.send(");
            s.append(tokens_text(e).as_str());
            s.append(").await.unwrap();\n");
            assert(s@ =~= spec_codegen_intermediate(*input));
            s
        },
        Intermediate::If(c, th, el, _) => {
            proof {
                assert(inst_size(*input) == 1 + insts_size(th@) + match el {
                    Some(e) => insts_size(e@),
                    None => 0,
                });
            }
            let mut s = String::from_str("if ");
            s.append(tokens_text(c).as_str());
            s.append("{\n");
            s.append(codegen(th).as_str());
            s.append("}");
            match el {
                Some(e) => {
                    s.append(" else {\n");
                    s.append(codegen(e).as_str());
                    s.append("}\n");
                },
                None => {
                    s.append("\n");
                },
            }
            assert(s@ =~= spec_codegen_intermediate(*input));
            s
        },
        Intermediate::For(p, e, body, _) => {
            proof {
                assert(inst_size(*input) == 1 + insts_size(body@));
            }
            let mut s = String::from_str("for ");
            s.append(tokens_text(p).as_str());
            s.append("in ");
            s.append(tokens_text(e).as_str());
            s.append("{\n");
            s.append(codegen(body).as_str());
            s.append("}\n");
            assert(s@ =~= spec_codegen_intermediate(*input));
            s
        },
    }
}

/// The generated text of the instructions from index `i` on.
fn codegen_from(input: &Vec<Intermediate>, i: usize) -> (r: String)
    requires
        i <= input@.len(),
    ensures
        r@ == spec_codegen(input@.skip(i as int)),
    decreases insts_size(input@.skip(i as int)), 1int,
{
    let ghost s = input@.skip(i as int);
    if i == input.len() {
        let r = String::new();
        proof {
            assert(s =~= Seq::<Intermediate>::empty());
        }
        r
    } else {
        proof {
            assert(s[0] == input@[i as int]);
            assert(s.drop_first() =~= input@.skip(i + 1 as int));
            assert(insts_size(s) == inst_size(s[0]) + insts_size(s.drop_first()));
            assert(inst_size(s[0]) >= 1);
        }
        let mut out = codegen_intermediate(&input[i]);
        out.append(codegen_from(input, i + 1).as_str());
        assert(out@ =~= spec_codegen(s));
        out
    }
}

/// Generate the emission operations of an instruction sequence, in order.
pub fn codegen(input: &Vec<Intermediate>) -> (r: String)
    ensures
        r@ == spec_codegen(input@),
    decreases insts_size(input@), 2int,
{
    proof {
        assert(input@.skip(0) =~= input@);
    }
    codegen_from(input, 0)
}

/// Generate a whole template: the instruction sequence wrapped in the bridge
/// constructor.
pub fn top_level(input: &Vec<Intermediate>) -> (r: String)
    ensures
        r@ == spec_top_level(input@),
{
    let mut s = String::from_str(
        "{\nlet (tx, rx) = ::tokio::sync::mpsc::channel(1);\nlet future = async move {\n",
    );
    s.append(codegen(input).as_str());
    s.append("};\n::async_zero_cost_templating::TemplateToStream::new(future, rx)\n}\n");
    assert(s@ =~= spec_top_level(input@));
    s
}

} // verus!
