//! The error-recovering recursive-descent parser.
//!
//! The parser consumes a token stream from the front and produces a node tree
//! together with diagnostics. Production selection is by first-token
//! lookahead. On a production failure inside a repetition loop it records a
//! diagnostic, advances by exactly one token, and continues, so one
//! compilation surfaces every independent structural error and the parser
//! always makes forward progress.
//!
//! Each production has a specification-level counterpart (`spec_parse_*`)
//! giving, as a function of the input stream alone, the parsed shape, the
//! stream left behind, and the diagnostics recorded; every executable
//! function is proved to return exactly that. The specification guards its
//! recursion on the forward progress the executable parser guarantees, so
//! the guards hold on every path the parser takes.

use vstd::prelude::*;
use crate::tokens::{
    Delim,
    Span,
    Tok,
    forest_size,
    lemma_forest_size_drop_first,
    lemma_tok_size_pos,
    spec_tok_span,
    tok_size,
};
use crate::diagnostics::{
    DiagV,
    Diagnostic,
    add_note_all,
    diag_view,
    diags_extended,
    diags_view,
    lemma_diags_view_concat,
    lemma_diags_view_push,
    plain_diag,
    with_note,
};
use crate::ast::{
    AttrV,
    AttributeKey,
    AvNodeV,
    DashOrColon,
    ElNodeV,
    ElementV,
    HtmlAttribute,
    HtmlClose,
    HtmlElement,
    HtmlInAttributeValueContext,
    HtmlInElementContext,
    HtmlTag,
    KeySegment,
    KeyV,
    attr_view,
    attrs_view,
    av_node_view,
    av_nodes_view,
    el_node_view,
    el_nodes_view,
    element_view,
    element_wf,
    is_void_tag,
    node_wf,
    nodes_wf,
    spec_is_void,
    tag_text,
};
use crate::ast::spec_tag_span;

verus! {

broadcast use crate::diagnostics::lemma_diags_extended_auto;

/// The front token is this punctuation character.
pub open spec fn peek_punct(s: Seq<Tok>, c: char) -> bool {
    s.len() > 0 && match s[0] {
        Tok::Punct(c2, _, _) => c2 == c,
        _ => false,
    }
}

/// The second token is this punctuation character.
pub open spec fn peek2_punct(s: Seq<Tok>, c: char) -> bool {
    s.len() > 1 && match s[1] {
        Tok::Punct(c2, _, _) => c2 == c,
        _ => false,
    }
}

/// The front token is an identifier with this name.
pub open spec fn peek_keyword(s: Seq<Tok>, kw: Seq<char>) -> bool {
    s.len() > 0 && match s[0] {
        Tok::Ident(n, _) => n@ == kw,
        _ => false,
    }
}

/// The front token is a string literal.
pub open spec fn peek_str(s: Seq<Tok>) -> bool {
    s.len() > 0 && s[0] is Str
}

/// The front token is an identifier.
pub open spec fn peek_ident(s: Seq<Tok>) -> bool {
    s.len() > 0 && s[0] is Ident
}

/// The front token is a group with this delimiter.
pub open spec fn peek_group(s: Seq<Tok>, d: Delim) -> bool {
    s.len() > 0 && match s[0] {
        Tok::Group(d2, _, _) => d2 == d,
        _ => false,
    }
}

/// The stream stands at a closing-tag opener: `<` followed by `/`.
pub open spec fn at_close_start(s: Seq<Tok>) -> bool {
    peek_punct(s, '<') && peek2_punct(s, '/')
}

/// The span of the front token, or an empty span at the end of input.
pub open spec fn spec_front_span(s: Seq<Tok>) -> Span {
    if s.len() > 0 {
        spec_tok_span(s[0])
    } else {
        Span { lo: 0, hi: 0 }
    }
}

/// The tokens strictly before the first brace-delimited group, whether such a
/// group was found, and the stream from that group on (empty if none was
/// found).
pub open spec fn spec_collect_brace(s: Seq<Tok>) -> (Seq<Tok>, bool, Seq<Tok>)
    decreases s.len(),
{
    if s.len() == 0 {
        (Seq::empty(), false, s)
    } else if peek_group(s, Delim::Brace) {
        (Seq::empty(), true, s)
    } else {
        let (c, f, r) = spec_collect_brace(s.drop_first());
        (seq![s[0]] + c, f, r)
    }
}

/// The tokens strictly before the first `in` keyword, whether one was found,
/// and the stream from that keyword on.
pub open spec fn spec_collect_in(s: Seq<Tok>) -> (Seq<Tok>, bool, Seq<Tok>)
    decreases s.len(),
{
    if s.len() == 0 {
        (Seq::empty(), false, s)
    } else if peek_keyword(s, "in"@) {
        (Seq::empty(), true, s)
    } else {
        let (c, f, r) = spec_collect_in(s.drop_first());
        (seq![s[0]] + c, f, r)
    }
}

/// The parse of a tag name: an optional `!`, then an identifier; a missing
/// identifier is one diagnostic.
pub open spec fn spec_parse_tag(s: Seq<Tok>) -> (Result<HtmlTag, ()>, Seq<Tok>, Seq<DiagV>) {
    let excl: Option<Span> = if peek_punct(s, '!') {
        Some(spec_tok_span(s[0]))
    } else {
        None
    };
    let s1 = if peek_punct(s, '!') {
        s.drop_first()
    } else {
        s
    };
    if peek_ident(s1) {
        match s1[0] {
            Tok::Ident(name, sp) => (
                Ok(HtmlTag { exclamation: excl, name, name_span: sp }),
                s1.drop_first(),
                Seq::empty(),
            ),
            _ => (Err(()), s1, Seq::empty()),
        }
    } else {
        (Err(()), s1, seq![plain_diag(spec_front_span(s1), "expected identifier"@)])
    }
}

/// The parse of the continuation segments of a chained attribute key.
pub open spec fn spec_parse_key_segments(s: Seq<Tok>) -> (
    Result<Seq<KeySegment>, ()>,
    Seq<Tok>,
    Seq<DiagV>,
)
    decreases s.len(),
{
    if peek_punct(s, '-') || peek_punct(s, ':') {
        let sep = if peek_punct(s, '-') {
            DashOrColon::Dash
        } else {
            DashOrColon::Colon
        };
        let s1 = s.drop_first();
        if peek_ident(s1) {
            match s1[0] {
                Tok::Ident(name, sp) => {
                    let seg = KeySegment { sep, name, span: sp };
                    let (r, s2, d) = spec_parse_key_segments(s1.drop_first());
                    (
                        match r {
                            Ok(rest) => Ok(seq![seg] + rest),
                            Err(x) => Err(x),
                        },
                        s2,
                        d,
                    )
                },
                _ => (Err(()), s1, Seq::empty()),
            }
        } else {
            (Err(()), s1, seq![plain_diag(spec_front_span(s1), "expected identifier"@)])
        }
    } else {
        (Ok(Seq::empty()), s, Seq::empty())
    }
}

/// The help a tag-related diagnostic carries.
pub open spec fn help_text(tag: HtmlTag) -> Seq<char> {
    "maybe "@ + tag_text(tag)
        + " is supposed to be a self-closing tag but the template library doesn't know that?"@
}

/// The diagnostic a mismatched close tag produces: it names the open tag, a
/// note at the close tag names both, and a second note carries the
/// self-closing hint.
pub open spec fn mismatch_diag(open_tag: HtmlTag, close_tag: HtmlTag) -> DiagV {
    with_note(
        with_note(
            plain_diag(spec_tag_span(open_tag), "mismatched tag "@ + tag_text(open_tag)),
            spec_tag_span(close_tag),
            ""@ + tag_text(open_tag) + " not matching "@ + tag_text(close_tag),
        ),
        spec_tag_span(open_tag),
        help_text(open_tag),
    )
}

/// The last diagnostic of a list with one more note.
pub open spec fn note_last(d: Seq<DiagV>, span: Span, message: Seq<char>) -> Seq<DiagV> {
    if d.len() == 0 {
        d
    } else {
        d.update(d.len() - 1, with_note(d[d.len() - 1], span, message))
    }
}

/// Element-context nodes until the stream is exhausted or stands at `</`:
/// the parsed shapes, the stream left behind, and the diagnostics recorded.
/// A failed production contributes its diagnostics, with the context notes
/// appended, and the list goes on from wherever the failure stopped.
pub open spec fn spec_parse_nodes(s: Seq<Tok>) -> (Seq<ElNodeV>, Seq<Tok>, Seq<DiagV>)
    decreases forest_size(s), 3int,
{
    if s.len() == 0 || at_close_start(s) {
        (Seq::empty(), s, Seq::empty())
    } else {
        let (nr, s1, d1) = spec_parse_node(s);
        let d1n = add_note_all(
            add_note_all(d1, spec_front_span(s), "while parsing child"@),
            spec_front_span(s),
            "while parsing children"@,
        );
        if forest_size(s1) < forest_size(s) {
            let (nodes, s2, d2) = spec_parse_nodes(s1);
            (
                match nr {
                    Ok(n) => seq![n] + nodes,
                    Err(_) => nodes,
                },
                s2,
                d1n + d2,
            )
        } else {
            (Seq::empty(), s1, d1n)
        }
    }
}

/// One element-context production, selected by first-token lookahead; on a
/// token no production matches, one token is skipped and one diagnostic
/// recorded.
pub open spec fn spec_parse_node(s: Seq<Tok>) -> (Result<ElNodeV, ()>, Seq<Tok>, Seq<DiagV>)
    decreases forest_size(s), 2int,
{
    if s.len() == 0 {
        (Err(()), s, Seq::empty())
    } else if peek_str(s) {
        match s[0] {
            Tok::Str(text, sp) => (Ok(ElNodeV::Literal(text, sp)), s.drop_first(), Seq::empty()),
            _ => (Err(()), s, Seq::empty()),
        }
    } else if peek_keyword(s, "if"@) {
        let (r, rest, d) = spec_parse_if_node(s);
        (r, rest, add_note_all(d, spec_front_span(s), "while parsing if"@))
    } else if peek_keyword(s, "for"@) {
        let (r, rest, d) = spec_parse_for_node(s);
        (r, rest, add_note_all(d, spec_front_span(s), "while parsing for"@))
    } else if peek_group(s, Delim::Brace) {
        match s[0] {
            Tok::Group(_, inner, sp) => (
                Ok(ElNodeV::Computation(inner@, sp)),
                s.drop_first(),
                Seq::empty(),
            ),
            _ => (Err(()), s, Seq::empty()),
        }
    } else if peek_group(s, Delim::Paren) {
        match s[0] {
            Tok::Group(_, inner, sp) => (
                Ok(ElNodeV::ComputedValue(inner@, sp)),
                s.drop_first(),
                Seq::empty(),
            ),
            _ => (Err(()), s, Seq::empty()),
        }
    } else if peek_punct(s, '<') {
        let (r, rest, d) = spec_parse_element(s);
        (
            match r {
                Ok(e) => Ok(ElNodeV::Element(e)),
                Err(x) => Err(x),
            },
            rest,
            add_note_all(d, spec_front_span(s), "while parsing element"@),
        )
    } else {
        (
            Err(()),
            s.drop_first(),
            seq![
                plain_diag(
                    spec_front_span(s),
                    "expected a string literal, if, for, a block, a parenthesized expression, or <"@,
                ),
            ],
        )
    }
}

/// `if cond { then } else { else }` in element context: the condition tokens
/// run up to the first brace group; the else-branch is optional; a missing
/// brace is a diagnostic.
pub open spec fn spec_parse_if_node(s: Seq<Tok>) -> (Result<ElNodeV, ()>, Seq<Tok>, Seq<DiagV>)
    decreases forest_size(s), 1int,
{
    if s.len() == 0 {
        (Err(()), s, Seq::empty())
    } else {
        let if_span = spec_tok_span(s[0]);
        let s1 = s.drop_first();
        let (cond, found, s2) = spec_collect_brace(s1);
        if !found {
            (Err(()), s2, seq![plain_diag(if_span, "no { was found after this point"@)])
        } else {
            match s2[0] {
                Tok::Group(_, inner, _) => {
                    let then_span = spec_tok_span(s2[0]);
                    let s3 = s2.drop_first();
                    if forest_size(inner@) < forest_size(s) {
                        let (then_body, _rest, d1) = spec_parse_nodes(inner@);
                        let d1n = add_note_all(d1, then_span, "while parsing then branch"@);
                        if peek_keyword(s3, "else"@) {
                            let else_span = spec_tok_span(s3[0]);
                            let s4 = s3.drop_first();
                            if peek_group(s4, Delim::Brace) {
                                match s4[0] {
                                    Tok::Group(_, einner, _) => {
                                        let s5 = s4.drop_first();
                                        if forest_size(einner@) < forest_size(s) {
                                            let (ebody, _rest2, d2) = spec_parse_nodes(einner@);
                                            let d2n = add_note_all(
                                                d2,
                                                else_span,
                                                "while parsing else branch"@,
                                            );
                                            (
                                                Ok(
                                                    ElNodeV::If(
                                                        cond,
                                                        then_body,
                                                        Some(ebody),
                                                        if_span,
                                                    ),
                                                ),
                                                s5,
                                                d1n + d2n,
                                            )
                                        } else {
                                            (Err(()), s5, d1n)
                                        }
                                    },
                                    _ => (Err(()), s4, d1n),
                                }
                            } else {
                                (Err(()), s4, d1n + seq![plain_diag(else_span, "expected { }"@)])
                            }
                        } else {
                            (Ok(ElNodeV::If(cond, then_body, None, if_span)), s3, d1n)
                        }
                    } else {
                        (Err(()), s3, Seq::empty())
                    }
                },
                _ => (Err(()), s2, Seq::empty()),
            }
        }
    }
}

/// `for pat in expr { body }` in element context: the pattern tokens run up
/// to the `in` keyword, the iterator-expression tokens up to the first brace
/// group; a missing `in` or brace is a diagnostic.
pub open spec fn spec_parse_for_node(s: Seq<Tok>) -> (Result<ElNodeV, ()>, Seq<Tok>, Seq<DiagV>)
    decreases forest_size(s), 1int,
{
    if s.len() == 0 {
        (Err(()), s, Seq::empty())
    } else {
        let for_span = spec_tok_span(s[0]);
        let s1 = s.drop_first();
        let (pat, found, s2) = spec_collect_in(s1);
        if !found {
            (Err(()), s2, seq![plain_diag(for_span, "no in was found after this point"@)])
        } else {
            let s3 = s2.drop_first();
            let (expr, found2, s4) = spec_collect_brace(s3);
            if !found2 {
                (Err(()), s4, seq![plain_diag(for_span, "no { was found after this point"@)])
            } else {
                match s4[0] {
                    Tok::Group(_, inner, _) => {
                        let body_span = spec_tok_span(s4[0]);
                        let s5 = s4.drop_first();
                        if forest_size(inner@) < forest_size(s) {
                            let (body, _rest, d1) = spec_parse_nodes(inner@);
                            let d1n = add_note_all(d1, body_span, "while parsing loop body"@);
                            (Ok(ElNodeV::For(pat, expr, body, for_span)), s5, d1n)
                        } else {
                            (Err(()), s5, Seq::empty())
                        }
                    },
                    _ => (Err(()), s4, Seq::empty()),
                }
            }
        }
    }
}

/// An element: `<` tag attributes `>`, and, unless the tag name is void,
/// children and `</` tag `>`. A close tag naming a different tag is one
/// diagnostic naming both tags, and the element is still produced with the
/// given closer taken as authoritative.
pub open spec fn spec_parse_element(s: Seq<Tok>) -> (Result<ElementV, ()>, Seq<Tok>, Seq<DiagV>)
    decreases forest_size(s), 1int,
{
    if !peek_punct(s, '<') {
        (Err(()), s, Seq::empty())
    } else {
        let open_start = spec_tok_span(s[0]);
        let s1 = s.drop_first();
        let (tagr, s2, d_tag) = spec_parse_tag(s1);
        match tagr {
            Err(_) => (Err(()), s2, d_tag),
            Ok(tag) => {
                if forest_size(s2) < forest_size(s) {
                    let (attrs, s3, d_attrs) = spec_parse_attrs(s2);
                    if !peek_punct(s3, '>') {
                        (
                            Err(()),
                            s3,
                            d_tag + d_attrs + seq![plain_diag(spec_front_span(s3), "expected >"@)],
                        )
                    } else {
                        let open_end = spec_tok_span(s3[0]);
                        let s4 = s3.drop_first();
                        if spec_is_void(tag_text(tag)) {
                            (
                                Ok(
                                    ElementV {
                                        open_start,
                                        open_tag_name: tag,
                                        attributes: attrs,
                                        open_end,
                                        children: None,
                                    },
                                ),
                                s4,
                                d_tag + d_attrs,
                            )
                        } else {
                            if forest_size(s4) < forest_size(s) {
                                let (children, s5, d_ch) = spec_parse_nodes(s4);
                                let dacc = d_tag + d_attrs + d_ch;
                                if !peek_punct(s5, '<') {
                                    (
                                        Err(()),
                                        s5,
                                        dacc + seq![
                                            plain_diag(
                                                spec_front_span(s5),
                                                "expected closing tag"@,
                                            ),
                                        ],
                                    )
                                } else {
                                    let close_lt = spec_tok_span(s5[0]);
                                    let s6 = s5.drop_first();
                                    if !peek_punct(s6, '/') {
                                        (
                                            Err(()),
                                            s6,
                                            dacc + seq![
                                                plain_diag(spec_front_span(s6), "expected /"@),
                                            ],
                                        )
                                    } else {
                                        let close_slash = spec_tok_span(s6[0]);
                                        let s7 = s6.drop_first();
                                        let (ctagr, s8, d_ct) = spec_parse_tag(s7);
                                        match ctagr {
                                            Err(_) => (
                                                Err(()),
                                                s8,
                                                dacc + note_last(d_ct, open_start, help_text(tag)),
                                            ),
                                            Ok(ctag) => {
                                                let d_mis: Seq<DiagV> = if tag_text(tag)
                                                    != tag_text(ctag) {
                                                    seq![mismatch_diag(tag, ctag)]
                                                } else {
                                                    Seq::empty()
                                                };
                                                if !peek_punct(s8, '>') {
                                                    (
                                                        Err(()),
                                                        s8,
                                                        dacc + d_mis + seq![
                                                            plain_diag(
                                                                spec_front_span(s8),
                                                                "expected >"@,
                                                            ),
                                                        ],
                                                    )
                                                } else {
                                                    let s9 = s8.drop_first();
                                                    (
                                                        Ok(
                                                            ElementV {
                                                                open_start,
                                                                open_tag_name: tag,
                                                                attributes: attrs,
                                                                open_end,
                                                                children: Some(
                                                                    (
                                                                        children,
                                                                        HtmlClose {
                                                                            lt_span: close_lt,
                                                                            slash_span: close_slash,
                                                                            tag: ctag,
                                                                            gt_span: spec_tok_span(
                                                                                s8[0],
                                                                            ),
                                                                        },
                                                                    ),
                                                                ),
                                                            },
                                                        ),
                                                        s9,
                                                        dacc + d_mis,
                                                    )
                                                }
                                            },
                                        }
                                    }
                                }
                            } else {
                                (Err(()), s4, d_tag + d_attrs)
                            }
                        }
                    }
                } else {
                    (Err(()), s2, d_tag)
                }
            },
        }
    }
}

/// Attributes until the stream is exhausted or stands at `>`. A failed
/// attribute contributes its diagnostics with the context note appended, and
/// the list goes on.
pub open spec fn spec_parse_attrs(s: Seq<Tok>) -> (Seq<AttrV>, Seq<Tok>, Seq<DiagV>)
    decreases forest_size(s), 3int,
{
    if s.len() == 0 || peek_punct(s, '>') {
        (Seq::empty(), s, Seq::empty())
    } else {
        let (ar, s1, d1) = spec_parse_attr(s);
        let d1n = add_note_all(d1, spec_front_span(s), "while parsing attribute"@);
        if forest_size(s1) < forest_size(s) {
            let (rest, s2, d2) = spec_parse_attrs(s1);
            (
                match ar {
                    Ok(a) => seq![a] + rest,
                    Err(_) => rest,
                },
                s2,
                d1n + d2,
            )
        } else {
            (Seq::empty(), s1, d1n)
        }
    }
}

/// One attribute: a dash- or colon-chained identifier key, optionally `=`
/// and a value, which is a string literal or a bracketed list of
/// attribute-value nodes. Anything else is a diagnostic.
pub open spec fn spec_parse_attr(s: Seq<Tok>) -> (Result<AttrV, ()>, Seq<Tok>, Seq<DiagV>)
    decreases forest_size(s), 2int,
{
    if s.len() == 0 {
        (Err(()), s, Seq::empty())
    } else if peek_ident(s) {
        match s[0] {
            Tok::Ident(first, first_span) => {
                let s1 = s.drop_first();
                let (segr, s2, d_seg) = spec_parse_key_segments(s1);
                match segr {
                    Err(_) => (Err(()), s2, d_seg),
                    Ok(rest_segs) => {
                        let key = KeyV { first, first_span, rest: rest_segs };
                        if peek_punct(s2, '=') {
                            let eq_span = spec_tok_span(s2[0]);
                            let s3 = s2.drop_first();
                            if peek_str(s3) {
                                match s3[0] {
                                    Tok::Str(text, tsp) => (
                                        Ok(
                                            AttrV {
                                                key,
                                                value: Some(
                                                    (eq_span, seq![AvNodeV::Literal(text, tsp)]),
                                                ),
                                            },
                                        ),
                                        s3.drop_first(),
                                        d_seg,
                                    ),
                                    _ => (Err(()), s3, d_seg),
                                }
                            } else if peek_group(s3, Delim::Bracket) {
                                match s3[0] {
                                    Tok::Group(_, inner, bsp) => {
                                        let s4 = s3.drop_first();
                                        if forest_size(inner@) < forest_size(s) {
                                            let (vnodes, _rest, d_v) = spec_parse_av_nodes(inner@);
                                            let d_vn = add_note_all(
                                                d_v,
                                                bsp,
                                                "while parsing attribute value"@,
                                            );
                                            (
                                                Ok(AttrV { key, value: Some((eq_span, vnodes)) }),
                                                s4,
                                                d_seg + d_vn,
                                            )
                                        } else {
                                            (Err(()), s4, d_seg)
                                        }
                                    },
                                    _ => (Err(()), s3, d_seg),
                                }
                            } else {
                                (
                                    Err(()),
                                    s3,
                                    d_seg + seq![
                                        plain_diag(
                                            spec_front_span(s3),
                                            "expected a string literal or [ ]"@,
                                        ),
                                    ],
                                )
                            }
                        } else {
                            (Ok(AttrV { key, value: None }), s2, d_seg)
                        }
                    },
                }
            },
            _ => (Err(()), s, Seq::empty()),
        }
    } else {
        (
            Err(()),
            s.drop_first(),
            seq![plain_diag(spec_front_span(s), "expected an attribute identifier"@)],
        )
    }
}

/// Attribute-value nodes until the stream is exhausted, with the same
/// recovery as element-context lists.
pub open spec fn spec_parse_av_nodes(s: Seq<Tok>) -> (Seq<AvNodeV>, Seq<Tok>, Seq<DiagV>)
    decreases forest_size(s), 3int,
{
    if s.len() == 0 {
        (Seq::empty(), s, Seq::empty())
    } else {
        let (nr, s1, d1) = spec_parse_av_node(s);
        let d1n = add_note_all(d1, spec_front_span(s), "while parsing attribute value part"@);
        if forest_size(s1) < forest_size(s) {
            let (nodes, s2, d2) = spec_parse_av_nodes(s1);
            (
                match nr {
                    Ok(n) => seq![n] + nodes,
                    Err(_) => nodes,
                },
                s2,
                d1n + d2,
            )
        } else {
            (Seq::empty(), s1, d1n)
        }
    }
}

/// One attribute-value production: as in element context, but no element can
/// appear here.
pub open spec fn spec_parse_av_node(s: Seq<Tok>) -> (Result<AvNodeV, ()>, Seq<Tok>, Seq<DiagV>)
    decreases forest_size(s), 2int,
{
    if s.len() == 0 {
        (Err(()), s, Seq::empty())
    } else if peek_str(s) {
        match s[0] {
            Tok::Str(text, sp) => (Ok(AvNodeV::Literal(text, sp)), s.drop_first(), Seq::empty()),
            _ => (Err(()), s, Seq::empty()),
        }
    } else if peek_keyword(s, "if"@) {
        let (r, rest, d) = spec_parse_if_av(s);
        (r, rest, add_note_all(d, spec_front_span(s), "while parsing if"@))
    } else if peek_keyword(s, "for"@) {
        let (r, rest, d) = spec_parse_for_av(s);
        (r, rest, add_note_all(d, spec_front_span(s), "while parsing for"@))
    } else if peek_group(s, Delim::Brace) {
        match s[0] {
            Tok::Group(_, inner, sp) => (
                Ok(AvNodeV::Computation(inner@, sp)),
                s.drop_first(),
                Seq::empty(),
            ),
            _ => (Err(()), s, Seq::empty()),
        }
    } else if peek_group(s, Delim::Paren) {
        match s[0] {
            Tok::Group(_, inner, sp) => (
                Ok(AvNodeV::ComputedValue(inner@, sp)),
                s.drop_first(),
                Seq::empty(),
            ),
            _ => (Err(()), s, Seq::empty()),
        }
    } else {
        (
            Err(()),
            s.drop_first(),
            seq![
                plain_diag(
                    spec_front_span(s),
                    "expected a string literal, if, for, a block, or a parenthesized expression"@,
                ),
            ],
        )
    }
}

/// `if` in attribute-value context.
pub open spec fn spec_parse_if_av(s: Seq<Tok>) -> (Result<AvNodeV, ()>, Seq<Tok>, Seq<DiagV>)
    decreases forest_size(s), 1int,
{
    if s.len() == 0 {
        (Err(()), s, Seq::empty())
    } else {
        let if_span = spec_tok_span(s[0]);
        let s1 = s.drop_first();
        let (cond, found, s2) = spec_collect_brace(s1);
        if !found {
            (Err(()), s2, seq![plain_diag(if_span, "no { was found after this point"@)])
        } else {
            match s2[0] {
                Tok::Group(_, inner, _) => {
                    let then_span = spec_tok_span(s2[0]);
                    let s3 = s2.drop_first();
                    if forest_size(inner@) < forest_size(s) {
                        let (then_body, _rest, d1) = spec_parse_av_nodes(inner@);
                        let d1n = add_note_all(d1, then_span, "while parsing then branch"@);
                        if peek_keyword(s3, "else"@) {
                            let else_span = spec_tok_span(s3[0]);
                            let s4 = s3.drop_first();
                            if peek_group(s4, Delim::Brace) {
                                match s4[0] {
                                    Tok::Group(_, einner, _) => {
                                        let s5 = s4.drop_first();
                                        if forest_size(einner@) < forest_size(s) {
                                            let (ebody, _rest2, d2) = spec_parse_av_nodes(einner@);
                                            let d2n = add_note_all(
                                                d2,
                                                else_span,
                                                "while parsing else branch"@,
                                            );
                                            (
                                                Ok(
                                                    AvNodeV::If(
                                                        cond,
                                                        then_body,
                                                        Some(ebody),
                                                        if_span,
                                                    ),
                                                ),
                                                s5,
                                                d1n + d2n,
                                            )
                                        } else {
                                            (Err(()), s5, d1n)
                                        }
                                    },
                                    _ => (Err(()), s4, d1n),
                                }
                            } else {
                                (Err(()), s4, d1n + seq![plain_diag(else_span, "expected { }"@)])
                            }
                        } else {
                            (Ok(AvNodeV::If(cond, then_body, None, if_span)), s3, d1n)
                        }
                    } else {
                        (Err(()), s3, Seq::empty())
                    }
                },
                _ => (Err(()), s2, Seq::empty()),
            }
        }
    }
}

/// `for` in attribute-value context.
pub open spec fn spec_parse_for_av(s: Seq<Tok>) -> (Result<AvNodeV, ()>, Seq<Tok>, Seq<DiagV>)
    decreases forest_size(s), 1int,
{
    if s.len() == 0 {
        (Err(()), s, Seq::empty())
    } else {
        let for_span = spec_tok_span(s[0]);
        let s1 = s.drop_first();
        let (pat, found, s2) = spec_collect_in(s1);
        if !found {
            (Err(()), s2, seq![plain_diag(for_span, "no in was found after this point"@)])
        } else {
            let s3 = s2.drop_first();
            let (expr, found2, s4) = spec_collect_brace(s3);
            if !found2 {
                (Err(()), s4, seq![plain_diag(for_span, "no { was found after this point"@)])
            } else {
                match s4[0] {
                    Tok::Group(_, inner, _) => {
                        let body_span = spec_tok_span(s4[0]);
                        let s5 = s4.drop_first();
                        if forest_size(inner@) < forest_size(s) {
                            let (body, _rest, d1) = spec_parse_av_nodes(inner@);
                            let d1n = add_note_all(d1, body_span, "while parsing loop body"@);
                            (Ok(AvNodeV::For(pat, expr, body, for_span)), s5, d1n)
                        } else {
                            (Err(()), s5, Seq::empty())
                        }
                    },
                    _ => (Err(()), s4, Seq::empty()),
                }
            }
        }
    }
}

/// A whole template: element-context nodes until the input is exhausted; a
/// stray closing-tag opener at top level is one diagnostic, one token is
/// skipped, and parsing goes on.
pub open spec fn spec_parse_template(s: Seq<Tok>) -> (Seq<ElNodeV>, Seq<DiagV>)
    decreases forest_size(s),
{
    let (nodes, rest, d) = spec_parse_nodes(s);
    if rest.len() > 0 {
        let d2 = d + seq![plain_diag(spec_front_span(rest), "unexpected closing tag"@)];
        if forest_size(rest.drop_first()) < forest_size(s) {
            let (nodes2, d3) = spec_parse_template(rest.drop_first());
            (nodes + nodes2, d2 + d3)
        } else {
            (nodes, d2)
        }
    } else {
        (nodes, d)
    }
}

/// The shape of a node parse result.
pub open spec fn node_result_view(r: Result<HtmlInElementContext, ()>) -> Result<ElNodeV, ()> {
    match r {
        Ok(n) => Ok(el_node_view(n)),
        Err(e) => Err(e),
    }
}

/// The shape of an attribute-value node parse result.
pub open spec fn av_result_view(r: Result<HtmlInAttributeValueContext, ()>) -> Result<
    AvNodeV,
    (),
> {
    match r {
        Ok(n) => Ok(av_node_view(n)),
        Err(e) => Err(e),
    }
}

/// The shape of an element parse result.
pub open spec fn element_result_view(r: Result<HtmlElement, ()>) -> Result<ElementV, ()> {
    match r {
        Ok(e) => Ok(element_view(e)),
        Err(x) => Err(x),
    }
}

/// The shape of an attribute parse result.
pub open spec fn attr_result_view(r: Result<HtmlAttribute, ()>) -> Result<AttrV, ()> {
    match r {
        Ok(a) => Ok(attr_view(a)),
        Err(x) => Err(x),
    }
}

/// The shape of a key-segments parse result.
pub open spec fn segs_result_view(r: Result<Vec<KeySegment>, ()>) -> Result<Seq<KeySegment>, ()> {
    match r {
        Ok(v) => Ok(v@),
        Err(x) => Err(x),
    }
}

fn is_punct(toks: &Vec<Tok>, c: char) -> (r: bool)
    ensures
        r == peek_punct(toks@, c),
{
    if toks.len() > 0 {
        match &toks[0] {
            Tok::Punct(c2, _, _) => *c2 == c,
            _ => false,
        }
    } else {
        false
    }
}

fn is2_punct(toks: &Vec<Tok>, c: char) -> (r: bool)
    ensures
        r == peek2_punct(toks@, c),
{
    if toks.len() > 1 {
        match &toks[1] {
            Tok::Punct(c2, _, _) => *c2 == c,
            _ => false,
        }
    } else {
        false
    }
}

fn is_keyword(toks: &Vec<Tok>, kw: &str) -> (r: bool)
    ensures
        r == peek_keyword(toks@, kw@),
{
    if toks.len() > 0 {
        match &toks[0] {
            Tok::Ident(n, _) => crate::ast::str_eq(n.as_str(), kw),
            _ => false,
        }
    } else {
        false
    }
}

fn is_str(toks: &Vec<Tok>) -> (r: bool)
    ensures
        r == peek_str(toks@),
{
    if toks.len() > 0 {
        match &toks[0] {
            Tok::Str(_, _) => true,
            _ => false,
        }
    } else {
        false
    }
}

fn is_ident(toks: &Vec<Tok>) -> (r: bool)
    ensures
        r == peek_ident(toks@),
{
    if toks.len() > 0 {
        match &toks[0] {
            Tok::Ident(_, _) => true,
            _ => false,
        }
    } else {
        false
    }
}

fn is_group(toks: &Vec<Tok>, d: Delim) -> (r: bool)
    ensures
        r == peek_group(toks@, d),
{
    if toks.len() > 0 {
        match &toks[0] {
            Tok::Group(d2, _, _) => *d2 == d,
            _ => false,
        }
    } else {
        false
    }
}

/// The span of the front token, or an empty span at the end of input.
fn front_span(toks: &Vec<Tok>) -> (r: Span)
    ensures
        r == spec_front_span(toks@),
{
    if toks.len() > 0 {
        let t = &toks[0];
        t.span()
    } else {
        Span { lo: 0, hi: 0 }
    }
}

/// Remove and return the front token.
fn take_front(toks: &mut Vec<Tok>) -> (t: Tok)
    requires
        old(toks)@.len() > 0,
    ensures
        t == old(toks)@[0],
        final(toks)@ == old(toks)@.drop_first(),
        forest_size(final(toks)@) + tok_size(t) == forest_size(old(toks)@),
        forest_size(final(toks)@) < forest_size(old(toks)@),
{
    let ghost orig = toks@;
    let t = toks.remove(0);
    proof {
        assert(toks@ =~= orig.drop_first());
        lemma_forest_size_drop_first(orig);
        lemma_tok_size_pos(t);
    }
    t
}

/// Record a fresh diagnostic with the given message.
fn push_error(diags: &mut Vec<Diagnostic>, span: Span, msg: &str)
    ensures
        diags_extended(old(diags)@, final(diags)@),
        final(diags)@.len() == old(diags)@.len() + 1,
        diags_view(final(diags)@) == diags_view(old(diags)@) + seq![plain_diag(span, msg@)],
{
    let ghost orig = diags@;
    let d = Diagnostic::error(span, String::from_str(msg));
    let ghost dg = d;
    diags.push(d);
    proof {
        crate::diagnostics::lemma_diags_extended_push(orig, dg);
        lemma_diags_view_push(orig, dg);
        assert(diags_view(diags@) =~= diags_view(orig) + seq![plain_diag(span, msg@)]);
    }
}

/// Append one contextual note to every diagnostic recorded from index
/// `start` on: this is how diagnostics from nested productions propagate
/// upward with notes appended, never replaced.
fn note_new_diags(diags: &mut Vec<Diagnostic>, start: usize, span: Span, msg: &str)
    requires
        start <= old(diags)@.len(),
    ensures
        final(diags)@.len() == old(diags)@.len(),
        forall|i: int| 0 <= i < start ==> final(diags)@[i] == old(diags)@[i],
        diags_view(final(diags)@) == diags_view(old(diags)@).subrange(0, start as int)
            + add_note_all(diags_view(old(diags)@).skip(start as int), span, msg@),
{
    let ghost orig = diags@;
    let mut i: usize = start;
    while i < diags.len()
        invariant
            start <= i,
            i <= diags@.len(),
            diags@.len() == orig.len(),
            forall|j: int| 0 <= j < start ==> diags@[j] == orig[j],
            forall|j: int|
                start <= j < i ==> diag_view(#[trigger] diags@[j]) == with_note(
                    diag_view(orig[j]),
                    span,
                    msg@,
                ),
            forall|j: int| i <= j < diags@.len() ==> diags@[j] == orig[j],
        decreases diags@.len() - i,
    {
        let d = &mut diags[i];
        d.span_note(span, String::from_str(msg));
        i = i + 1;
    }
    proof {
        assert(diags_view(diags@) =~= diags_view(orig).subrange(0, start as int) + add_note_all(
            diags_view(orig).skip(start as int),
            span,
            msg@,
        ));
    }
}

/// Composition of a child production's diagnostics with the note it gets:
/// the parent's view grows by the noted child diagnostics.
proof fn lemma_note_compose(
    before: Seq<Diagnostic>,
    mid: Seq<Diagnostic>,
    after: Seq<Diagnostic>,
    sd: Seq<DiagV>,
    span: Span,
    msg: Seq<char>,
    start: int,
)
    requires
        diags_view(mid) == diags_view(before) + sd,
        start == before.len(),
        after.len() == mid.len(),
        diags_view(after) == diags_view(mid).subrange(0, start) + add_note_all(
            diags_view(mid).skip(start),
            span,
            msg,
        ),
    ensures
        diags_view(after) == diags_view(before) + add_note_all(sd, span, msg),
{
    assert(diags_view(mid).subrange(0, start) =~= diags_view(before));
    assert(diags_view(mid).skip(start) =~= sd);
}

/// Collect tokens from the front up to, but not including, the first
/// brace-delimited group; the stream is left standing at that group. At end
/// of input without a brace the collected tokens are returned with `false`.
fn collect_until_brace(toks: &mut Vec<Tok>) -> (r: (Vec<Tok>, bool))
    ensures
        forest_size(final(toks)@) <= forest_size(old(toks)@),
        r.0@ == spec_collect_brace(old(toks)@).0,
        r.1 == spec_collect_brace(old(toks)@).1,
        final(toks)@ == spec_collect_brace(old(toks)@).2,
        r.1 ==> peek_group(final(toks)@, Delim::Brace),
        !r.1 ==> final(toks)@.len() == 0,
{
    let mut out: Vec<Tok> = Vec::new();
    loop
        invariant
            forest_size(toks@) <= forest_size(old(toks)@),
            spec_collect_brace(old(toks)@).0 == out@ + spec_collect_brace(toks@).0,
            spec_collect_brace(old(toks)@).1 == spec_collect_brace(toks@).1,
            spec_collect_brace(old(toks)@).2 == spec_collect_brace(toks@).2,
        decreases toks@.len(),
    {
        if toks.len() == 0 {
            proof {
                assert(out@ + spec_collect_brace(toks@).0 =~= out@);
            }
            return (out, false);
        }
        if is_group(toks, Delim::Brace) {
            proof {
                assert(out@ + spec_collect_brace(toks@).0 =~= out@);
            }
            return (out, true);
        }
        let ghost outg = out@;
        let ghost cur = toks@;
        let t = take_front(toks);
        out.push(t);
        proof {
            assert(out@ + spec_collect_brace(toks@).0 =~= outg + spec_collect_brace(cur).0);
        }
    }
}

/// Collect tokens from the front up to, but not including, the first `in`
/// keyword; the stream is left standing at that keyword.
fn collect_until_in(toks: &mut Vec<Tok>) -> (r: (Vec<Tok>, bool))
    ensures
        forest_size(final(toks)@) <= forest_size(old(toks)@),
        r.0@ == spec_collect_in(old(toks)@).0,
        r.1 == spec_collect_in(old(toks)@).1,
        final(toks)@ == spec_collect_in(old(toks)@).2,
        r.1 ==> peek_keyword(final(toks)@, "in"@),
        !r.1 ==> final(toks)@.len() == 0,
{
    let mut out: Vec<Tok> = Vec::new();
    loop
        invariant
            forest_size(toks@) <= forest_size(old(toks)@),
            spec_collect_in(old(toks)@).0 == out@ + spec_collect_in(toks@).0,
            spec_collect_in(old(toks)@).1 == spec_collect_in(toks@).1,
            spec_collect_in(old(toks)@).2 == spec_collect_in(toks@).2,
        decreases toks@.len(),
    {
        if toks.len() == 0 {
            proof {
                assert(out@ + spec_collect_in(toks@).0 =~= out@);
            }
            return (out, false);
        }
        if is_keyword(toks, "in") {
            proof {
                assert(out@ + spec_collect_in(toks@).0 =~= out@);
            }
            return (out, true);
        }
        let ghost outg = out@;
        let ghost cur = toks@;
        let t = take_front(toks);
        out.push(t);
        proof {
            assert(out@ + spec_collect_in(toks@).0 =~= outg + spec_collect_in(cur).0);
        }
    }
}

/// The carrier of a parse result: the parsed value together with the
/// diagnostics collected while producing it.
#[derive(Debug)]
pub struct MyParseToParse<T> {
    pub value: T,
    pub diagnostics: Vec<Diagnostic>,
}

/// Split a parse result into the value part and the diagnostics part.
pub fn transpose<T>(input: Result<(T, Vec<Diagnostic>), Vec<Diagnostic>>) -> (r: (
    Result<T, ()>,
    Vec<Diagnostic>,
))
    ensures
        match input {
            Ok((t, d)) => r.0 is Ok && r.0 == Ok::<T, ()>(t) && r.1 == d,
            Err(d) => r.0 is Err && r.1 == d,
        },
{
    match input {
        Ok((t, diagnostics)) => (Ok(t), diagnostics),
        Err(diagnostics) => (Err(()), diagnostics),
    }
}

/// Parse element-context nodes until the stream is exhausted or stands at a
/// closing-tag opener `</`. A failed production records its diagnostics,
/// skips ahead and continues, so every independent error is surfaced.
pub fn parse_element_nodes(toks: &mut Vec<Tok>, diags: &mut Vec<Diagnostic>) -> (r: Vec<
    HtmlInElementContext,
>)
    ensures
        diags_extended(old(diags)@, final(diags)@),
        forest_size(final(toks)@) <= forest_size(old(toks)@),
        final(toks)@.len() == 0 || at_close_start(final(toks)@),
        nodes_wf(r@),
        el_nodes_view(r@) == spec_parse_nodes(old(toks)@).0,
        final(toks)@ == spec_parse_nodes(old(toks)@).1,
        diags_view(final(diags)@) == diags_view(old(diags)@) + spec_parse_nodes(old(toks)@).2,
    decreases forest_size(toks@), 3int,
{
    let ghost s = toks@;
    let ghost d0 = diags@;
    let ghost dv0 = diags_view(diags@);
    if toks.len() == 0 || (is_punct(toks, '<') && is2_punct(toks, '/')) {
        let r: Vec<HtmlInElementContext> = Vec::new();
        proof {
            assert(nodes_wf(r@));
            assert(el_nodes_view(r@) =~= spec_parse_nodes(s).0);
            assert(diags_view(diags@) =~= dv0 + spec_parse_nodes(s).2);
        }
        r
    } else {
        let list_span = front_span(toks);
        let mark = diags.len();
        let result = parse_element_node(toks, diags);
        let ghost d1 = diags@;
        note_new_diags(diags, mark, list_span, "while parsing child");
        let ghost d2 = diags@;
        note_new_diags(diags, mark, list_span, "while parsing children");
        proof {
            lemma_note_compose(
                d0,
                d1,
                d2,
                spec_parse_node(s).2,
                list_span,
                "while parsing child"@,
                mark as int,
            );
            lemma_note_compose(
                d0,
                d2,
                diags@,
                add_note_all(spec_parse_node(s).2, list_span, "while parsing child"@),
                list_span,
                "while parsing children"@,
                mark as int,
            );
            assert(forest_size(toks@) < forest_size(s));
        }
        let ghost s1 = toks@;
        let mut rest = parse_element_nodes(toks, diags);
        proof {
            assert(diags_view(diags@) =~= dv0 + (add_note_all(
                add_note_all(spec_parse_node(s).2, list_span, "while parsing child"@),
                list_span,
                "while parsing children"@,
            ) + spec_parse_nodes(s1).2));
        }
        match result {
            Ok(node) => {
                let ghost nodeg = node;
                let ghost restg = rest@;
                let mut r: Vec<HtmlInElementContext> = Vec::new();
                r.push(node);
                r.append(&mut rest);
                proof {
                    assert(r@ =~= seq![nodeg] + restg);
                    lemma_wf_cons(nodeg, restg);
                    assert((seq![nodeg] + restg)[0] == nodeg);
                    assert((seq![nodeg] + restg).drop_first() =~= restg);
                    assert(el_nodes_view(r@) =~= seq![el_node_view(nodeg)] + el_nodes_view(restg));
                    assert(el_nodes_view(r@) =~= spec_parse_nodes(s).0);
                }
                r
            },
            Err(_) => {
                proof {
                    assert(el_nodes_view(rest@) =~= spec_parse_nodes(s).0);
                }
                rest
            },
        }
    }
}

/// A well-formed head and a well-formed tail make a well-formed list.
proof fn lemma_wf_cons(n: HtmlInElementContext, rest: Seq<HtmlInElementContext>)
    requires
        node_wf(n),
        nodes_wf(rest),
    ensures
        nodes_wf(seq![n] + rest),
{
    assert((seq![n] + rest)[0] == n);
    assert((seq![n] + rest).drop_first() =~= rest);
}

/// Parse one element-context node, selected by first-token lookahead:
/// a string literal, `if`, `for`, a brace block (computation), a
/// parenthesised expression (computed value), or `<` (element). On any other
/// token one token is skipped and a diagnostic recorded.
pub fn parse_element_node(toks: &mut Vec<Tok>, diags: &mut Vec<Diagnostic>) -> (r: Result<
    HtmlInElementContext,
    (),
>)
    requires
        old(toks)@.len() > 0,
    ensures
        diags_extended(old(diags)@, final(diags)@),
        forest_size(final(toks)@) < forest_size(old(toks)@),
        match r {
            Ok(node) => node_wf(node),
            Err(_) => true,
        },
        node_result_view(r) == spec_parse_node(old(toks)@).0,
        final(toks)@ == spec_parse_node(old(toks)@).1,
        diags_view(final(diags)@) == diags_view(old(diags)@) + spec_parse_node(old(toks)@).2,
    decreases forest_size(toks@), 2int,
{
    proof {
        reveal_strlit("if");
        reveal_strlit("for");
        assert("if"@.len() == 2);
        assert("for"@.len() == 3);
        assert("if"@ != "for"@);
    }
    let ghost s = toks@;
    let ghost d0 = diags@;
    let ghost dv0 = diags_view(diags@);
    let span = front_span(toks);
    if is_str(toks) {
        let t = take_front(toks);
        match t {
            Tok::Str(text, sp) => {
                let node = HtmlInElementContext::Literal(text, sp);
                proof {
                    assert(diags_view(diags@) =~= dv0 + spec_parse_node(s).2);
                }
                Ok(node)
            },
            _ => {
                proof {
                    assert(false);
                }
                Err(())
            },
        }
    } else if is_keyword(toks, "if") {
        let mark = diags.len();
        let result = parse_if_element(toks, diags);
        let ghost d1 = diags@;
        note_new_diags(diags, mark, span, "while parsing if");
        proof {
            lemma_note_compose(
                d0,
                d1,
                diags@,
                spec_parse_if_node(s).2,
                span,
                "while parsing if"@,
                mark as int,
            );
        }
        match result {
            Ok(node) => Ok(node),
            Err(_) => Err(()),
        }
    } else if is_keyword(toks, "for") {
        let mark = diags.len();
        let result = parse_for_element(toks, diags);
        let ghost d1 = diags@;
        note_new_diags(diags, mark, span, "while parsing for");
        proof {
            lemma_note_compose(
                d0,
                d1,
                diags@,
                spec_parse_for_node(s).2,
                span,
                "while parsing for"@,
                mark as int,
            );
        }
        match result {
            Ok(node) => Ok(node),
            Err(_) => Err(()),
        }
    } else if is_group(toks, Delim::Brace) {
        let t = take_front(toks);
        match t {
            Tok::Group(_, inner, sp) => {
                let node = HtmlInElementContext::Computation(inner, sp);
                proof {
                    assert(diags_view(diags@) =~= dv0 + spec_parse_node(s).2);
                }
                Ok(node)
            },
            _ => {
                proof {
                    assert(false);
                }
                Err(())
            },
        }
    } else if is_group(toks, Delim::Paren) {
        let t = take_front(toks);
        match t {
            Tok::Group(_, inner, sp) => {
                let node = HtmlInElementContext::ComputedValue(inner, sp);
                proof {
                    assert(diags_view(diags@) =~= dv0 + spec_parse_node(s).2);
                }
                Ok(node)
            },
            _ => {
                proof {
                    assert(false);
                }
                Err(())
            },
        }
    } else if is_punct(toks, '<') {
        let mark = diags.len();
        let result = parse_element(toks, diags);
        let ghost d1 = diags@;
        note_new_diags(diags, mark, span, "while parsing element");
        proof {
            lemma_note_compose(
                d0,
                d1,
                diags@,
                spec_parse_element(s).2,
                span,
                "while parsing element"@,
                mark as int,
            );
        }
        match result {
            Ok(element) => Ok(HtmlInElementContext::Element(element)),
            Err(_) => Err(()),
        }
    } else {
        let _ = take_front(toks);
        push_error(
            diags,
            span,
            "expected a string literal, if, for, a block, a parenthesized expression, or <",
        );
        Err(())
    }
}

/// Parse `if cond { then } else { else }` in element context.
fn parse_if_element(toks: &mut Vec<Tok>, diags: &mut Vec<Diagnostic>) -> (r: Result<
    HtmlInElementContext,
    (),
>)
    requires
        peek_keyword(old(toks)@, "if"@),
    ensures
        diags_extended(old(diags)@, final(diags)@),
        forest_size(final(toks)@) < forest_size(old(toks)@),
        match r {
            Ok(node) => node_wf(node),
            Err(_) => true,
        },
        node_result_view(r) == spec_parse_if_node(old(toks)@).0,
        final(toks)@ == spec_parse_if_node(old(toks)@).1,
        diags_view(final(diags)@) == diags_view(old(diags)@) + spec_parse_if_node(old(toks)@).2,
    decreases forest_size(toks@), 1int,
{
    let ghost s = toks@;
    let ghost d0 = diags@;
    let ghost dv0 = diags_view(diags@);
    let if_tok = take_front(toks);
    let if_span = if_tok.span();
    let (cond, found) = collect_until_brace(toks);
    if !found {
        push_error(diags, if_span, "no { was found after this point");
        return Err(());
    }
    let brace = take_front(toks);
    let then_span = brace.span();
    match brace {
        Tok::Group(_, inner, _) => {
            let ghost innerg = inner@;
            proof {
                assert(forest_size(innerg) < forest_size(s));
            }
            let ghost d_pre = diags@;
            let mark = diags.len();
            let mut inner = inner;
            let then_body = parse_element_nodes(&mut inner, diags);
            let ghost d1 = diags@;
            note_new_diags(diags, mark, then_span, "while parsing then branch");
            proof {
                lemma_note_compose(
                    d_pre,
                    d1,
                    diags@,
                    spec_parse_nodes(innerg).2,
                    then_span,
                    "while parsing then branch"@,
                    mark as int,
                );
            }
            let ghost d1n = add_note_all(
                spec_parse_nodes(innerg).2,
                then_span,
                "while parsing then branch"@,
            );
            if is_keyword(toks, "else") {
                let else_tok = take_front(toks);
                let else_span = else_tok.span();
                if is_group(toks, Delim::Brace) {
                    let brace2 = take_front(toks);
                    match brace2 {
                        Tok::Group(_, einner, _) => {
                            let ghost einnerg = einner@;
                            proof {
                                assert(forest_size(einnerg) < forest_size(s));
                            }
                            let ghost d_pre2 = diags@;
                            let mark2 = diags.len();
                            let mut einner = einner;
                            let else_body = parse_element_nodes(&mut einner, diags);
                            let ghost d2 = diags@;
                            note_new_diags(diags, mark2, else_span, "while parsing else branch");
                            proof {
                                lemma_note_compose(
                                    d_pre2,
                                    d2,
                                    diags@,
                                    spec_parse_nodes(einnerg).2,
                                    else_span,
                                    "while parsing else branch"@,
                                    mark2 as int,
                                );
                                assert(diags_view(diags@) =~= dv0 + (d1n + add_note_all(
                                    spec_parse_nodes(einnerg).2,
                                    else_span,
                                    "while parsing else branch"@,
                                )));
                            }
                            let node = HtmlInElementContext::If(
                                cond,
                                then_body,
                                Some(else_body),
                                if_span,
                            );
                            proof {
                                assert(node_result_view(Ok(node)) == spec_parse_if_node(s).0);
                            }
                            Ok(node)
                        },
                        _ => {
                            proof {
                                assert(false);
                            }
                            Err(())
                        },
                    }
                } else {
                    push_error(diags, else_span, "expected { }");
                    proof {
                        assert(diags_view(diags@) =~= dv0 + (d1n + seq![
                            plain_diag(else_span, "expected { }"@),
                        ]));
                    }
                    return Err(());
                }
            } else {
                let node = HtmlInElementContext::If(cond, then_body, None, if_span);
                proof {
                    assert(node_result_view(Ok(node)) == spec_parse_if_node(s).0);
                }
                Ok(node)
            }
        },
        _ => {
            proof {
                assert(false);
            }
            Err(())
        },
    }
}

/// Parse `for pat in expr { body }` in element context.
fn parse_for_element(toks: &mut Vec<Tok>, diags: &mut Vec<Diagnostic>) -> (r: Result<
    HtmlInElementContext,
    (),
>)
    requires
        peek_keyword(old(toks)@, "for"@),
    ensures
        diags_extended(old(diags)@, final(diags)@),
        forest_size(final(toks)@) < forest_size(old(toks)@),
        match r {
            Ok(node) => node_wf(node),
            Err(_) => true,
        },
        node_result_view(r) == spec_parse_for_node(old(toks)@).0,
        final(toks)@ == spec_parse_for_node(old(toks)@).1,
        diags_view(final(diags)@) == diags_view(old(diags)@) + spec_parse_for_node(old(toks)@).2,
    decreases forest_size(toks@), 1int,
{
    let ghost s = toks@;
    let ghost d0 = diags@;
    let ghost dv0 = diags_view(diags@);
    let for_tok = take_front(toks);
    let for_span = for_tok.span();
    let (pat, found) = collect_until_in(toks);
    if !found {
        push_error(diags, for_span, "no in was found after this point");
        return Err(());
    }
    let _in_tok = take_front(toks);
    let (expr, found2) = collect_until_brace(toks);
    if !found2 {
        push_error(diags, for_span, "no { was found after this point");
        return Err(());
    }
    let brace = take_front(toks);
    let body_span = brace.span();
    match brace {
        Tok::Group(_, inner, _) => {
            let ghost innerg = inner@;
            proof {
                assert(forest_size(innerg) < forest_size(s));
            }
            let ghost d_pre = diags@;
            let mark = diags.len();
            let mut inner = inner;
            let body = parse_element_nodes(&mut inner, diags);
            let ghost d1 = diags@;
            note_new_diags(diags, mark, body_span, "while parsing loop body");
            proof {
                lemma_note_compose(
                    d_pre,
                    d1,
                    diags@,
                    spec_parse_nodes(innerg).2,
                    body_span,
                    "while parsing loop body"@,
                    mark as int,
                );
            }
            let node = HtmlInElementContext::For(pat, expr, body, for_span);
            proof {
                assert(node_result_view(Ok(node)) == spec_parse_for_node(s).0);
            }
            Ok(node)
        },
        _ => {
            proof {
                assert(false);
            }
            Err(())
        },
    }
}

/// Parse a tag name: an optional `!` followed by an identifier.
fn parse_tag(toks: &mut Vec<Tok>, diags: &mut Vec<Diagnostic>) -> (r: Result<HtmlTag, ()>)
    ensures
        diags_extended(old(diags)@, final(diags)@),
        forest_size(final(toks)@) <= forest_size(old(toks)@),
        r is Ok ==> forest_size(final(toks)@) < forest_size(old(toks)@),
        r is Err ==> final(diags)@.len() > old(diags)@.len(),
        r == spec_parse_tag(old(toks)@).0,
        final(toks)@ == spec_parse_tag(old(toks)@).1,
        diags_view(final(diags)@) == diags_view(old(diags)@) + spec_parse_tag(old(toks)@).2,
{
    let ghost s = toks@;
    let ghost dv0 = diags_view(diags@);
    let exclamation = if is_punct(toks, '!') {
        let t = take_front(toks);
        Some(t.span())
    } else {
        None
    };
    if is_ident(toks) {
        let t = take_front(toks);
        match t {
            Tok::Ident(name, sp) => {
                let tag = HtmlTag { exclamation, name, name_span: sp };
                proof {
                    assert(diags_view(diags@) =~= dv0 + spec_parse_tag(s).2);
                }
                Ok(tag)
            },
            _ => {
                proof {
                    assert(false);
                }
                Err(())
            },
        }
    } else {
        let span = front_span(toks);
        push_error(diags, span, "expected identifier");
        Err(())
    }
}

/// Parse an element: `<` tag attributes `>`, and, unless the tag name is in
/// the void set, children followed by `</` tag `>`. A close tag whose name
/// differs from the open tag's is reported as a diagnostic naming both tags,
/// and parsing continues with the given closer taken as authoritative.
pub fn parse_element(toks: &mut Vec<Tok>, diags: &mut Vec<Diagnostic>) -> (r: Result<
    HtmlElement,
    (),
>)
    requires
        peek_punct(old(toks)@, '<'),
    ensures
        diags_extended(old(diags)@, final(diags)@),
        forest_size(final(toks)@) < forest_size(old(toks)@),
        match r {
            Ok(e) => element_wf(e),
            Err(_) => true,
        },
        element_result_view(r) == spec_parse_element(old(toks)@).0,
        final(toks)@ == spec_parse_element(old(toks)@).1,
        diags_view(final(diags)@) == diags_view(old(diags)@) + spec_parse_element(old(toks)@).2,
    decreases forest_size(toks@), 1int,
{
    let ghost s = toks@;
    let ghost d0 = diags@;
    let ghost dv0 = diags_view(diags@);
    let lt = take_front(toks);
    let open_start = lt.span();
    let ghost d_tag = spec_parse_tag(s.drop_first()).2;
    let open_tag_name = match parse_tag(toks, diags) {
        Ok(tag) => tag,
        Err(_) => {
            return Err(());
        },
    };
    proof {
        assert(forest_size(toks@) < forest_size(s));
    }
    let ghost s2 = toks@;
    let ghost d_attrs = spec_parse_attrs(s2).2;
    let attributes = parse_attributes(toks, diags);
    proof {
        assert(diags_view(diags@) =~= dv0 + (d_tag + d_attrs));
    }
    if !is_punct(toks, '>') {
        let span = front_span(toks);
        push_error(diags, span, "expected >");
        proof {
            assert(diags_view(diags@) =~= dv0 + (d_tag + d_attrs + seq![
                plain_diag(span, "expected >"@),
            ]));
        }
        return Err(());
    }
    let gt = take_front(toks);
    let open_end = gt.span();
    let tag_string = open_tag_name.text();
    if is_void_tag(tag_string.as_str()) {
        let e = HtmlElement { open_start, open_tag_name, attributes, open_end, children: None };
        proof {
            assert(element_wf(e));
            assert(element_result_view(Ok(e)) == spec_parse_element(s).0);
        }
        Ok(e)
    } else {
        proof {
            assert(forest_size(toks@) < forest_size(s));
        }
        let ghost s4 = toks@;
        let ghost d_ch = spec_parse_nodes(s4).2;
        let children = parse_element_nodes(toks, diags);
        let ghost dacc = d_tag + d_attrs + d_ch;
        proof {
            assert(diags_view(diags@) =~= dv0 + dacc);
        }
        if !is_punct(toks, '<') {
            let span = front_span(toks);
            push_error(diags, span, "expected closing tag");
            proof {
                assert(diags_view(diags@) =~= dv0 + (dacc + seq![
                    plain_diag(span, "expected closing tag"@),
                ]));
            }
            return Err(());
        }
        let close_lt = take_front(toks);
        if !is_punct(toks, '/') {
            let span = front_span(toks);
            push_error(diags, span, "expected /");
            proof {
                assert(diags_view(diags@) =~= dv0 + (dacc + seq![
                    plain_diag(span, "expected /"@),
                ]));
            }
            return Err(());
        }
        let close_slash = take_front(toks);
        let ghost s7 = toks@;
        let ghost d_ct = spec_parse_tag(s7).2;
        let close_tag = match parse_tag(toks, diags) {
            Ok(tag) => tag,
            Err(_) => {
                let ghost dpre = diags@;
                let help = {
                    let mut m = String::from_str("maybe ");
                    m.append(tag_string.as_str());
                    m.append(
                        " is supposed to be a self-closing tag but the template library doesn't know that?",
                    );
                    m
                };
                let ghost helpg = help@;
                let last = diags.len() - 1;
                let d = &mut diags[last];
                d.span_note(open_start, help);
                proof {
                    assert(helpg =~= help_text(open_tag_name));
                    assert(spec_parse_tag(s7).0 is Err);
                    assert(d_ct.len() == 1);
                    assert(diags_view(dpre).len() == dpre.len());
                    assert(dpre.len() == dv0.len() + dacc.len() + 1);
                    assert(diags_view(dpre)[last as int] == d_ct[0]);
                    assert(diags@.len() == dpre.len());
                    assert(forall|i: int|
                        0 <= i < dpre.len() && i != last ==> diags@[i] == dpre[i]);
                    assert(diag_view(diags@[last as int]) == with_note(
                        diag_view(dpre[last as int]),
                        open_start,
                        helpg,
                    ));
                    let ghost rhs = dv0 + (dacc + note_last(
                        d_ct,
                        open_start,
                        help_text(open_tag_name),
                    ));
                    assert(note_last(d_ct, open_start, help_text(open_tag_name)).len() == 1);
                    assert(rhs.len() == diags@.len());
                    assert forall|i: int| 0 <= i < diags@.len() implies diags_view(diags@)[i]
                        == rhs[i] by {
                        assert(diags_view(diags@)[i] == diag_view(diags@[i]));
                        assert(diags_view(dpre)[i] == diag_view(dpre[i]));
                        if i < last {
                            assert(diags@[i] == dpre[i]);
                            assert(rhs[i] == diags_view(dpre)[i]);
                        } else {
                            assert(i == last);
                            assert(rhs[i] == with_note(d_ct[0], open_start, help_text(
                                open_tag_name,
                            )));
                        }
                    }
                    assert(diags_view(diags@) =~= rhs);
                    assert(diags_extended(d0, diags@));
                }
                return Err(());
            },
        };
        let close_text = close_tag.text();
        let ghost d_mis: Seq<DiagV> = if tag_text(open_tag_name) != tag_text(close_tag) {
            seq![mismatch_diag(open_tag_name, close_tag)]
        } else {
            Seq::empty()
        };
        if !crate::ast::str_eq(tag_string.as_str(), close_text.as_str()) {
            let mut msg = String::from_str("mismatched tag ");
            msg.append(tag_string.as_str());
            let mut d = Diagnostic::error(open_tag_name.span(), msg);
            let mut n1 = String::from_str("");
            n1.append(tag_string.as_str());
            n1.append(" not matching ");
            n1.append(close_text.as_str());
            d.span_note(close_tag.span(), n1);
            let mut n2 = String::from_str("maybe ");
            n2.append(tag_string.as_str());
            n2.append(
                " is supposed to be a self-closing tag but the template library doesn't know that?",
            );
            d.span_note(open_tag_name.span(), n2);
            let ghost dg = d;
            let ghost preview = diags@;
            diags.push(d);
            proof {
                assert(diag_view(dg).message =~= mismatch_diag(open_tag_name, close_tag).message);
                assert(diag_view(dg).notes =~= mismatch_diag(open_tag_name, close_tag).notes);
                assert(diag_view(dg) == mismatch_diag(open_tag_name, close_tag));
                lemma_diags_view_push(preview, dg);
                crate::diagnostics::lemma_diags_extended_push(preview, dg);
                assert(diags_view(diags@) =~= dv0 + (dacc + d_mis));
            }
        } else {
            proof {
                assert(diags_view(diags@) =~= dv0 + (dacc + d_mis));
            }
        }
        if !is_punct(toks, '>') {
            let span = front_span(toks);
            push_error(diags, span, "expected >");
            proof {
                assert(diags_view(diags@) =~= dv0 + (dacc + d_mis + seq![
                    plain_diag(span, "expected >"@),
                ]));
            }
            return Err(());
        }
        let close_gt = take_front(toks);
        let close = HtmlClose {
            lt_span: close_lt.span(),
            slash_span: close_slash.span(),
            tag: close_tag,
            gt_span: close_gt.span(),
        };
        let e = HtmlElement {
            open_start,
            open_tag_name,
            attributes,
            open_end,
            children: Some((children, close)),
        };
        proof {
            assert(element_wf(e));
            assert(element_result_view(Ok(e)) == spec_parse_element(s).0);
        }
        Ok(e)
    }
}

/// Parse attributes until the stream is exhausted or stands at `>`. A failed
/// attribute records its diagnostics, skips ahead and continues.
pub fn parse_attributes(toks: &mut Vec<Tok>, diags: &mut Vec<Diagnostic>) -> (r: Vec<
    HtmlAttribute,
>)
    ensures
        diags_extended(old(diags)@, final(diags)@),
        forest_size(final(toks)@) <= forest_size(old(toks)@),
        final(toks)@.len() == 0 || peek_punct(final(toks)@, '>'),
        attrs_view(r@) == spec_parse_attrs(old(toks)@).0,
        final(toks)@ == spec_parse_attrs(old(toks)@).1,
        diags_view(final(diags)@) == diags_view(old(diags)@) + spec_parse_attrs(old(toks)@).2,
    decreases forest_size(toks@), 3int,
{
    let ghost s = toks@;
    let ghost d0 = diags@;
    let ghost dv0 = diags_view(diags@);
    if toks.len() == 0 || is_punct(toks, '>') {
        let r: Vec<HtmlAttribute> = Vec::new();
        proof {
            assert(attrs_view(r@) =~= spec_parse_attrs(s).0);
            assert(diags_view(diags@) =~= dv0 + spec_parse_attrs(s).2);
        }
        r
    } else {
        let attr_span = front_span(toks);
        let mark = diags.len();
        let result = parse_attribute(toks, diags);
        let ghost d1 = diags@;
        note_new_diags(diags, mark, attr_span, "while parsing attribute");
        proof {
            lemma_note_compose(
                d0,
                d1,
                diags@,
                spec_parse_attr(s).2,
                attr_span,
                "while parsing attribute"@,
                mark as int,
            );
            assert(forest_size(toks@) < forest_size(s));
        }
        let ghost s1 = toks@;
        let mut rest = parse_attributes(toks, diags);
        proof {
            assert(diags_view(diags@) =~= dv0 + (add_note_all(
                spec_parse_attr(s).2,
                attr_span,
                "while parsing attribute"@,
            ) + spec_parse_attrs(s1).2));
        }
        match result {
            Ok(attr) => {
                let ghost attrg = attr;
                let ghost restg = rest@;
                let mut r: Vec<HtmlAttribute> = Vec::new();
                r.push(attr);
                r.append(&mut rest);
                proof {
                    assert(r@ =~= seq![attrg] + restg);
                    assert((seq![attrg] + restg)[0] == attrg);
                    assert((seq![attrg] + restg).drop_first() =~= restg);
                    assert(attrs_view(r@) =~= seq![attr_view(attrg)] + attrs_view(restg));
                    assert(attrs_view(r@) =~= spec_parse_attrs(s).0);
                }
                r
            },
            Err(_) => {
                proof {
                    assert(attrs_view(rest@) =~= spec_parse_attrs(s).0);
                }
                rest
            },
        }
    }
}

/// Parse the continuation segments of a chained attribute key: a `-` or `:`
/// separator followed by an identifier, repeated.
fn parse_key_segments(toks: &mut Vec<Tok>, diags: &mut Vec<Diagnostic>) -> (r: Result<
    Vec<KeySegment>,
    (),
>)
    ensures
        diags_extended(old(diags)@, final(diags)@),
        forest_size(final(toks)@) <= forest_size(old(toks)@),
        segs_result_view(r) == spec_parse_key_segments(old(toks)@).0,
        final(toks)@ == spec_parse_key_segments(old(toks)@).1,
        diags_view(final(diags)@) == diags_view(old(diags)@) + spec_parse_key_segments(
            old(toks)@,
        ).2,
    decreases forest_size(toks@),
{
    let ghost s = toks@;
    let ghost dv0 = diags_view(diags@);
    if is_punct(toks, '-') || is_punct(toks, ':') {
        let sep_tok = take_front(toks);
        let sep = match sep_tok {
            Tok::Punct(c, _, _) => if c == '-' {
                DashOrColon::Dash
            } else {
                DashOrColon::Colon
            },
            _ => DashOrColon::Dash,
        };
        if is_ident(toks) {
            let t = take_front(toks);
            match t {
                Tok::Ident(name, sp) => {
                    let seg = KeySegment { sep, name, span: sp };
                    let ghost segg = seg;
                    match parse_key_segments(toks, diags) {
                        Ok(mut rest) => {
                            let ghost restg = rest@;
                            let mut r: Vec<KeySegment> = Vec::new();
                            r.push(seg);
                            r.append(&mut rest);
                            proof {
                                assert(r@ =~= seq![segg] + restg);
                                assert(diags_view(diags@) =~= dv0 + spec_parse_key_segments(s).2);
                            }
                            Ok(r)
                        },
                        Err(_) => Err(()),
                    }
                },
                _ => {
                    proof {
                        assert(false);
                    }
                    Err(())
                },
            }
        } else {
            let span = front_span(toks);
            push_error(diags, span, "expected identifier");
            Err(())
        }
    } else {
        proof {
            assert(diags_view(diags@) =~= dv0 + spec_parse_key_segments(s).2);
        }
        Ok(Vec::new())
    }
}

/// Parse one attribute: a dash- or colon-chained identifier key, optionally
/// followed by `=` and a value, which is either a string literal or a
/// bracketed list of attribute-value nodes.
pub fn parse_attribute(toks: &mut Vec<Tok>, diags: &mut Vec<Diagnostic>) -> (r: Result<
    HtmlAttribute,
    (),
>)
    requires
        old(toks)@.len() > 0,
    ensures
        diags_extended(old(diags)@, final(diags)@),
        forest_size(final(toks)@) < forest_size(old(toks)@),
        attr_result_view(r) == spec_parse_attr(old(toks)@).0,
        final(toks)@ == spec_parse_attr(old(toks)@).1,
        diags_view(final(diags)@) == diags_view(old(diags)@) + spec_parse_attr(old(toks)@).2,
    decreases forest_size(toks@), 2int,
{
    let ghost s = toks@;
    let ghost d0 = diags@;
    let ghost dv0 = diags_view(diags@);
    let span = front_span(toks);
    if is_ident(toks) {
        let t = take_front(toks);
        match t {
            Tok::Ident(first, first_span) => {
                let ghost d_seg = spec_parse_key_segments(s.drop_first()).2;
                let rest = match parse_key_segments(toks, diags) {
                    Ok(rest) => rest,
                    Err(_) => {
                        return Err(());
                    },
                };
                let key = AttributeKey { first, first_span, rest };
                let ghost keyg = key;
                if is_punct(toks, '=') {
                    let eq = take_front(toks);
                    let eq_span = eq.span();
                    if is_str(toks) {
                        let t2 = take_front(toks);
                        match t2 {
                            Tok::Str(text, sp) => {
                                let ghost textg = text;
                                let mut value: Vec<HtmlInAttributeValueContext> = Vec::new();
                                value.push(HtmlInAttributeValueContext::Literal(text, sp));
                                let ghost valueg = value@;
                                let attr = HtmlAttribute { key, value: Some((eq_span, value)) };
                                proof {
                                    assert(valueg.len() == 1);
                                    assert(valueg[0] == HtmlInAttributeValueContext::Literal(
                                        textg,
                                        sp,
                                    ));
                                    assert(valueg.drop_first()
                                        =~= Seq::<HtmlInAttributeValueContext>::empty());
                                    assert(av_nodes_view(
                                        Seq::<HtmlInAttributeValueContext>::empty(),
                                    ) =~= Seq::<AvNodeV>::empty());
                                    assert(av_node_view(valueg[0]) == AvNodeV::Literal(
                                        textg,
                                        sp,
                                    ));
                                    assert(av_nodes_view(valueg) =~= seq![
                                        AvNodeV::Literal(textg, sp),
                                    ]);
                                    assert(attr_result_view(Ok(attr)) == spec_parse_attr(s).0);
                                    assert(diags_view(diags@) =~= dv0 + spec_parse_attr(s).2);
                                }
                                Ok(attr)
                            },
                            _ => {
                                proof {
                                    assert(false);
                                }
                                Err(())
                            },
                        }
                    } else if is_group(toks, Delim::Bracket) {
                        let t2 = take_front(toks);
                        match t2 {
                            Tok::Group(_, inner, bracket_span) => {
                                let ghost innerg = inner@;
                                proof {
                                    assert(forest_size(innerg) < forest_size(s));
                                }
                                let ghost d_pre = diags@;
                                let mark = diags.len();
                                let mut inner = inner;
                                let value = parse_attribute_value_nodes(&mut inner, diags);
                                let ghost d1 = diags@;
                                note_new_diags(
                                    diags,
                                    mark,
                                    bracket_span,
                                    "while parsing attribute value",
                                );
                                proof {
                                    lemma_note_compose(
                                        d_pre,
                                        d1,
                                        diags@,
                                        spec_parse_av_nodes(innerg).2,
                                        bracket_span,
                                        "while parsing attribute value"@,
                                        mark as int,
                                    );
                                    assert(diags_view(diags@) =~= dv0 + (d_seg + add_note_all(
                                        spec_parse_av_nodes(innerg).2,
                                        bracket_span,
                                        "while parsing attribute value"@,
                                    )));
                                }
                                let attr = HtmlAttribute { key, value: Some((eq_span, value)) };
                                proof {
                                    assert(attr_result_view(Ok(attr)) == spec_parse_attr(s).0);
                                }
                                Ok(attr)
                            },
                            _ => {
                                proof {
                                    assert(false);
                                }
                                Err(())
                            },
                        }
                    } else {
                        let span2 = front_span(toks);
                        push_error(diags, span2, "expected a string literal or [ ]");
                        proof {
                            assert(diags_view(diags@) =~= dv0 + (d_seg + seq![
                                plain_diag(span2, "expected a string literal or [ ]"@),
                            ]));
                        }
                        Err(())
                    }
                } else {
                    let attr = HtmlAttribute { key, value: None };
                    proof {
                        assert(attr_result_view(Ok(attr)) == spec_parse_attr(s).0);
                    }
                    Ok(attr)
                }
            },
            _ => {
                proof {
                    assert(false);
                }
                Err(())
            },
        }
    } else {
        let _ = take_front(toks);
        push_error(diags, span, "expected an attribute identifier");
        Err(())
    }
}

/// Parse attribute-value nodes until the stream is exhausted. A failed
/// production records its diagnostics, skips ahead and continues.
pub fn parse_attribute_value_nodes(toks: &mut Vec<Tok>, diags: &mut Vec<Diagnostic>) -> (r: Vec<
    HtmlInAttributeValueContext,
>)
    ensures
        diags_extended(old(diags)@, final(diags)@),
        forest_size(final(toks)@) <= forest_size(old(toks)@),
        final(toks)@.len() == 0,
        av_nodes_view(r@) == spec_parse_av_nodes(old(toks)@).0,
        final(toks)@ == spec_parse_av_nodes(old(toks)@).1,
        diags_view(final(diags)@) == diags_view(old(diags)@) + spec_parse_av_nodes(old(toks)@).2,
    decreases forest_size(toks@), 3int,
{
    let ghost s = toks@;
    let ghost d0 = diags@;
    let ghost dv0 = diags_view(diags@);
    if toks.len() == 0 {
        let r: Vec<HtmlInAttributeValueContext> = Vec::new();
        proof {
            assert(av_nodes_view(r@) =~= spec_parse_av_nodes(s).0);
            assert(diags_view(diags@) =~= dv0 + spec_parse_av_nodes(s).2);
        }
        r
    } else {
        let part_span = front_span(toks);
        let mark = diags.len();
        let result = parse_attribute_value_node(toks, diags);
        let ghost d1 = diags@;
        note_new_diags(diags, mark, part_span, "while parsing attribute value part");
        proof {
            lemma_note_compose(
                d0,
                d1,
                diags@,
                spec_parse_av_node(s).2,
                part_span,
                "while parsing attribute value part"@,
                mark as int,
            );
            assert(forest_size(toks@) < forest_size(s));
        }
        let ghost s1 = toks@;
        let mut rest = parse_attribute_value_nodes(toks, diags);
        proof {
            assert(diags_view(diags@) =~= dv0 + (add_note_all(
                spec_parse_av_node(s).2,
                part_span,
                "while parsing attribute value part"@,
            ) + spec_parse_av_nodes(s1).2));
        }
        match result {
            Ok(node) => {
                let ghost nodeg = node;
                let ghost restg = rest@;
                let mut r: Vec<HtmlInAttributeValueContext> = Vec::new();
                r.push(node);
                r.append(&mut rest);
                proof {
                    assert(r@ =~= seq![nodeg] + restg);
                    assert((seq![nodeg] + restg)[0] == nodeg);
                    assert((seq![nodeg] + restg).drop_first() =~= restg);
                    assert(av_nodes_view(r@) =~= seq![av_node_view(nodeg)] + av_nodes_view(restg));
                    assert(av_nodes_view(r@) =~= spec_parse_av_nodes(s).0);
                }
                r
            },
            Err(_) => {
                proof {
                    assert(av_nodes_view(rest@) =~= spec_parse_av_nodes(s).0);
                }
                rest
            },
        }
    }
}

/// Parse one attribute-value node, selected by first-token lookahead: a
/// string literal, `if`, `for`, a brace block, or a parenthesised expression.
/// No element can appear here.
pub fn parse_attribute_value_node(toks: &mut Vec<Tok>, diags: &mut Vec<Diagnostic>) -> (r: Result<
    HtmlInAttributeValueContext,
    (),
>)
    requires
        old(toks)@.len() > 0,
    ensures
        diags_extended(old(diags)@, final(diags)@),
        forest_size(final(toks)@) < forest_size(old(toks)@),
        av_result_view(r) == spec_parse_av_node(old(toks)@).0,
        final(toks)@ == spec_parse_av_node(old(toks)@).1,
        diags_view(final(diags)@) == diags_view(old(diags)@) + spec_parse_av_node(old(toks)@).2,
    decreases forest_size(toks@), 2int,
{
    proof {
        reveal_strlit("if");
        reveal_strlit("for");
        assert("if"@.len() == 2);
        assert("for"@.len() == 3);
        assert("if"@ != "for"@);
    }
    let ghost s = toks@;
    let ghost d0 = diags@;
    let ghost dv0 = diags_view(diags@);
    let span = front_span(toks);
    if is_str(toks) {
        let t = take_front(toks);
        match t {
            Tok::Str(text, sp) => {
                let node = HtmlInAttributeValueContext::Literal(text, sp);
                proof {
                    assert(diags_view(diags@) =~= dv0 + spec_parse_av_node(s).2);
                }
                Ok(node)
            },
            _ => {
                proof {
                    assert(false);
                }
                Err(())
            },
        }
    } else if is_keyword(toks, "if") {
        let mark = diags.len();
        let result = parse_if_attribute_value(toks, diags);
        let ghost d1 = diags@;
        note_new_diags(diags, mark, span, "while parsing if");
        proof {
            lemma_note_compose(
                d0,
                d1,
                diags@,
                spec_parse_if_av(s).2,
                span,
                "while parsing if"@,
                mark as int,
            );
        }
        result
    } else if is_keyword(toks, "for") {
        let mark = diags.len();
        let result = parse_for_attribute_value(toks, diags);
        let ghost d1 = diags@;
        note_new_diags(diags, mark, span, "while parsing for");
        proof {
            lemma_note_compose(
                d0,
                d1,
                diags@,
                spec_parse_for_av(s).2,
                span,
                "while parsing for"@,
                mark as int,
            );
        }
        result
    } else if is_group(toks, Delim::Brace) {
        let t = take_front(toks);
        match t {
            Tok::Group(_, inner, sp) => {
                let node = HtmlInAttributeValueContext::Computation(inner, sp);
                proof {
                    assert(diags_view(diags@) =~= dv0 + spec_parse_av_node(s).2);
                }
                Ok(node)
            },
            _ => {
                proof {
                    assert(false);
                }
                Err(())
            },
        }
    } else if is_group(toks, Delim::Paren) {
        let t = take_front(toks);
        match t {
            Tok::Group(_, inner, sp) => {
                let node = HtmlInAttributeValueContext::ComputedValue(inner, sp);
                proof {
                    assert(diags_view(diags@) =~= dv0 + spec_parse_av_node(s).2);
                }
                Ok(node)
            },
            _ => {
                proof {
                    assert(false);
                }
                Err(())
            },
        }
    } else {
        let _ = take_front(toks);
        push_error(
            diags,
            span,
            "expected a string literal, if, for, a block, or a parenthesized expression",
        );
        Err(())
    }
}

/// Parse `if cond { then } else { else }` in attribute-value context.
fn parse_if_attribute_value(toks: &mut Vec<Tok>, diags: &mut Vec<Diagnostic>) -> (r: Result<
    HtmlInAttributeValueContext,
    (),
>)
    requires
        peek_keyword(old(toks)@, "if"@),
    ensures
        diags_extended(old(diags)@, final(diags)@),
        forest_size(final(toks)@) < forest_size(old(toks)@),
        av_result_view(r) == spec_parse_if_av(old(toks)@).0,
        final(toks)@ == spec_parse_if_av(old(toks)@).1,
        diags_view(final(diags)@) == diags_view(old(diags)@) + spec_parse_if_av(old(toks)@).2,
    decreases forest_size(toks@), 1int,
{
    let ghost s = toks@;
    let ghost d0 = diags@;
    let ghost dv0 = diags_view(diags@);
    let if_tok = take_front(toks);
    let if_span = if_tok.span();
    let (cond, found) = collect_until_brace(toks);
    if !found {
        push_error(diags, if_span, "no { was found after this point");
        return Err(());
    }
    let brace = take_front(toks);
    let then_span = brace.span();
    match brace {
        Tok::Group(_, inner, _) => {
            let ghost innerg = inner@;
            proof {
                assert(forest_size(innerg) < forest_size(s));
            }
            let ghost d_pre = diags@;
            let mark = diags.len();
            let mut inner = inner;
            let then_body = parse_attribute_value_nodes(&mut inner, diags);
            let ghost d1 = diags@;
            note_new_diags(diags, mark, then_span, "while parsing then branch");
            proof {
                lemma_note_compose(
                    d_pre,
                    d1,
                    diags@,
                    spec_parse_av_nodes(innerg).2,
                    then_span,
                    "while parsing then branch"@,
                    mark as int,
                );
            }
            let ghost d1n = add_note_all(
                spec_parse_av_nodes(innerg).2,
                then_span,
                "while parsing then branch"@,
            );
            if is_keyword(toks, "else") {
                let else_tok = take_front(toks);
                let else_span = else_tok.span();
                if is_group(toks, Delim::Brace) {
                    let brace2 = take_front(toks);
                    match brace2 {
                        Tok::Group(_, einner, _) => {
                            let ghost einnerg = einner@;
                            proof {
                                assert(forest_size(einnerg) < forest_size(s));
                            }
                            let ghost d_pre2 = diags@;
                            let mark2 = diags.len();
                            let mut einner = einner;
                            let else_body = parse_attribute_value_nodes(&mut einner, diags);
                            let ghost d2 = diags@;
                            note_new_diags(diags, mark2, else_span, "while parsing else branch");
                            proof {
                                lemma_note_compose(
                                    d_pre2,
                                    d2,
                                    diags@,
                                    spec_parse_av_nodes(einnerg).2,
                                    else_span,
                                    "while parsing else branch"@,
                                    mark2 as int,
                                );
                                assert(diags_view(diags@) =~= dv0 + (d1n + add_note_all(
                                    spec_parse_av_nodes(einnerg).2,
                                    else_span,
                                    "while parsing else branch"@,
                                )));
                            }
                            let node = HtmlInAttributeValueContext::If(
                                cond,
                                then_body,
                                Some(else_body),
                                if_span,
                            );
                            proof {
                                assert(av_result_view(Ok(node)) == spec_parse_if_av(s).0);
                            }
                            Ok(node)
                        },
                        _ => {
                            proof {
                                assert(false);
                            }
                            Err(())
                        },
                    }
                } else {
                    push_error(diags, else_span, "expected { }");
                    proof {
                        assert(diags_view(diags@) =~= dv0 + (d1n + seq![
                            plain_diag(else_span, "expected { }"@),
                        ]));
                    }
                    return Err(());
                }
            } else {
                let node = HtmlInAttributeValueContext::If(cond, then_body, None, if_span);
                proof {
                    assert(av_result_view(Ok(node)) == spec_parse_if_av(s).0);
                }
                Ok(node)
            }
        },
        _ => {
            proof {
                assert(false);
            }
            Err(())
        },
    }
}

/// Parse `for pat in expr { body }` in attribute-value context.
fn parse_for_attribute_value(toks: &mut Vec<Tok>, diags: &mut Vec<Diagnostic>) -> (r: Result<
    HtmlInAttributeValueContext,
    (),
>)
    requires
        peek_keyword(old(toks)@, "for"@),
    ensures
        diags_extended(old(diags)@, final(diags)@),
        forest_size(final(toks)@) < forest_size(old(toks)@),
        av_result_view(r) == spec_parse_for_av(old(toks)@).0,
        final(toks)@ == spec_parse_for_av(old(toks)@).1,
        diags_view(final(diags)@) == diags_view(old(diags)@) + spec_parse_for_av(old(toks)@).2,
    decreases forest_size(toks@), 1int,
{
    let ghost s = toks@;
    let ghost d0 = diags@;
    let ghost dv0 = diags_view(diags@);
    let for_tok = take_front(toks);
    let for_span = for_tok.span();
    let (pat, found) = collect_until_in(toks);
    if !found {
        push_error(diags, for_span, "no in was found after this point");
        return Err(());
    }
    let _in_tok = take_front(toks);
    let (expr, found2) = collect_until_brace(toks);
    if !found2 {
        push_error(diags, for_span, "no { was found after this point");
        return Err(());
    }
    let brace = take_front(toks);
    let body_span = brace.span();
    match brace {
        Tok::Group(_, inner, _) => {
            let ghost innerg = inner@;
            proof {
                assert(forest_size(innerg) < forest_size(s));
            }
            let ghost d_pre = diags@;
            let mark = diags.len();
            let mut inner = inner;
            let body = parse_attribute_value_nodes(&mut inner, diags);
            let ghost d1 = diags@;
            note_new_diags(diags, mark, body_span, "while parsing loop body");
            proof {
                lemma_note_compose(
                    d_pre,
                    d1,
                    diags@,
                    spec_parse_av_nodes(innerg).2,
                    body_span,
                    "while parsing loop body"@,
                    mark as int,
                );
            }
            let node = HtmlInAttributeValueContext::For(pat, expr, body, for_span);
            proof {
                assert(av_result_view(Ok(node)) == spec_parse_for_av(s).0);
            }
            Ok(node)
        },
        _ => {
            proof {
                assert(false);
            }
            Err(())
        },
    }
}

/// Parse a whole template: element-context nodes until the input is
/// exhausted, with all diagnostics collected. A best-effort node tree is
/// always produced; no parse error aborts the compilation.
pub fn parse_template(input: Vec<Tok>) -> (r: MyParseToParse<Vec<HtmlInElementContext>>)
    ensures
        nodes_wf(r.value@),
        el_nodes_view(r.value@) == spec_parse_template(input@).0,
        diags_view(r.diagnostics@) == spec_parse_template(input@).1,
    decreases forest_size(input@),
{
    let ghost inputg = input@;
    let mut toks = input;
    let mut diags: Vec<Diagnostic> = Vec::new();
    proof {
        assert(diags_view(diags@) =~= Seq::<DiagV>::empty());
    }
    let value = parse_element_nodes(&mut toks, &mut diags);
    proof {
        assert(diags_view(diags@) =~= spec_parse_nodes(inputg).2);
    }
    if toks.len() > 0 {
        // a stray closing-tag opener at top level: report it, skip past it,
        // and parse the rest
        let span = front_span(&toks);
        push_error(&mut diags, span, "unexpected closing tag");
        let _ = take_front(&mut toks);
        proof {
            assert(forest_size(toks@) < forest_size(inputg));
        }
        let ghost restg = toks@;
        let more = parse_template(toks);
        let ghost valueg = value@;
        let mut value = value;
        let mut morev = more.value;
        let ghost moreg = morev@;
        value.append(&mut morev);
        let ghost diagsg = diags@;
        let mut diags = diags;
        let mut morediags = more.diagnostics;
        let ghost morediagsg = morediags@;
        diags.append(&mut morediags);
        proof {
            lemma_nodes_wf_append(valueg, moreg);
            crate::ast::lemma_el_nodes_view_concat(valueg, moreg);
            lemma_diags_view_concat(diagsg, morediagsg);
            assert(el_nodes_view(valueg + moreg) =~= spec_parse_template(inputg).0);
            assert(diags_view(diagsg + morediagsg) =~= spec_parse_template(inputg).1);
        }
        MyParseToParse { value, diagnostics: diags }
    } else {
        proof {
            assert(el_nodes_view(value@) =~= spec_parse_template(inputg).0);
            assert(diags_view(diags@) =~= spec_parse_template(inputg).1);
        }
        MyParseToParse { value, diagnostics: diags }
    }
}

/// Two well-formed lists concatenate to a well-formed list.
proof fn lemma_nodes_wf_append(a: Seq<HtmlInElementContext>, b: Seq<HtmlInElementContext>)
    requires
        nodes_wf(a),
        nodes_wf(b),
    ensures
        nodes_wf(a + b),
    decreases a,
{
    if a.len() == 0 {
        assert(a + b =~= b);
    } else {
        assert((a + b)[0] == a[0]);
        assert((a + b).drop_first() =~= a.drop_first() + b);
        lemma_nodes_wf_append(a.drop_first(), b);
    }
}

} // verus!
