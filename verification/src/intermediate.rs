//! The intermediate representation and the literal-merging simplifier.
//!
//! Lowering (see the `lower` module) turns the node tree into a flat sequence
//! of instructions; the simplifier then merges adjacent literal instructions,
//! recursively inside conditional and loop bodies, joining their spans and
//! concatenating their text. After simplification no two adjacent literal
//! instructions remain at any nesting level, and the concatenation of all
//! literal text, in order, is unchanged.

use vstd::prelude::*;
use crate::tokens::{Span, Tok, spec_join};

verus! {

/// One instruction of the intermediate representation.
#[derive(Debug)]
pub enum Intermediate {
    /// Emit a constant chunk of text.
    Literal(String, Span),
    /// Splice an opaque computation block.
    Computation(Vec<Tok>, Span),
    /// Emit the value of an opaque expression.
    ComputedValue(Vec<Tok>, Span),
    /// Conditional: condition tokens, then-instructions, optional
    /// else-instructions.
    If(Vec<Tok>, Vec<Intermediate>, Option<Vec<Intermediate>>, Span),
    /// Loop: pattern tokens, iterator-expression tokens, body instructions.
    For(Vec<Tok>, Vec<Tok>, Vec<Intermediate>, Span),
}

/// The mathematical shape of one instruction: text as character sequences,
/// nested bodies as sequences of instruction shapes.
pub enum InstV {
    Literal(Seq<char>, Span),
    Computation(Seq<Tok>, Span),
    ComputedValue(Seq<Tok>, Span),
    If(Seq<Tok>, Seq<InstV>, Option<Seq<InstV>>, Span),
    For(Seq<Tok>, Seq<Tok>, Seq<InstV>, Span),
}

/// The shape of an instruction.
pub open spec fn inst_view(i: Intermediate) -> InstV
    decreases i,
{
    match i {
        Intermediate::Literal(t, sp) => InstV::Literal(t@, sp),
        Intermediate::Computation(b, sp) => InstV::Computation(b@, sp),
        Intermediate::ComputedValue(e, sp) => InstV::ComputedValue(e@, sp),
        Intermediate::If(c, th, el, sp) => InstV::If(
            c@,
            insts_view(th@),
            match el {
                Some(e) => Some(insts_view(e@)),
                None => None,
            },
            sp,
        ),
        Intermediate::For(p, e, body, sp) => InstV::For(p@, e@, insts_view(body@), sp),
    }
}

/// The shape of an instruction sequence.
pub open spec fn insts_view(s: Seq<Intermediate>) -> Seq<InstV>
    decreases s,
{
    if s.len() == 0 {
        Seq::empty()
    } else {
        seq![inst_view(s[0])] + insts_view(s.drop_first())
    }
}

/// The size of one instruction, counting everything nested inside it.
pub open spec fn inst_size(i: Intermediate) -> nat
    decreases i,
{
    match i {
        Intermediate::Literal(_, _) => 1,
        Intermediate::Computation(_, _) => 1,
        Intermediate::ComputedValue(_, _) => 1,
        Intermediate::If(_, th, el, _) => 1 + insts_size(th@) + match el {
            Some(e) => insts_size(e@),
            None => 0,
        },
        Intermediate::For(_, _, body, _) => 1 + insts_size(body@),
    }
}

/// The total size of an instruction sequence.
pub open spec fn insts_size(s: Seq<Intermediate>) -> nat
    decreases s,
{
    if s.len() == 0 {
        0
    } else {
        inst_size(s[0]) + insts_size(s.drop_first())
    }
}

/// The size of one instruction shape.
pub open spec fn instv_size(i: InstV) -> nat
    decreases i,
{
    match i {
        InstV::Literal(_, _) => 1,
        InstV::Computation(_, _) => 1,
        InstV::ComputedValue(_, _) => 1,
        InstV::If(_, th, el, _) => 1 + instvs_size(th) + match el {
            Some(e) => instvs_size(e),
            None => 0,
        },
        InstV::For(_, _, body, _) => 1 + instvs_size(body),
    }
}

/// The total size of a sequence of instruction shapes.
pub open spec fn instvs_size(s: Seq<InstV>) -> nat
    decreases s,
{
    if s.len() == 0 {
        0
    } else {
        instv_size(s[0]) + instvs_size(s.drop_first())
    }
}

/// Shapes of sequences concatenate element-wise.
pub proof fn lemma_insts_view_concat(a: Seq<Intermediate>, b: Seq<Intermediate>)
    ensures
        insts_view(a + b) == insts_view(a) + insts_view(b),
    decreases a,
{
    if a.len() == 0 {
        assert(a + b =~= b);
        assert(insts_view(a) + insts_view(b) =~= insts_view(b));
    } else {
        assert((a + b).drop_first() =~= a.drop_first() + b);
        lemma_insts_view_concat(a.drop_first(), b);
        assert(insts_view(a + b) =~= insts_view(a) + insts_view(b));
    }
}

/// Pushing an instruction pushes its shape.
pub proof fn lemma_insts_view_push(s: Seq<Intermediate>, x: Intermediate)
    ensures
        insts_view(s.push(x)) == insts_view(s).push(inst_view(x)),
{
    assert(s.push(x) =~= s + seq![x]);
    lemma_insts_view_concat(s, seq![x]);
    assert(seq![x].len() == 1);
    assert(seq![x][0] == x);
    assert(seq![x].drop_first() =~= Seq::<Intermediate>::empty());
    assert(insts_view(Seq::<Intermediate>::empty()) =~= Seq::<InstV>::empty());
    assert(insts_view(seq![x]) =~= seq![inst_view(x)]);
    assert(insts_view(s) + seq![inst_view(x)] =~= insts_view(s).push(inst_view(x)));
}

/// A literal pending to be merged with any literal that follows it.
pub open spec fn pending_view(p: Option<(String, Span)>) -> Option<(Seq<char>, Span)> {
    match p {
        None => None,
        Some((t, sp)) => Some((t@, sp)),
    }
}

/// The pending literal flushed as an instruction sequence: empty if there is
/// none, a single literal instruction otherwise.
pub open spec fn spec_flush(p: Option<(Seq<char>, Span)>) -> Seq<InstV> {
    match p {
        None => Seq::empty(),
        Some((t, sp)) => seq![InstV::Literal(t, sp)],
    }
}

/// The simplification of an instruction sequence, carrying a pending literal:
/// each literal joins the pending one; any other instruction flushes the
/// pending literal in front of itself and has its bodies simplified
/// recursively; whatever is pending at the end is flushed last.
pub open spec fn spec_simplify_rec(
    s: Seq<InstV>,
    pending: Option<(Seq<char>, Span)>,
) -> Seq<InstV>
    decreases instvs_size(s), s.len(),
    via spec_simplify_rec_decreases
{
    if s.len() == 0 {
        spec_flush(pending)
    } else {
        let rest = s.drop_first();
        match s[0] {
            InstV::Literal(t, sp) => {
                match pending {
                    None => spec_simplify_rec(rest, Some((t, sp))),
                    Some((t0, sp0)) => spec_simplify_rec(rest, Some((t0 + t, spec_join(sp0, sp)))),
                }
            },
            InstV::Computation(b, sp) => spec_flush(pending) + seq![InstV::Computation(b, sp)]
                + spec_simplify_rec(rest, None),
            InstV::ComputedValue(e, sp) => spec_flush(pending) + seq![
                InstV::ComputedValue(e, sp),
            ] + spec_simplify_rec(rest, None),
            InstV::If(c, th, el, sp) => spec_flush(pending) + seq![
                InstV::If(
                    c,
                    spec_simplify_rec(th, None),
                    match el {
                        Some(e) => Some(spec_simplify_rec(e, None)),
                        None => None,
                    },
                    sp,
                ),
            ] + spec_simplify_rec(rest, None),
            InstV::For(p, e, body, sp) => spec_flush(pending) + seq![
                InstV::For(p, e, spec_simplify_rec(body, None), sp),
            ] + spec_simplify_rec(rest, None),
        }
    }
}

#[via_fn]
proof fn spec_simplify_rec_decreases(s: Seq<InstV>, pending: Option<(Seq<char>, Span)>) {
    if s.len() > 0 {
        assert(instvs_size(s) == instv_size(s[0]) + instvs_size(s.drop_first()));
        match s[0] {
            InstV::If(c, th, el, sp) => {
                assert(instv_size(s[0]) == 1 + instvs_size(th) + match el {
                    Some(e) => instvs_size(e),
                    None => 0,
                });
            },
            InstV::For(p, e, body, sp) => {
                assert(instv_size(s[0]) == 1 + instvs_size(body));
            },
            _ => {
                assert(instv_size(s[0]) == 1);
            },
        }
    }
}

/// The simplification of an instruction sequence.
pub open spec fn spec_simplify(s: Seq<InstV>) -> Seq<InstV> {
    spec_simplify_rec(s, None)
}

/// Merge adjacent literal instructions, at this level and recursively inside
/// every conditional and loop body. Joined literals concatenate their text
/// and join their spans.
pub fn simplify(input: Vec<Intermediate>) -> (r: Vec<Intermediate>)
    ensures
        insts_view(r@) == spec_simplify(insts_view(input@)),
{
    simplify_rec(input, None)
}

/// The pending literal as an instruction vector.
fn flush_exec(pending: Option<(String, Span)>) -> (r: Vec<Intermediate>)
    ensures
        insts_view(r@) == spec_flush(pending_view(pending)),
{
    match pending {
        None => {
            let r: Vec<Intermediate> = Vec::new();
            r
        },
        Some((t, sp)) => {
            let ghost tg = t@;
            let mut r: Vec<Intermediate> = Vec::new();
            r.push(Intermediate::Literal(t, sp));
            proof {
                lemma_insts_view_push(Seq::empty(), Intermediate::Literal(t, sp));
                assert(insts_view(r@) =~= spec_flush(pending_view(pending)));
            }
            r
        },
    }
}

/// No two adjacent instructions of a sequence are both literals.
pub open spec fn no_adjacent_literals(s: Seq<InstV>) -> bool {
    forall|i: int|
        0 <= i && i + 1 < s.len() ==> !((#[trigger] s[i]) is Literal && s[i + 1] is Literal)
}

/// Every conditional and loop body nested in the sequence is simplified.
pub open spec fn bodies_simplified(s: Seq<InstV>) -> bool
    decreases s,
{
    if s.len() == 0 {
        true
    } else {
        instv_simplified(s[0]) && bodies_simplified(s.drop_first())
    }
}

/// The bodies of one instruction are simplified.
pub open spec fn instv_simplified(i: InstV) -> bool
    decreases i,
{
    match i {
        InstV::If(_, th, el, _) => {
            &&& no_adjacent_literals(th)
            &&& bodies_simplified(th)
            &&& match el {
                Some(e) => no_adjacent_literals(e) && bodies_simplified(e),
                None => true,
            }
        },
        InstV::For(_, _, body, _) => no_adjacent_literals(body) && bodies_simplified(body),
        _ => true,
    }
}

/// A sequence is simplified: no two adjacent literals at this level, and all
/// nested bodies simplified in turn.
pub open spec fn simplified(s: Seq<InstV>) -> bool {
    no_adjacent_literals(s) && bodies_simplified(s)
}

/// The concatenation, in order, of all literal text in an instruction shape.
pub open spec fn flat_inst_v(i: InstV) -> Seq<char>
    decreases i,
{
    match i {
        InstV::Literal(t, _) => t,
        InstV::Computation(_, _) => Seq::empty(),
        InstV::ComputedValue(_, _) => Seq::empty(),
        InstV::If(_, th, el, _) => flat_text_v(th) + match el {
            Some(e) => flat_text_v(e),
            None => Seq::empty(),
        },
        InstV::For(_, _, body, _) => flat_text_v(body),
    }
}

/// The concatenation, in order, of all literal text in a sequence of shapes.
pub open spec fn flat_text_v(s: Seq<InstV>) -> Seq<char>
    decreases s,
{
    if s.len() == 0 {
        Seq::empty()
    } else {
        flat_inst_v(s[0]) + flat_text_v(s.drop_first())
    }
}

/// The text a pending literal contributes.
pub open spec fn pending_text(p: Option<(Seq<char>, Span)>) -> Seq<char> {
    match p {
        None => Seq::empty(),
        Some((t, _)) => t,
    }
}

proof fn lemma_bodies_simplified_concat(a: Seq<InstV>, b: Seq<InstV>)
    ensures
        bodies_simplified(a + b) == (bodies_simplified(a) && bodies_simplified(b)),
    decreases a,
{
    if a.len() == 0 {
        assert(a + b =~= b);
    } else {
        assert((a + b).drop_first() =~= a.drop_first() + b);
        lemma_bodies_simplified_concat(a.drop_first(), b);
    }
}

proof fn lemma_flat_text_v_concat(a: Seq<InstV>, b: Seq<InstV>)
    ensures
        flat_text_v(a + b) == flat_text_v(a) + flat_text_v(b),
    decreases a,
{
    if a.len() == 0 {
        assert(a + b =~= b);
        assert(flat_text_v(a) + flat_text_v(b) =~= flat_text_v(b));
    } else {
        assert((a + b).drop_first() =~= a.drop_first() + b);
        lemma_flat_text_v_concat(a.drop_first(), b);
        assert(flat_text_v(a + b) =~= flat_text_v(a) + flat_text_v(b));
    }
}

proof fn lemma_singleton_instv(x: InstV)
    ensures
        bodies_simplified(seq![x]) == instv_simplified(x),
        flat_text_v(seq![x]) == flat_inst_v(x),
{
    assert(seq![x].len() == 1);
    assert(seq![x][0] == x);
    assert(seq![x].drop_first() =~= Seq::<InstV>::empty());
    assert(bodies_simplified(Seq::<InstV>::empty()));
    assert(flat_text_v(Seq::<InstV>::empty()) =~= Seq::<char>::empty());
    assert(flat_inst_v(x) + Seq::<char>::empty() =~= flat_inst_v(x));
}

/// The simplifier's recursion leaves a simplified sequence and preserves the
/// literal text: the result's text is the pending text followed by the
/// input's.
proof fn lemma_simplify_rec_ok(s: Seq<InstV>, pending: Option<(Seq<char>, Span)>)
    ensures
        simplified(spec_simplify_rec(s, pending)),
        flat_text_v(spec_simplify_rec(s, pending)) == pending_text(pending) + flat_text_v(s),
    decreases instvs_size(s), s.len(),
{
    let r = spec_simplify_rec(s, pending);
    if s.len() == 0 {
        match pending {
            None => {
                assert(flat_text_v(r) =~= pending_text(pending) + flat_text_v(s));
            },
            Some((t, sp)) => {
                lemma_singleton_instv(InstV::Literal(t, sp));
                assert(flat_text_v(r) =~= pending_text(pending) + flat_text_v(s));
            },
        }
    } else {
        let rest = s.drop_first();
        assert(instvs_size(s) == instv_size(s[0]) + instvs_size(rest));
        assert(flat_text_v(s) == flat_inst_v(s[0]) + flat_text_v(rest));
        match s[0] {
            InstV::Literal(t, sp) => {
                assert(instv_size(s[0]) == 1);
                match pending {
                    None => {
                        lemma_simplify_rec_ok(rest, Some((t, sp)));
                        assert(pending_text(pending) + flat_text_v(s) =~= t + flat_text_v(rest));
                    },
                    Some((t0, sp0)) => {
                        lemma_simplify_rec_ok(rest, Some((t0 + t, spec_join(sp0, sp))));
                        assert(pending_text(pending) + flat_text_v(s) =~= (t0 + t) + flat_text_v(
                            rest,
                        ));
                    },
                }
            },
            InstV::Computation(b, sp) => {
                assert(instv_size(s[0]) == 1);
                lemma_simplify_rec_ok(rest, None);
                lemma_flush_then_node(pending, InstV::Computation(b, sp), rest, Seq::empty());
            },
            InstV::ComputedValue(e, sp) => {
                assert(instv_size(s[0]) == 1);
                lemma_simplify_rec_ok(rest, None);
                lemma_flush_then_node(pending, InstV::ComputedValue(e, sp), rest, Seq::empty());
            },
            InstV::If(c, th, el, sp) => {
                assert(instv_size(s[0]) == 1 + instvs_size(th) + match el {
                    Some(e) => instvs_size(e),
                    None => 0,
                });
                lemma_simplify_rec_ok(th, None);
                let elv = match el {
                    Some(e) => Some(spec_simplify_rec(e, None)),
                    None => None,
                };
                let eltext: Seq<char> = match el {
                    Some(e) => flat_text_v(e),
                    None => Seq::empty(),
                };
                match el {
                    Some(e) => {
                        lemma_simplify_rec_ok(e, None);
                        assert(flat_text_v(spec_simplify_rec(e, None)) =~= flat_text_v(e));
                    },
                    None => {},
                }
                assert(flat_text_v(spec_simplify_rec(th, None)) =~= flat_text_v(th));
                lemma_simplify_rec_ok(rest, None);
                let node = InstV::If(c, spec_simplify_rec(th, None), elv, sp);
                assert(instv_simplified(node));
                assert(flat_inst_v(node) == flat_text_v(th) + eltext);
                assert(flat_inst_v(s[0]) == flat_text_v(th) + eltext);
                lemma_flush_then_node(pending, node, rest, flat_text_v(th) + eltext);
            },
            InstV::For(p, e, body, sp) => {
                assert(instv_size(s[0]) == 1 + instvs_size(body));
                lemma_simplify_rec_ok(body, None);
                assert(flat_text_v(spec_simplify_rec(body, None)) =~= flat_text_v(body));
                lemma_simplify_rec_ok(rest, None);
                let node = InstV::For(p, e, spec_simplify_rec(body, None), sp);
                assert(instv_simplified(node));
                lemma_flush_then_node(pending, node, rest, flat_text_v(body));
            },
        }
    }
}

/// A flushed pending literal, a non-literal instruction whose bodies are
/// simplified, and a simplified tail concatenate to a simplified sequence
/// whose text is the pending text, the node's text, then the tail's.
proof fn lemma_flush_then_node(
    pending: Option<(Seq<char>, Span)>,
    node: InstV,
    rest: Seq<InstV>,
    nodetext: Seq<char>,
)
    requires
        !(node is Literal),
        instv_simplified(node),
        flat_inst_v(node) == nodetext,
        simplified(spec_simplify_rec(rest, None)),
        flat_text_v(spec_simplify_rec(rest, None)) == pending_text(
            Option::<(Seq<char>, Span)>::None,
        ) + flat_text_v(rest),
    ensures
        simplified(spec_flush(pending) + seq![node] + spec_simplify_rec(rest, None)),
        flat_text_v(spec_flush(pending) + seq![node] + spec_simplify_rec(rest, None))
            == pending_text(pending) + (nodetext + flat_text_v(rest)),
{
    let f = spec_flush(pending);
    let tail = spec_simplify_rec(rest, None);
    let r = f + seq![node] + tail;
    assert(f.len() <= 1);
    // text
    lemma_flat_text_v_concat(f + seq![node], tail);
    lemma_flat_text_v_concat(f, seq![node]);
    lemma_singleton_instv(node);
    match pending {
        None => {
            assert(flat_text_v(f) =~= pending_text(pending));
        },
        Some((t, sp)) => {
            lemma_singleton_instv(InstV::Literal(t, sp));
            assert(flat_text_v(f) =~= pending_text(pending));
        },
    }
    assert(flat_text_v(tail) =~= flat_text_v(rest));
    assert(flat_text_v(r) =~= pending_text(pending) + (nodetext + flat_text_v(rest)));
    // bodies simplified
    lemma_bodies_simplified_concat(f + seq![node], tail);
    lemma_bodies_simplified_concat(f, seq![node]);
    lemma_singleton_instv(node);
    match pending {
        None => {},
        Some((t, sp)) => {
            lemma_singleton_instv(InstV::Literal(t, sp));
        },
    }
    // no adjacent literals
    assert forall|i: int| 0 <= i && i + 1 < r.len() implies !((#[trigger] r[i]) is Literal && r[i
        + 1] is Literal) by {
        if i + 1 == f.len() {
            assert(r[i + 1] == node);
        } else if i == f.len() {
            assert(r[i] == node);
        } else if i + 1 > f.len() {
            assert(r[i] == tail[i - f.len() - 1]);
            assert(r[i + 1] == tail[i - f.len()]);
        }
    }
}

/// Law: after simplification no two adjacent literal instructions remain, at
/// any nesting level.
pub proof fn lemma_simplify_no_adjacent_literals(s: Seq<InstV>)
    ensures
        simplified(spec_simplify(s)),
{
    lemma_simplify_rec_ok(s, None);
}

/// Law: simplification preserves the concatenation, in order, of all literal
/// text.
pub proof fn lemma_simplify_preserves_text(s: Seq<InstV>)
    ensures
        flat_text_v(spec_simplify(s)) == flat_text_v(s),
{
    lemma_simplify_rec_ok(s, None);
    assert(pending_text(Option::<(Seq<char>, Span)>::None) + flat_text_v(s) =~= flat_text_v(s));
}

/// The simplifier's worker, threading the pending literal.
fn simplify_rec(input: Vec<Intermediate>, pending: Option<(String, Span)>) -> (r: Vec<
    Intermediate,
>)
    ensures
        insts_view(r@) == spec_simplify_rec(insts_view(input@), pending_view(pending)),
    decreases insts_size(input@), input@.len(),
{
    let mut input = input;
    if input.len() == 0 {
        let r = flush_exec(pending);
        assert(insts_view(input@) =~= Seq::<InstV>::empty());
        r
    } else {
        let ghost orig = input@;
        let ghost vs = insts_view(orig);
        let first = input.remove(0);
        proof {
            assert(input@ =~= orig.drop_first());
            assert(insts_size(orig) == inst_size(orig[0]) + insts_size(orig.drop_first()));
            assert(vs.len() > 0);
            assert(vs[0] == inst_view(orig[0]));
            assert(vs.drop_first() =~= insts_view(orig.drop_first()));
        }
        match first {
            Intermediate::Literal(t, sp) => {
                proof {
                    assert(inst_size(orig[0]) == 1);
                }
                match pending {
                    None => {
                        let r = simplify_rec(input, Some((t, sp)));
                        assert(insts_view(r@) == spec_simplify_rec(vs, pending_view(pending)));
                        r
                    },
                    Some((t0, sp0)) => {
                        let ghost t0g = t0@;
                        let merged = t0.concat(t.as_str());
                        let joined = sp0.join(sp);
                        let r = simplify_rec(input, Some((merged, joined)));
                        assert(insts_view(r@) == spec_simplify_rec(vs, pending_view(pending)));
                        r
                    },
                }
            },
            Intermediate::Computation(b, sp) => {
                proof {
                    assert(inst_size(orig[0]) == 1);
                }
                let node = Intermediate::Computation(b, sp);
                let ghost nodeg = node;
                let tail = simplify_rec(input, None);
                let ghost tailg = tail@;
                let mut r = flush_exec(pending);
                let ghost flushed = r@;
                r.push(node);
                let ghost mid = r@;
                let mut tail = tail;
                r.append(&mut tail);
                proof {
                    lemma_insts_view_push(flushed, nodeg);
                    lemma_insts_view_concat(mid, tailg);
                    assert(insts_view(r@) =~= spec_simplify_rec(vs, pending_view(pending)));
                }
                r
            },
            Intermediate::ComputedValue(e, sp) => {
                proof {
                    assert(inst_size(orig[0]) == 1);
                }
                let node = Intermediate::ComputedValue(e, sp);
                let ghost nodeg = node;
                let tail = simplify_rec(input, None);
                let ghost tailg = tail@;
                let mut r = flush_exec(pending);
                let ghost flushed = r@;
                r.push(node);
                let ghost mid = r@;
                let mut tail = tail;
                r.append(&mut tail);
                proof {
                    lemma_insts_view_push(flushed, nodeg);
                    lemma_insts_view_concat(mid, tailg);
                    assert(insts_view(r@) =~= spec_simplify_rec(vs, pending_view(pending)));
                }
                r
            },
            Intermediate::If(c, th, el, sp) => {
                let ghost thg = th@;
                let ghost elg = el;
                proof {
                    assert(inst_size(orig[0]) == 1 + insts_size(thg) + match elg {
                        Some(e) => insts_size(e@),
                        None => 0,
                    });
                }
                let th2 = simplify_rec(th, None);
                let el2 = match el {
                    Some(e) => Some(simplify_rec(e, None)),
                    None => None,
                };
                let node = Intermediate::If(c, th2, el2, sp);
                let ghost nodeg = node;
                let tail = simplify_rec(input, None);
                let ghost tailg = tail@;
                let mut r = flush_exec(pending);
                let ghost flushed = r@;
                r.push(node);
                let ghost mid = r@;
                let mut tail = tail;
                r.append(&mut tail);
                proof {
                    lemma_insts_view_push(flushed, nodeg);
                    lemma_insts_view_concat(mid, tailg);
                    assert(inst_view(nodeg) == InstV::If(
                        c@,
                        spec_simplify_rec(insts_view(thg), None),
                        match elg {
                            Some(e) => Some(spec_simplify_rec(insts_view(e@), None)),
                            None => None,
                        },
                        sp,
                    ));
                    assert(insts_view(r@) =~= spec_simplify_rec(vs, pending_view(pending)));
                }
                r
            },
            Intermediate::For(p, e, body, sp) => {
                let ghost bodyg = body@;
                proof {
                    assert(inst_size(orig[0]) == 1 + insts_size(bodyg));
                }
                let body2 = simplify_rec(body, None);
                let node = Intermediate::For(p, e, body2, sp);
                let ghost nodeg = node;
                let tail = simplify_rec(input, None);
                let ghost tailg = tail@;
                let mut r = flush_exec(pending);
                let ghost flushed = r@;
                r.push(node);
                let ghost mid = r@;
                let mut tail = tail;
                r.append(&mut tail);
                proof {
                    lemma_insts_view_push(flushed, nodeg);
                    lemma_insts_view_concat(mid, tailg);
                    assert(inst_view(nodeg) == InstV::For(
                        p@,
                        e@,
                        spec_simplify_rec(insts_view(bodyg), None),
                        sp,
                    ));
                    assert(insts_view(r@) =~= spec_simplify_rec(vs, pending_view(pending)));
                }
                r
            },
        }
    }
}

} // verus!
