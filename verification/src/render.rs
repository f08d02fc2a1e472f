//! A reference evaluator for compiled templates.
//!
//! The generated producer emits one chunk per literal and per computed value,
//! in instruction order. This module gives that emission behaviour directly,
//! over an environment supplying the values of the opaque expressions: a
//! computed value or condition or iterator expression consisting of a single
//! identifier is looked up by name; anything else, or a missing name, renders
//! as empty, false, or no rows. A loop binds its pattern identifier to each
//! row in source order, shadowing outer bindings.

use vstd::prelude::*;
use crate::tokens::Tok;
use crate::intermediate::{Intermediate, inst_size, insts_size};

verus! {

/// The values an evaluation runs against: condition names with their truth
/// values, computed-value names with their output text, and iterator names
/// with their rows. Lookup takes the first match.
pub struct RenderEnv {
    pub conds: Vec<(String, bool)>,
    pub vals: Vec<(String, String)>,
    pub loops: Vec<(String, Vec<String>)>,
}

/// The text of each chunk.
pub open spec fn chunks_view(s: Seq<String>) -> Seq<Seq<char>> {
    s.map_values(|x: String| x@)
}

/// Loop bindings in scope, innermost first.
pub open spec fn locals_view(s: Seq<(String, String)>) -> Seq<(Seq<char>, Seq<char>)> {
    s.map_values(|p: (String, String)| (p.0@, p.1@))
}

/// The name of an optional binding pattern.
pub open spec fn pat_view(p: Option<String>) -> Option<Seq<char>> {
    match p {
        Some(n) => Some(n@),
        None => None,
    }
}

/// The name an opaque expression is looked up by: its single identifier, if
/// that is all it consists of.
pub open spec fn expr_key(e: Seq<Tok>) -> Option<Seq<char>> {
    if e.len() == 1 {
        match e[0] {
            Tok::Ident(n, _) => Some(n@),
            _ => None,
        }
    } else {
        None
    }
}

/// First-match lookup of a condition name, from index `i` on.
pub open spec fn lookup_bool_from(s: Seq<(String, bool)>, i: int, key: Seq<char>) -> Option<bool>
    decreases s.len() - i,
{
    if i < 0 || i >= s.len() {
        None
    } else if s[i].0@ == key {
        Some(s[i].1)
    } else {
        lookup_bool_from(s, i + 1, key)
    }
}

/// First-match lookup of a computed-value name, from index `i` on.
pub open spec fn lookup_text_from(s: Seq<(String, String)>, i: int, key: Seq<char>) -> Option<
    Seq<char>,
>
    decreases s.len() - i,
{
    if i < 0 || i >= s.len() {
        None
    } else if s[i].0@ == key {
        Some(s[i].1@)
    } else {
        lookup_text_from(s, i + 1, key)
    }
}

/// First-match lookup of an iterator name, from index `i` on.
pub open spec fn lookup_rows_from(s: Seq<(String, Vec<String>)>, i: int, key: Seq<char>) -> Option<
    Seq<String>,
>
    decreases s.len() - i,
{
    if i < 0 || i >= s.len() {
        None
    } else if s[i].0@ == key {
        Some(s[i].1@)
    } else {
        lookup_rows_from(s, i + 1, key)
    }
}

/// First-match lookup of a loop binding, from index `i` on.
pub open spec fn lookup_local_from(s: Seq<(Seq<char>, Seq<char>)>, i: int, key: Seq<char>) -> Option<
    Seq<char>,
>
    decreases s.len() - i,
{
    if i < 0 || i >= s.len() {
        None
    } else if s[i].0 == key {
        Some(s[i].1)
    } else {
        lookup_local_from(s, i + 1, key)
    }
}

/// The text a computed value emits: the binding or environment value of its
/// single-identifier name, bindings shadowing the environment; empty if the
/// expression has no such name or the name is unknown.
pub open spec fn value_of(
    env: RenderEnv,
    locals: Seq<(Seq<char>, Seq<char>)>,
    e: Seq<Tok>,
) -> Seq<char> {
    match expr_key(e) {
        None => Seq::empty(),
        Some(k) => match lookup_local_from(locals, 0, k) {
            Some(v) => v,
            None => match lookup_text_from(env.vals@, 0, k) {
                Some(v) => v,
                None => Seq::empty(),
            },
        },
    }
}

/// The truth value of a condition: the environment value of its
/// single-identifier name; false if there is no such name or it is unknown.
pub open spec fn cond_of(env: RenderEnv, c: Seq<Tok>) -> bool {
    match expr_key(c) {
        None => false,
        Some(k) => match lookup_bool_from(env.conds@, 0, k) {
            Some(b) => b,
            None => false,
        },
    }
}

/// The rows a loop iterates over: the environment rows of its
/// single-identifier iterator name; none if there is no such name or it is
/// unknown.
pub open spec fn rows_of(env: RenderEnv, e: Seq<Tok>) -> Seq<String> {
    match expr_key(e) {
        None => Seq::empty(),
        Some(k) => match lookup_rows_from(env.loops@, 0, k) {
            Some(rows) => rows,
            None => Seq::empty(),
        },
    }
}

/// One more binding in scope, shadowing the rest.
pub open spec fn bind(
    pat: Option<Seq<char>>,
    row: String,
    locals: Seq<(Seq<char>, Seq<char>)>,
) -> Seq<(Seq<char>, Seq<char>)> {
    match pat {
        Some(n) => seq![(n, row@)] + locals,
        None => locals,
    }
}

/// The chunks an instruction sequence emits, in order: one chunk per literal
/// and per computed value; a computation emits nothing; a conditional emits
/// what its taken branch emits; a loop emits its body's chunks once per row,
/// with the pattern name bound to the row.
pub open spec fn spec_emit(
    s: Seq<Intermediate>,
    env: RenderEnv,
    locals: Seq<(Seq<char>, Seq<char>)>,
) -> Seq<Seq<char>>
    decreases insts_size(s), 0int, 0int,
    via spec_emit_decreases
{
    if s.len() == 0 {
        Seq::empty()
    } else {
        (match s[0] {
            Intermediate::Literal(t, _) => seq![t@],
            Intermediate::Computation(_, _) => Seq::empty(),
            Intermediate::ComputedValue(e, _) => seq![value_of(env, locals, e@)],
            Intermediate::If(c, th, el, _) => if cond_of(env, c@) {
                spec_emit(th@, env, locals)
            } else {
                match el {
                    Some(e) => spec_emit(e@, env, locals),
                    None => Seq::empty(),
                }
            },
            Intermediate::For(p, e, body, _) => spec_emit_rows(
                body@,
                rows_of(env, e@),
                env,
                locals,
                expr_key(p@),
            ),
        }) + spec_emit(s.drop_first(), env, locals)
    }
}

#[via_fn]
proof fn spec_emit_decreases(s: Seq<Intermediate>, env: RenderEnv, locals: Seq<(Seq<char>, Seq<char>)>) {
    if s.len() > 0 {
        assert(insts_size(s) == inst_size(s[0]) + insts_size(s.drop_first()));
        match s[0] {
            Intermediate::If(c, th, el, sp) => {
                assert(inst_size(s[0]) == 1 + insts_size(th@) + match el {
                    Some(e) => insts_size(e@),
                    None => 0,
                });
            },
            Intermediate::For(p, e, body, sp) => {
                assert(inst_size(s[0]) == 1 + insts_size(body@));
            },
            _ => {
                assert(inst_size(s[0]) == 1);
            },
        }
    }
}

/// The chunks a loop body emits over the given rows, in row order.
pub open spec fn spec_emit_rows(
    body: Seq<Intermediate>,
    rows: Seq<String>,
    env: RenderEnv,
    locals: Seq<(Seq<char>, Seq<char>)>,
    pat: Option<Seq<char>>,
) -> Seq<Seq<char>>
    decreases insts_size(body), 1int, rows.len(),
{
    if rows.len() == 0 {
        Seq::empty()
    } else {
        spec_emit(body, env, bind(pat, rows[0], locals)) + spec_emit_rows(
            body,
            rows.drop_first(),
            env,
            locals,
            pat,
        )
    }
}

/// The concatenation of a chunk sequence.
pub open spec fn concat_chunks(c: Seq<Seq<char>>) -> Seq<char>
    decreases c.len(),
{
    if c.len() == 0 {
        Seq::empty()
    } else {
        c[0] + concat_chunks(c.drop_first())
    }
}

/// The full rendering of an instruction sequence under an environment: the
/// concatenation, in emission order, of all chunks.
pub open spec fn spec_render(s: Seq<Intermediate>, env: RenderEnv) -> Seq<char> {
    concat_chunks(spec_emit(s, env, Seq::empty()))
}

/// Deep copy of a row list, equal in value to the original.
fn clone_strings(v: &Vec<String>) -> (r: Vec<String>)
    ensures
        r@ == v@,
{
    let mut r: Vec<String> = Vec::new();
    let mut i: usize = 0;
    while i < v.len()
        invariant
            i <= v@.len(),
            r@ == v@.subrange(0, i as int),
        decreases v@.len() - i,
    {
        let t = v[i].clone();
        r.push(t);
        proof {
            assert(r@ =~= v@.subrange(0, i + 1 as int));
        }
        i = i + 1;
    }
    proof {
        assert(r@ =~= v@);
    }
    r
}

/// Deep copy of the bindings in scope, equal in value to the original.
fn clone_locals(v: &Vec<(String, String)>) -> (r: Vec<(String, String)>)
    ensures
        r@ == v@,
{
    let mut r: Vec<(String, String)> = Vec::new();
    let mut i: usize = 0;
    while i < v.len()
        invariant
            i <= v@.len(),
            r@ == v@.subrange(0, i as int),
        decreases v@.len() - i,
    {
        let p = &v[i];
        let t = (p.0.clone(), p.1.clone());
        r.push(t);
        proof {
            assert(r@ =~= v@.subrange(0, i + 1 as int));
        }
        i = i + 1;
    }
    proof {
        assert(r@ =~= v@);
    }
    r
}

/// The single-identifier name of an opaque expression, if it has one.
fn expr_key_exec(e: &Vec<Tok>) -> (r: Option<String>)
    ensures
        pat_view(r) == expr_key(e@),
{
    if e.len() == 1 {
        match &e[0] {
            Tok::Ident(n, _) => Some(n.clone()),
            _ => None,
        }
    } else {
        None
    }
}

fn lookup_bool(v: &Vec<(String, bool)>, i: usize, key: &str) -> (r: Option<bool>)
    requires
        i <= v@.len(),
    ensures
        r == lookup_bool_from(v@, i as int, key@),
    decreases v@.len() - i,
{
    if i == v.len() {
        None
    } else if crate::ast::str_eq(v[i].0.as_str(), key) {
        Some(v[i].1)
    } else {
        lookup_bool(v, i + 1, key)
    }
}

fn lookup_text(v: &Vec<(String, String)>, i: usize, key: &str) -> (r: Option<String>)
    requires
        i <= v@.len(),
    ensures
        match r {
            Some(t) => lookup_text_from(v@, i as int, key@) == Some(t@),
            None => lookup_text_from(v@, i as int, key@) is None,
        },
    decreases v@.len() - i,
{
    if i == v.len() {
        None
    } else if crate::ast::str_eq(v[i].0.as_str(), key) {
        Some(v[i].1.clone())
    } else {
        lookup_text(v, i + 1, key)
    }
}

fn lookup_rows(v: &Vec<(String, Vec<String>)>, i: usize, key: &str) -> (r: Option<Vec<String>>)
    requires
        i <= v@.len(),
    ensures
        match r {
            Some(rows) => lookup_rows_from(v@, i as int, key@) == Some(rows@),
            None => lookup_rows_from(v@, i as int, key@) is None,
        },
    decreases v@.len() - i,
{
    if i == v.len() {
        None
    } else if crate::ast::str_eq(v[i].0.as_str(), key) {
        Some(clone_strings(&v[i].1))
    } else {
        lookup_rows(v, i + 1, key)
    }
}

fn lookup_local(v: &Vec<(String, String)>, i: usize, key: &str) -> (r: Option<String>)
    requires
        i <= v@.len(),
    ensures
        match r {
            Some(t) => lookup_local_from(locals_view(v@), i as int, key@) == Some(t@),
            None => lookup_local_from(locals_view(v@), i as int, key@) is None,
        },
    decreases v@.len() - i,
{
    if i == v.len() {
        None
    } else if crate::ast::str_eq(v[i].0.as_str(), key) {
        Some(v[i].1.clone())
    } else {
        lookup_local(v, i + 1, key)
    }
}

/// The text a computed value emits under the environment and bindings.
fn eval_value(env: &RenderEnv, locals: &Vec<(String, String)>, e: &Vec<Tok>) -> (r: String)
    ensures
        r@ == value_of(*env, locals_view(locals@), e@),
{
    match expr_key_exec(e) {
        None => String::new(),
        Some(k) => match lookup_local(locals, 0, k.as_str()) {
            Some(v) => v,
            None => match lookup_text(&env.vals, 0, k.as_str()) {
                Some(v) => v,
                None => String::new(),
            },
        },
    }
}

/// The truth value of a condition under the environment.
fn eval_cond(env: &RenderEnv, c: &Vec<Tok>) -> (r: bool)
    ensures
        r == cond_of(*env, c@),
{
    match expr_key_exec(c) {
        None => false,
        Some(k) => match lookup_bool(&env.conds, 0, k.as_str()) {
            Some(b) => b,
            None => false,
        },
    }
}

/// Emit the chunks of the instructions from index `i` on, under an
/// environment and the bindings in scope, in emission order.
fn render_from(
    ir: &Vec<Intermediate>,
    i: usize,
    env: &RenderEnv,
    locals: &Vec<(String, String)>,
) -> (r: Vec<String>)
    requires
        i <= ir@.len(),
    ensures
        chunks_view(r@) == spec_emit(ir@.skip(i as int), *env, locals_view(locals@)),
    decreases insts_size(ir@.skip(i as int)), 0int, 0int,
{
    let ghost s = ir@.skip(i as int);
    if i == ir.len() {
        let r: Vec<String> = Vec::new();
        proof {
            assert(s =~= Seq::<Intermediate>::empty());
            assert(chunks_view(r@) =~= Seq::<Seq<char>>::empty());
        }
        r
    } else {
        proof {
            assert(s[0] == ir@[i as int]);
            assert(s.drop_first() =~= ir@.skip(i + 1 as int));
            assert(insts_size(s) == inst_size(s[0]) + insts_size(s.drop_first()));
        }
        let ghost lv = locals_view(locals@);
        let mut head: Vec<String> = match &ir[i] {
            Intermediate::Literal(t, _) => {
                let mut h: Vec<String> = Vec::new();
                h.push(t.clone());
                proof {
                    assert(chunks_view(h@) =~= seq![t@]);
                    assert(spec_emit(s, *env, lv) =~= chunks_view(h@) + spec_emit(
                        s.drop_first(),
                        *env,
                        lv,
                    ));
                }
                h
            },
            Intermediate::Computation(_, _) => {
                let h: Vec<String> = Vec::new();
                proof {
                    assert(chunks_view(h@) =~= Seq::<Seq<char>>::empty());
                    assert(spec_emit(s, *env, lv) =~= chunks_view(h@) + spec_emit(
                        s.drop_first(),
                        *env,
                        lv,
                    ));
                }
                h
            },
            Intermediate::ComputedValue(e, _) => {
                let v = eval_value(env, locals, e);
                let mut h: Vec<String> = Vec::new();
                h.push(v);
                proof {
                    assert(chunks_view(h@) =~= seq![value_of(*env, lv, e@)]);
                    assert(spec_emit(s, *env, lv) =~= chunks_view(h@) + spec_emit(
                        s.drop_first(),
                        *env,
                        lv,
                    ));
                }
                h
            },
            Intermediate::If(c, th, el, _) => {
                proof {
                    assert(inst_size(s[0]) == 1 + insts_size(th@) + match el {
                        Some(e) => insts_size(e@),
                        None => 0,
                    });
                }
                let h: Vec<String> = if eval_cond(env, c) {
                    proof {
                        assert(th@.skip(0) =~= th@);
                    }
                    render_from(th, 0, env, locals)
                } else {
                    match el {
                        Some(e) => {
                            proof {
                                assert(e@.skip(0) =~= e@);
                            }
                            render_from(e, 0, env, locals)
                        },
                        None => {
                            let h: Vec<String> = Vec::new();
                            proof {
                                assert(chunks_view(h@) =~= Seq::<Seq<char>>::empty());
                            }
                            h
                        },
                    }
                };
                proof {
                    assert(spec_emit(s, *env, lv) =~= chunks_view(h@) + spec_emit(
                        s.drop_first(),
                        *env,
                        lv,
                    ));
                }
                h
            },
            Intermediate::For(p, e, body, _) => {
                proof {
                    assert(inst_size(s[0]) == 1 + insts_size(body@));
                }
                let pat = expr_key_exec(p);
                let rows = match expr_key_exec(e) {
                    None => Vec::new(),
                    Some(k) => match lookup_rows(&env.loops, 0, k.as_str()) {
                        Some(rows) => rows,
                        None => Vec::new(),
                    },
                };
                proof {
                    assert(rows@ == rows_of(*env, e@));
                }
                let h = render_rows(body, &rows, 0, &pat, env, locals);
                proof {
                    assert(rows@.skip(0) =~= rows@);
                    assert(spec_emit(s, *env, lv) =~= chunks_view(h@) + spec_emit(
                        s.drop_first(),
                        *env,
                        lv,
                    ));
                }
                h
            },
        };
        let ghost headg = head@;
        let mut tail = render_from(ir, i + 1, env, locals);
        let ghost tailg = tail@;
        head.append(&mut tail);
        proof {
            assert(head@ =~= headg + tailg);
            lemma_chunks_view_concat(headg, tailg);
            assert(chunks_view(head@) =~= spec_emit(s, *env, locals_view(locals@)));
        }
        head
    }
}

/// Emit the chunks of a loop body over the rows from index `k` on, binding
/// the pattern name to each row in turn.
fn render_rows(
    body: &Vec<Intermediate>,
    rows: &Vec<String>,
    k: usize,
    pat: &Option<String>,
    env: &RenderEnv,
    locals: &Vec<(String, String)>,
) -> (r: Vec<String>)
    requires
        k <= rows@.len(),
    ensures
        chunks_view(r@) == spec_emit_rows(
            body@,
            rows@.skip(k as int),
            *env,
            locals_view(locals@),
            pat_view(*pat),
        ),
    decreases insts_size(body@), 1int, rows@.len() - k,
{
    if k == rows.len() {
        let r: Vec<String> = Vec::new();
        proof {
            assert(rows@.skip(k as int) =~= Seq::<String>::empty());
            assert(chunks_view(r@) =~= Seq::<Seq<char>>::empty());
        }
        r
    } else {
        let row = rows[k].clone();
        let ghost rowg = row;
        let locals2: Vec<(String, String)> = match pat {
            Some(n) => {
                let mut l: Vec<(String, String)> = Vec::new();
                l.push((n.clone(), row));
                let mut rest = clone_locals(locals);
                l.append(&mut rest);
                l
            },
            None => clone_locals(locals),
        };
        proof {
            assert(locals_view(locals2@) =~= bind(pat_view(*pat), rowg, locals_view(locals@)));
            assert(body@.skip(0) =~= body@);
        }
        let mut head = render_from(body, 0, env, &locals2);
        let ghost headg = head@;
        let mut tail = render_rows(body, rows, k + 1, pat, env, locals);
        let ghost tailg = tail@;
        head.append(&mut tail);
        proof {
            assert(rows@.skip(k as int)[0] == rows@[k as int]);
            assert(rows@.skip(k as int).drop_first() =~= rows@.skip(k + 1 as int));
            assert(head@ =~= headg + tailg);
            lemma_chunks_view_concat(headg, tailg);
            assert(chunks_view(head@) =~= spec_emit_rows(
                body@,
                rows@.skip(k as int),
                *env,
                locals_view(locals@),
                pat_view(*pat),
            ));
        }
        head
    }
}

/// Chunk views concatenate element-wise.
proof fn lemma_chunks_view_concat(a: Seq<String>, b: Seq<String>)
    ensures
        chunks_view(a + b) == chunks_view(a) + chunks_view(b),
{
    assert(chunks_view(a + b) =~= chunks_view(a) + chunks_view(b));
}

/// Emit the chunks of an instruction sequence under an environment, with no
/// bindings in scope.
pub fn render(ir: &Vec<Intermediate>, env: &RenderEnv) -> (r: Vec<String>)
    ensures
        chunks_view(r@) == spec_emit(ir@, *env, Seq::empty()),
{
    let locals: Vec<(String, String)> = Vec::new();
    let r = render_from(ir, 0, env, &locals);
    proof {
        assert(locals_view(locals@) =~= Seq::<(Seq<char>, Seq<char>)>::empty());
        assert(ir@.skip(0) =~= ir@);
    }
    r
}

/// Concatenate chunks into the full rendered text.
pub fn concat_rendered(chunks: Vec<String>) -> (r: String)
    ensures
        r@ == concat_chunks(chunks_view(chunks@)),
{
    let mut out = String::new();
    let mut i: usize = 0;
    proof {
        assert(chunks@.skip(0) =~= chunks@);
        assert(Seq::<char>::empty() + concat_chunks(chunks_view(chunks@)) =~= concat_chunks(
            chunks_view(chunks@),
        ));
    }
    while i < chunks.len()
        invariant
            i <= chunks@.len(),
            out@ + concat_chunks(chunks_view(chunks@.skip(i as int))) == concat_chunks(
                chunks_view(chunks@),
            ),
        decreases chunks@.len() - i,
    {
        let ghost pre = out@;
        out.append(chunks[i].as_str());
        proof {
            assert(chunks_view(chunks@.skip(i as int))[0] == chunks@[i as int]@);
            assert(chunks_view(chunks@.skip(i as int)).drop_first() =~= chunks_view(
                chunks@.skip(i + 1 as int),
            ));
            assert(out@ + concat_chunks(chunks_view(chunks@.skip(i + 1 as int))) =~= pre
                + concat_chunks(chunks_view(chunks@.skip(i as int))));
        }
        i = i + 1;
    }
    proof {
        assert(chunks@.skip(chunks@.len() as int) =~= Seq::<String>::empty());
        assert(chunks_view(Seq::<String>::empty()) =~= Seq::<Seq<char>>::empty());
        assert(out@ + Seq::<char>::empty() =~= out@);
    }
    out
}

/// Render an instruction sequence to its full text under an environment.
pub fn render_to_string(ir: &Vec<Intermediate>, env: &RenderEnv) -> (r: String)
    ensures
        r@ == spec_render(ir@, *env),
{
    let chunks = render(ir, env);
    concat_rendered(chunks)
}

} // verus!
