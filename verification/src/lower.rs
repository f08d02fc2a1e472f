//! Lowering: the structural, order-preserving translation of the template
//! node tree into the flat instruction sequence.
//!
//! An element becomes the literals of its open tag (`<`, the tag text, one
//! literal per attribute, `>`), its lowered children, and, unless the tag is
//! void, the literals of its close tag. Conditionals and loops recurse into
//! their branches and bodies. Computations and computed values pass through
//! unchanged.

use vstd::prelude::*;
use crate::ast::{
    AttrV,
    AttributeKey,
    AvNodeV,
    DashOrColon,
    ElNodeV,
    ElementV,
    HtmlAttribute,
    HtmlElement,
    HtmlInAttributeValueContext,
    HtmlInElementContext,
    attr_view,
    attrs_view,
    av_node_view,
    av_nodes_view,
    el_node_view,
    el_nodes_view,
    element_view,
    key_rest_text,
    key_text,
    key_view,
    spec_tag_span,
    tag_text,
};
use crate::intermediate::{
    InstV,
    Intermediate,
    insts_view,
    lemma_insts_view_concat,
    lemma_insts_view_push,
};

verus! {

/// The lowering of one attribute-value node.
pub open spec fn spec_lower_av_node(n: AvNodeV) -> Seq<InstV>
    decreases n,
{
    match n {
        AvNodeV::Literal(t, sp) => seq![InstV::Literal(t@, sp)],
        AvNodeV::Computation(b, sp) => seq![InstV::Computation(b, sp)],
        AvNodeV::ComputedValue(e, sp) => seq![InstV::ComputedValue(e, sp)],
        AvNodeV::If(c, th, el, sp) => seq![
            InstV::If(
                c,
                spec_lower_av_nodes(th),
                match el {
                    Some(e) => Some(spec_lower_av_nodes(e)),
                    None => None,
                },
                sp,
            ),
        ],
        AvNodeV::For(p, e, body, sp) => seq![InstV::For(p, e, spec_lower_av_nodes(body), sp)],
    }
}

/// The lowering of a list of attribute-value nodes, in order.
pub open spec fn spec_lower_av_nodes(s: Seq<AvNodeV>) -> Seq<InstV>
    decreases s,
{
    if s.len() == 0 {
        Seq::empty()
    } else {
        spec_lower_av_node(s[0]) + spec_lower_av_nodes(s.drop_first())
    }
}

/// The lowering of one attribute: a literal holding a space and the key text,
/// and, if a value is present, a `="` literal, the lowered value nodes, and a
/// closing `"` literal.
pub open spec fn spec_lower_attr(a: AttrV) -> Seq<InstV>
    decreases a,
{
    seq![InstV::Literal(" "@ + key_text(a.key), a.key.first_span)] + match a.value {
        Some((eqsp, v)) => seq![InstV::Literal("=\""@, eqsp)] + spec_lower_av_nodes(v) + seq![
            InstV::Literal("\""@, eqsp),
        ],
        None => Seq::empty(),
    }
}

/// The lowering of an attribute list, in order.
pub open spec fn spec_lower_attrs(s: Seq<AttrV>) -> Seq<InstV>
    decreases s,
{
    if s.len() == 0 {
        Seq::empty()
    } else {
        spec_lower_attr(s[0]) + spec_lower_attrs(s.drop_first())
    }
}

/// The lowering of an element.
pub open spec fn spec_lower_element(e: ElementV) -> Seq<InstV>
    decreases e,
{
    seq![
        InstV::Literal("<"@, e.open_start),
        InstV::Literal(tag_text(e.open_tag_name), spec_tag_span(e.open_tag_name)),
    ] + spec_lower_attrs(e.attributes) + seq![InstV::Literal(">"@, e.open_end)] + match e
        .children {
        Some(c) => spec_lower_el_nodes(c.0) + seq![
            InstV::Literal("<"@, c.1.lt_span),
            InstV::Literal("/"@, c.1.slash_span),
            InstV::Literal(tag_text(c.1.tag), spec_tag_span(c.1.tag)),
            InstV::Literal(">"@, c.1.gt_span),
        ],
        None => Seq::empty(),
    }
}

/// The lowering of one element-context node.
pub open spec fn spec_lower_el_node(n: ElNodeV) -> Seq<InstV>
    decreases n,
{
    match n {
        ElNodeV::Literal(t, sp) => seq![InstV::Literal(t@, sp)],
        ElNodeV::Computation(b, sp) => seq![InstV::Computation(b, sp)],
        ElNodeV::ComputedValue(e, sp) => seq![InstV::ComputedValue(e, sp)],
        ElNodeV::If(c, th, el, sp) => seq![
            InstV::If(
                c,
                spec_lower_el_nodes(th),
                match el {
                    Some(e) => Some(spec_lower_el_nodes(e)),
                    None => None,
                },
                sp,
            ),
        ],
        ElNodeV::For(p, e, body, sp) => seq![InstV::For(p, e, spec_lower_el_nodes(body), sp)],
        ElNodeV::Element(e) => spec_lower_element(e),
    }
}

/// The lowering of a list of element-context nodes, in order.
pub open spec fn spec_lower_el_nodes(s: Seq<ElNodeV>) -> Seq<InstV>
    decreases s,
{
    if s.len() == 0 {
        Seq::empty()
    } else {
        spec_lower_el_node(s[0]) + spec_lower_el_nodes(s.drop_first())
    }
}

/// The text of an attribute key, separators included.
pub fn key_text_exec(k: &AttributeKey) -> (r: String)
    ensures
        r@ == key_text(key_view(*k)),
{
    let mut s = String::new();
    s.append(k.first.as_str());
    proof {
        assert(s@ =~= k.first@);
    }
    let mut i: usize = 0;
    while i < k.rest.len()
        invariant
            i <= k.rest.len(),
            s@ + key_rest_text(k.rest@, i as int) == key_text(key_view(*k)),
        decreases k.rest.len() - i,
    {
        let ghost pre = s@;
        match k.rest[i].sep {
            DashOrColon::Dash => s.append("-"),
            DashOrColon::Colon => s.append(":"),
        }
        s.append(k.rest[i].name.as_str());
        proof {
            assert(s@ + key_rest_text(k.rest@, i + 1 as int) =~= pre + key_rest_text(
                k.rest@,
                i as int,
            ));
        }
        i = i + 1;
    }
    proof {
        assert(key_rest_text(k.rest@, k.rest@.len() as int) =~= Seq::<char>::empty());
        assert(s@ =~= key_text(key_view(*k)));
    }
    s
}

/// A single-instruction vector and its shape.
fn single(inst: Intermediate) -> (r: Vec<Intermediate>)
    ensures
        insts_view(r@) == seq![crate::intermediate::inst_view(inst)],
{
    let ghost g = inst;
    let mut r: Vec<Intermediate> = Vec::new();
    r.push(inst);
    proof {
        lemma_insts_view_push(Seq::empty(), g);
        assert(insts_view(r@) =~= seq![crate::intermediate::inst_view(g)]);
    }
    r
}

/// Lower a list of attribute-value nodes.
pub fn lower_attribute_value_nodes(nodes: Vec<HtmlInAttributeValueContext>) -> (r: Vec<
    Intermediate,
>)
    ensures
        insts_view(r@) == spec_lower_av_nodes(av_nodes_view(nodes@)),
    decreases nodes@,
{
    let mut nodes = nodes;
    if nodes.len() == 0 {
        let r: Vec<Intermediate> = Vec::new();
        assert(insts_view(r@) =~= spec_lower_av_nodes(av_nodes_view(nodes@)));
        r
    } else {
        let ghost orig = nodes@;
        let ghost vs = av_nodes_view(orig);
        let first = nodes.remove(0);
        proof {
            assert(nodes@ =~= orig.drop_first());
            assert(vs[0] == av_node_view(orig[0]));
            assert(vs.drop_first() =~= av_nodes_view(orig.drop_first()));
        }
        let mut r = lower_attribute_value_node(first);
        let ghost head = r@;
        let mut tail = lower_attribute_value_nodes(nodes);
        let ghost tailg = tail@;
        r.append(&mut tail);
        proof {
            lemma_insts_view_concat(head, tailg);
            assert(insts_view(r@) =~= spec_lower_av_nodes(vs));
        }
        r
    }
}

/// Lower one attribute-value node.
pub fn lower_attribute_value_node(n: HtmlInAttributeValueContext) -> (r: Vec<Intermediate>)
    ensures
        insts_view(r@) == spec_lower_av_node(av_node_view(n)),
    decreases n,
{
    let ghost ng = n;
    match n {
        HtmlInAttributeValueContext::Literal(t, sp) => {
            let r = single(Intermediate::Literal(t, sp));
            assert(insts_view(r@) =~= spec_lower_av_node(av_node_view(ng)));
            r
        },
        HtmlInAttributeValueContext::Computation(b, sp) => {
            let r = single(Intermediate::Computation(b, sp));
            assert(insts_view(r@) =~= spec_lower_av_node(av_node_view(ng)));
            r
        },
        HtmlInAttributeValueContext::ComputedValue(e, sp) => {
            let r = single(Intermediate::ComputedValue(e, sp));
            assert(insts_view(r@) =~= spec_lower_av_node(av_node_view(ng)));
            r
        },
        HtmlInAttributeValueContext::If(c, th, el, sp) => {
            let ghost thg = th@;
            let ghost elg = el;
            let th2 = lower_attribute_value_nodes(th);
            let el2 = match el {
                Some(e) => Some(lower_attribute_value_nodes(e)),
                None => None,
            };
            let r = single(Intermediate::If(c, th2, el2, sp));
            assert(insts_view(r@) =~= spec_lower_av_node(av_node_view(ng)));
            r
        },
        HtmlInAttributeValueContext::For(p, e, body, sp) => {
            let ghost bodyg = body@;
            let body2 = lower_attribute_value_nodes(body);
            let r = single(Intermediate::For(p, e, body2, sp));
            assert(insts_view(r@) =~= spec_lower_av_node(av_node_view(ng)));
            r
        },
    }
}

/// Lower one attribute.
pub fn lower_attribute(a: HtmlAttribute) -> (r: Vec<Intermediate>)
    ensures
        insts_view(r@) == spec_lower_attr(attr_view(a)),
    decreases a,
{
    let ghost ag = a;
    let key_str = {
        let mut s = String::from_str(" ");
        s.append(key_text_exec(&a.key).as_str());
        proof {
            assert(s@ =~= " "@ + key_text(key_view(ag.key)));
        }
        s
    };
    let mut r = single(Intermediate::Literal(key_str, a.key.first_span));
    let ghost head = r@;
    match a.value {
        Some((eqsp, v)) => {
            let ghost vg = v@;
            let mut open_quote = single(Intermediate::Literal(String::from_str("=\""), eqsp));
            let ghost openg = open_quote@;
            let mut inner = lower_attribute_value_nodes(v);
            let ghost innerg = inner@;
            let mut close_quote = single(Intermediate::Literal(String::from_str("\""), eqsp));
            let ghost closeg = close_quote@;
            r.append(&mut open_quote);
            r.append(&mut inner);
            r.append(&mut close_quote);
            proof {
                lemma_insts_view_concat(head, openg);
                lemma_insts_view_concat(head + openg, innerg);
                lemma_insts_view_concat(head + openg + innerg, closeg);
                assert(r@ =~= head + openg + innerg + closeg);
                assert(insts_view(r@) =~= spec_lower_attr(attr_view(ag)));
            }
            r
        },
        None => {
            proof {
                assert(insts_view(r@) =~= spec_lower_attr(attr_view(ag)));
            }
            r
        },
    }
}

/// Lower an attribute list.
pub fn lower_attributes(attrs: Vec<HtmlAttribute>) -> (r: Vec<Intermediate>)
    ensures
        insts_view(r@) == spec_lower_attrs(attrs_view(attrs@)),
    decreases attrs@,
{
    let mut attrs = attrs;
    if attrs.len() == 0 {
        let r: Vec<Intermediate> = Vec::new();
        assert(insts_view(r@) =~= spec_lower_attrs(attrs_view(attrs@)));
        r
    } else {
        let ghost orig = attrs@;
        let ghost vs = attrs_view(orig);
        let first = attrs.remove(0);
        proof {
            assert(attrs@ =~= orig.drop_first());
            assert(vs[0] == attr_view(orig[0]));
            assert(vs.drop_first() =~= attrs_view(orig.drop_first()));
        }
        let mut r = lower_attribute(first);
        let ghost head = r@;
        let mut tail = lower_attributes(attrs);
        let ghost tailg = tail@;
        r.append(&mut tail);
        proof {
            lemma_insts_view_concat(head, tailg);
            assert(insts_view(r@) =~= spec_lower_attrs(vs));
        }
        r
    }
}

/// Lower an element.
pub fn lower_element(e: HtmlElement) -> (r: Vec<Intermediate>)
    ensures
        insts_view(r@) == spec_lower_element(element_view(e)),
    decreases e,
{
    let ghost eg = e;
    let HtmlElement { open_start, open_tag_name, attributes, open_end, children } = e;
    let ghost attrsg = attributes@;
    let tag_str = open_tag_name.text();
    let tag_span = open_tag_name.span();
    let mut r = single(Intermediate::Literal(String::from_str("<"), open_start));
    let ghost p0 = r@;
    let mut part = single(Intermediate::Literal(tag_str, tag_span));
    let ghost p1 = part@;
    r.append(&mut part);
    let mut part = lower_attributes(attributes);
    let ghost p2 = part@;
    r.append(&mut part);
    let mut part = single(Intermediate::Literal(String::from_str(">"), open_end));
    let ghost p3 = part@;
    r.append(&mut part);
    proof {
        lemma_insts_view_concat(p0, p1);
        lemma_insts_view_concat(p0 + p1, p2);
        lemma_insts_view_concat(p0 + p1 + p2, p3);
        assert(r@ =~= p0 + p1 + p2 + p3);
        assert(insts_view(r@) =~= seq![
            InstV::Literal("<"@, eg.open_start),
            InstV::Literal(tag_text(eg.open_tag_name), spec_tag_span(eg.open_tag_name)),
        ] + spec_lower_attrs(attrs_view(eg.attributes@)) + seq![
            InstV::Literal(">"@, eg.open_end),
        ]);
    }
    let ghost open_part = r@;
    match children {
        Some((ch, close)) => {
            let ghost chg = ch@;
            let mut part = lower_element_nodes(ch);
            let ghost c0 = part@;
            r.append(&mut part);
            let mut part = single(Intermediate::Literal(String::from_str("<"), close.lt_span));
            let ghost c1 = part@;
            r.append(&mut part);
            let mut part = single(
                Intermediate::Literal(String::from_str("/"), close.slash_span),
            );
            let ghost c2 = part@;
            r.append(&mut part);
            let close_tag_str = close.tag.text();
            let close_tag_span = close.tag.span();
            let mut part = single(Intermediate::Literal(close_tag_str, close_tag_span));
            let ghost c3 = part@;
            r.append(&mut part);
            let mut part = single(Intermediate::Literal(String::from_str(">"), close.gt_span));
            let ghost c4 = part@;
            r.append(&mut part);
            proof {
                lemma_insts_view_concat(open_part, c0);
                lemma_insts_view_concat(open_part + c0, c1);
                lemma_insts_view_concat(open_part + c0 + c1, c2);
                lemma_insts_view_concat(open_part + c0 + c1 + c2, c3);
                lemma_insts_view_concat(open_part + c0 + c1 + c2 + c3, c4);
                assert(r@ =~= open_part + c0 + c1 + c2 + c3 + c4);
                assert(insts_view(r@) =~= spec_lower_element(element_view(eg)));
            }
            r
        },
        None => {
            proof {
                assert(insts_view(r@) =~= spec_lower_element(element_view(eg)));
            }
            r
        },
    }
}

/// Lower one element-context node.
pub fn lower_element_node(n: HtmlInElementContext) -> (r: Vec<Intermediate>)
    ensures
        insts_view(r@) == spec_lower_el_node(el_node_view(n)),
    decreases n,
{
    let ghost ng = n;
    match n {
        HtmlInElementContext::Literal(t, sp) => {
            let r = single(Intermediate::Literal(t, sp));
            assert(insts_view(r@) =~= spec_lower_el_node(el_node_view(ng)));
            r
        },
        HtmlInElementContext::Computation(b, sp) => {
            let r = single(Intermediate::Computation(b, sp));
            assert(insts_view(r@) =~= spec_lower_el_node(el_node_view(ng)));
            r
        },
        HtmlInElementContext::ComputedValue(e, sp) => {
            let r = single(Intermediate::ComputedValue(e, sp));
            assert(insts_view(r@) =~= spec_lower_el_node(el_node_view(ng)));
            r
        },
        HtmlInElementContext::If(c, th, el, sp) => {
            let ghost thg = th@;
            let ghost elg = el;
            let th2 = lower_element_nodes(th);
            let el2 = match el {
                Some(e) => Some(lower_element_nodes(e)),
                None => None,
            };
            let r = single(Intermediate::If(c, th2, el2, sp));
            assert(insts_view(r@) =~= spec_lower_el_node(el_node_view(ng)));
            r
        },
        HtmlInElementContext::For(p, e, body, sp) => {
            let ghost bodyg = body@;
            let body2 = lower_element_nodes(body);
            let r = single(Intermediate::For(p, e, body2, sp));
            assert(insts_view(r@) =~= spec_lower_el_node(el_node_view(ng)));
            r
        },
        HtmlInElementContext::Element(e) => {
            let r = lower_element(e);
            assert(insts_view(r@) =~= spec_lower_el_node(el_node_view(ng)));
            r
        },
    }
}

/// Lower a list of element-context nodes, in order. This is the entry point
/// of the lowering pass: the parsed template becomes the flat instruction
/// sequence handed to the simplifier.
pub fn lower_element_nodes(nodes: Vec<HtmlInElementContext>) -> (r: Vec<Intermediate>)
    ensures
        insts_view(r@) == spec_lower_el_nodes(el_nodes_view(nodes@)),
    decreases nodes@,
{
    let mut nodes = nodes;
    if nodes.len() == 0 {
        let r: Vec<Intermediate> = Vec::new();
        assert(insts_view(r@) =~= spec_lower_el_nodes(el_nodes_view(nodes@)));
        r
    } else {
        let ghost orig = nodes@;
        let ghost vs = el_nodes_view(orig);
        let first = nodes.remove(0);
        proof {
            assert(nodes@ =~= orig.drop_first());
            assert(vs[0] == el_node_view(orig[0]));
            assert(vs.drop_first() =~= el_nodes_view(orig.drop_first()));
        }
        let mut r = lower_element_node(first);
        let ghost head = r@;
        let mut tail = lower_element_nodes(nodes);
        let ghost tailg = tail@;
        r.append(&mut tail);
        proof {
            lemma_insts_view_concat(head, tailg);
            assert(insts_view(r@) =~= spec_lower_el_nodes(vs));
        }
        r
    }
}

} // verus!
