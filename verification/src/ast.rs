//! The template node tree the parser produces.
//!
//! Two node-set variants share the same shapes: nodes in element context,
//! which may contain markup elements, and nodes in attribute-value context,
//! which may not. Every node carries a source span for diagnostics.

use vstd::prelude::*;
use crate::tokens::{Span, Tok, spec_join};

verus! {

/// The name of a markup tag, together with its optional leading exclamation
/// mark (as in `<!doctype ...>`).
#[derive(Debug)]
pub struct HtmlTag {
    pub exclamation: Option<Span>,
    pub name: String,
    pub name_span: Span,
}

/// The text of a tag name: the exclamation mark, if present, followed by the
/// name itself.
pub open spec fn tag_text(t: HtmlTag) -> Seq<char> {
    if t.exclamation is Some {
        "!"@ + t.name@
    } else {
        t.name@
    }
}

/// The span of a tag name: covering the exclamation mark, if present, and
/// the name.
pub open spec fn spec_tag_span(t: HtmlTag) -> Span {
    match t.exclamation {
        Some(ex) => spec_join(ex, t.name_span),
        None => t.name_span,
    }
}

impl HtmlTag {
    /// The source span of the whole tag name.
    pub fn span(&self) -> (r: Span)
        ensures
            r == spec_tag_span(*self),
    {
        match self.exclamation {
            Some(ex) => ex.join(self.name_span),
            None => self.name_span,
        }
    }

    /// The text of the tag name, exclamation mark included.
    pub fn text(&self) -> (r: String)
        ensures
            r@ == tag_text(*self),
    {
        let mut s = String::new();
        if self.exclamation.is_some() {
            s.append("!");
        }
        s.append(self.name.as_str());
        s
    }
}

/// The separator between two segments of a chained attribute key,
/// as in `aria-current` or `xml:lang`.
#[derive(Clone, Copy, PartialEq, Eq, Structural, Debug)]
pub enum DashOrColon {
    Dash,
    Colon,
}

/// The separator's source character.
pub open spec fn sep_text(s: DashOrColon) -> Seq<char> {
    match s {
        DashOrColon::Dash => "-"@,
        DashOrColon::Colon => ":"@,
    }
}

/// One continuation segment of a chained attribute key: the separator that
/// precedes it and the identifier that follows.
#[derive(Debug)]
pub struct KeySegment {
    pub sep: DashOrColon,
    pub name: String,
    pub span: Span,
}

/// An attribute key: a first identifier, optionally continued by
/// dash- or colon-separated segments.
#[derive(Debug)]
pub struct AttributeKey {
    pub first: String,
    pub first_span: Span,
    pub rest: Vec<KeySegment>,
}

/// The text of the key segments from index `i` on.
pub open spec fn key_rest_text(segs: Seq<KeySegment>, i: int) -> Seq<char>
    decreases segs.len() - i,
{
    if i < 0 || i >= segs.len() {
        Seq::empty()
    } else {
        sep_text(segs[i].sep) + segs[i].name@ + key_rest_text(segs, i + 1)
    }
}

/// The full text of an attribute key, separators included.
pub open spec fn key_text(k: KeyV) -> Seq<char> {
    k.first@ + key_rest_text(k.rest, 0)
}

/// A template node in attribute-value context. No markup element can appear
/// here; the other productions are those of element context.
#[derive(Debug)]
pub enum HtmlInAttributeValueContext {
    /// A string literal with its value and span.
    Literal(String, Span),
    /// A brace-delimited computation block, consumed opaquely.
    Computation(Vec<Tok>, Span),
    /// A parenthesised expression producing one output item, consumed opaquely.
    ComputedValue(Vec<Tok>, Span),
    /// `if cond { then } else { else }`: condition tokens, then-branch,
    /// optional else-branch.
    If(Vec<Tok>, Vec<HtmlInAttributeValueContext>, Option<
        Vec<HtmlInAttributeValueContext>,
    >, Span),
    /// `for pat in expr { body }`: pattern tokens, iterator-expression
    /// tokens, body.
    For(Vec<Tok>, Vec<Tok>, Vec<HtmlInAttributeValueContext>, Span),
}

/// One attribute of an element: a key and an optional value, which is an
/// ordered list of attribute-value nodes (a plain string value becomes a
/// single literal node). The span is that of the `=` sign.
#[derive(Debug)]
pub struct HtmlAttribute {
    pub key: AttributeKey,
    pub value: Option<(Span, Vec<HtmlInAttributeValueContext>)>,
}

/// The closing sequence `</ name >` of a non-void element.
#[derive(Debug)]
pub struct HtmlClose {
    pub lt_span: Span,
    pub slash_span: Span,
    pub tag: HtmlTag,
    pub gt_span: Span,
}

/// A markup element: open tag with attributes, and, unless the tag name is in
/// the void set, children followed by a close tag.
#[derive(Debug)]
pub struct HtmlElement {
    pub open_start: Span,
    pub open_tag_name: HtmlTag,
    pub attributes: Vec<HtmlAttribute>,
    pub open_end: Span,
    pub children: Option<(Vec<HtmlInElementContext>, HtmlClose)>,
}

/// A template node in element context.
#[derive(Debug)]
pub enum HtmlInElementContext {
    /// A string literal with its value and span.
    Literal(String, Span),
    /// A brace-delimited computation block, consumed opaquely.
    Computation(Vec<Tok>, Span),
    /// A parenthesised expression producing one output item, consumed opaquely.
    ComputedValue(Vec<Tok>, Span),
    /// `if cond { then } else { else }`.
    If(Vec<Tok>, Vec<HtmlInElementContext>, Option<Vec<HtmlInElementContext>>, Span),
    /// `for pat in expr { body }`.
    For(Vec<Tok>, Vec<Tok>, Vec<HtmlInElementContext>, Span),
    /// A markup element.
    Element(HtmlElement),
}

/// Whether a tag name belongs to the fixed void set: elements whose tag is in
/// this set never have children or a close tag.
pub open spec fn spec_is_void(name: Seq<char>) -> bool {
    ||| name == "!doctype"@
    ||| name == "area"@
    ||| name == "base"@
    ||| name == "br"@
    ||| name == "col"@
    ||| name == "embed"@
    ||| name == "hr"@
    ||| name == "img"@
    ||| name == "input"@
    ||| name == "link"@
    ||| name == "meta"@
    ||| name == "param"@
    ||| name == "source"@
    ||| name == "track"@
    ||| name == "wbr"@
}

/// Whether two strings hold the same text.
pub fn str_eq(a: &str, b: &str) -> (r: bool)
    ensures
        r == (a@ == b@),
{
    let sa = String::from_str(a);
    let sb = String::from_str(b);
    sa == sb
}

/// Whether a tag text is in the void set.
pub fn is_void_tag(name: &str) -> (r: bool)
    ensures
        r == spec_is_void(name@),
{
    str_eq(name, "!doctype") || str_eq(name, "area") || str_eq(name, "base") || str_eq(
        name,
        "br",
    ) || str_eq(name, "col") || str_eq(name, "embed") || str_eq(name, "hr") || str_eq(name, "img")
        || str_eq(name, "input") || str_eq(name, "link") || str_eq(name, "meta") || str_eq(
        name,
        "param",
    ) || str_eq(name, "source") || str_eq(name, "track") || str_eq(name, "wbr")
}

/// Well-formedness of an element-context node: every element in it has
/// children exactly when its tag name is not void.
pub open spec fn node_wf(n: HtmlInElementContext) -> bool
    decreases n,
{
    match n {
        HtmlInElementContext::Literal(_, _) => true,
        HtmlInElementContext::Computation(_, _) => true,
        HtmlInElementContext::ComputedValue(_, _) => true,
        HtmlInElementContext::If(_, then_body, else_body, _) => {
            &&& nodes_wf(then_body@)
            &&& match else_body {
                Some(e) => nodes_wf(e@),
                None => true,
            }
        },
        HtmlInElementContext::For(_, _, body, _) => nodes_wf(body@),
        HtmlInElementContext::Element(e) => element_wf(e),
    }
}

/// Well-formedness of a node list.
pub open spec fn nodes_wf(s: Seq<HtmlInElementContext>) -> bool
    decreases s,
{
    if s.len() == 0 {
        true
    } else {
        node_wf(s[0]) && nodes_wf(s.drop_first())
    }
}

/// Well-formedness of an element: it has children exactly when its tag name
/// is not in the void set, and its children are themselves well formed.
pub open spec fn element_wf(e: HtmlElement) -> bool
    decreases e,
{
    &&& (e.children is Some <==> !spec_is_void(tag_text(e.open_tag_name)))
    &&& match e.children {
        Some(c) => nodes_wf(c.0@),
        None => true,
    }
}

/// The mathematical shape of an attribute key: segments as a sequence.
pub struct KeyV {
    pub first: String,
    pub first_span: Span,
    pub rest: Seq<KeySegment>,
}

/// The shape of an attribute key.
pub open spec fn key_view(k: AttributeKey) -> KeyV {
    KeyV { first: k.first, first_span: k.first_span, rest: k.rest@ }
}

/// The shape of an attribute-value node: nested lists as sequences.
pub enum AvNodeV {
    Literal(String, Span),
    Computation(Seq<Tok>, Span),
    ComputedValue(Seq<Tok>, Span),
    If(Seq<Tok>, Seq<AvNodeV>, Option<Seq<AvNodeV>>, Span),
    For(Seq<Tok>, Seq<Tok>, Seq<AvNodeV>, Span),
}

/// The shape of an attribute-value node.
pub open spec fn av_node_view(n: HtmlInAttributeValueContext) -> AvNodeV
    decreases n,
{
    match n {
        HtmlInAttributeValueContext::Literal(t, sp) => AvNodeV::Literal(t, sp),
        HtmlInAttributeValueContext::Computation(b, sp) => AvNodeV::Computation(b@, sp),
        HtmlInAttributeValueContext::ComputedValue(e, sp) => AvNodeV::ComputedValue(e@, sp),
        HtmlInAttributeValueContext::If(c, th, el, sp) => AvNodeV::If(
            c@,
            av_nodes_view(th@),
            match el {
                Some(e) => Some(av_nodes_view(e@)),
                None => None,
            },
            sp,
        ),
        HtmlInAttributeValueContext::For(p, e, body, sp) => AvNodeV::For(
            p@,
            e@,
            av_nodes_view(body@),
            sp,
        ),
    }
}

/// The shapes of a list of attribute-value nodes.
pub open spec fn av_nodes_view(s: Seq<HtmlInAttributeValueContext>) -> Seq<AvNodeV>
    decreases s,
{
    if s.len() == 0 {
        Seq::empty()
    } else {
        seq![av_node_view(s[0])] + av_nodes_view(s.drop_first())
    }
}

/// The shape of an attribute.
pub struct AttrV {
    pub key: KeyV,
    pub value: Option<(Span, Seq<AvNodeV>)>,
}

/// The shape of an attribute.
pub open spec fn attr_view(a: HtmlAttribute) -> AttrV
    decreases a,
{
    AttrV {
        key: key_view(a.key),
        value: match a.value {
            Some((sp, v)) => Some((sp, av_nodes_view(v@))),
            None => None,
        },
    }
}

/// The shapes of an attribute list.
pub open spec fn attrs_view(s: Seq<HtmlAttribute>) -> Seq<AttrV>
    decreases s,
{
    if s.len() == 0 {
        Seq::empty()
    } else {
        seq![attr_view(s[0])] + attrs_view(s.drop_first())
    }
}

/// The shape of a markup element.
pub struct ElementV {
    pub open_start: Span,
    pub open_tag_name: HtmlTag,
    pub attributes: Seq<AttrV>,
    pub open_end: Span,
    pub children: Option<(Seq<ElNodeV>, HtmlClose)>,
}

/// The shape of an element-context node.
pub enum ElNodeV {
    Literal(String, Span),
    Computation(Seq<Tok>, Span),
    ComputedValue(Seq<Tok>, Span),
    If(Seq<Tok>, Seq<ElNodeV>, Option<Seq<ElNodeV>>, Span),
    For(Seq<Tok>, Seq<Tok>, Seq<ElNodeV>, Span),
    Element(ElementV),
}

/// The shape of an element.
pub open spec fn element_view(e: HtmlElement) -> ElementV
    decreases e,
{
    ElementV {
        open_start: e.open_start,
        open_tag_name: e.open_tag_name,
        attributes: attrs_view(e.attributes@),
        open_end: e.open_end,
        children: match e.children {
            Some(c) => Some((el_nodes_view(c.0@), c.1)),
            None => None,
        },
    }
}

/// The shape of an element-context node.
pub open spec fn el_node_view(n: HtmlInElementContext) -> ElNodeV
    decreases n,
{
    match n {
        HtmlInElementContext::Literal(t, sp) => ElNodeV::Literal(t, sp),
        HtmlInElementContext::Computation(b, sp) => ElNodeV::Computation(b@, sp),
        HtmlInElementContext::ComputedValue(e, sp) => ElNodeV::ComputedValue(e@, sp),
        HtmlInElementContext::If(c, th, el, sp) => ElNodeV::If(
            c@,
            el_nodes_view(th@),
            match el {
                Some(e) => Some(el_nodes_view(e@)),
                None => None,
            },
            sp,
        ),
        HtmlInElementContext::For(p, e, body, sp) => ElNodeV::For(
            p@,
            e@,
            el_nodes_view(body@),
            sp,
        ),
        HtmlInElementContext::Element(e) => ElNodeV::Element(element_view(e)),
    }
}

/// The shapes of a list of element-context nodes.
pub open spec fn el_nodes_view(s: Seq<HtmlInElementContext>) -> Seq<ElNodeV>
    decreases s,
{
    if s.len() == 0 {
        Seq::empty()
    } else {
        seq![el_node_view(s[0])] + el_nodes_view(s.drop_first())
    }
}

/// Node shapes concatenate element-wise.
pub proof fn lemma_el_nodes_view_concat(a: Seq<HtmlInElementContext>, b: Seq<HtmlInElementContext>)
    ensures
        el_nodes_view(a + b) == el_nodes_view(a) + el_nodes_view(b),
    decreases a,
{
    if a.len() == 0 {
        assert(a + b =~= b);
        assert(el_nodes_view(a) + el_nodes_view(b) =~= el_nodes_view(b));
    } else {
        assert((a + b).drop_first() =~= a.drop_first() + b);
        lemma_el_nodes_view_concat(a.drop_first(), b);
        assert(el_nodes_view(a + b) =~= el_nodes_view(a) + el_nodes_view(b));
    }
}

} // verus!
