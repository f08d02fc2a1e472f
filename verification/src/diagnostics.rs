//! The diagnostics accumulator.
//!
//! A compilation collects an ordered list of recoverable errors. Each error
//! has a primary span, a message, and contextual notes that nested productions
//! append as the error propagates upward. No diagnostic is ever dropped in
//! favour of an earlier one.

use vstd::prelude::*;
use crate::tokens::Span;

verus! {

/// A contextual note attached to a diagnostic, pointing at the production
/// that was being parsed when the error occurred.
#[derive(Debug)]
pub struct Note {
    pub span: Span,
    pub message: String,
}

/// One recoverable compile-time error: a primary span, an error message, and
/// the contextual notes appended while it propagated upward.
#[derive(Debug)]
pub struct Diagnostic {
    pub span: Span,
    pub message: String,
    pub notes: Vec<Note>,
}

impl Diagnostic {
    /// A fresh diagnostic with no notes yet.
    pub fn error(span: Span, message: String) -> (r: Diagnostic)
        ensures
            r.span == span,
            r.message@ == message@,
            r.notes@.len() == 0,
            diag_view(r) == plain_diag(span, message@),
    {
        let ghost m = message@;
        let d = Diagnostic { span, message, notes: Vec::new() };
        proof {
            assert(diag_view(d).notes =~= Seq::<(Span, Seq<char>)>::empty());
        }
        d
    }

    /// Append one contextual note; earlier notes are kept.
    pub fn span_note(&mut self, span: Span, message: String)
        ensures
            final(self).span == old(self).span,
            final(self).message == old(self).message,
            final(self).notes@ == old(self).notes@.push(
                Note { span, message },
            ),
            diag_view(*final(self)) == with_note(diag_view(*old(self)), span, message@),
    {
        let ghost m = message@;
        self.notes.push(Note { span, message });
        proof {
            assert(diag_view(*self).notes =~= diag_view(*old(self)).notes.push((span, m)));
        }
    }
}

/// The mathematical shape of a diagnostic: message and note text as
/// character sequences.
pub struct DiagV {
    pub span: Span,
    pub message: Seq<char>,
    pub notes: Seq<(Span, Seq<char>)>,
}

/// The shape of a diagnostic.
pub open spec fn diag_view(d: Diagnostic) -> DiagV {
    DiagV {
        span: d.span,
        message: d.message@,
        notes: d.notes@.map_values(|n: Note| (n.span, n.message@)),
    }
}

/// The shapes of a diagnostics list.
pub open spec fn diags_view(s: Seq<Diagnostic>) -> Seq<DiagV> {
    s.map_values(|d: Diagnostic| diag_view(d))
}

/// A fresh diagnostic shape with no notes.
pub open spec fn plain_diag(span: Span, message: Seq<char>) -> DiagV {
    DiagV { span, message, notes: Seq::empty() }
}

/// A diagnostic shape with one more contextual note.
pub open spec fn with_note(d: DiagV, span: Span, message: Seq<char>) -> DiagV {
    DiagV { span: d.span, message: d.message, notes: d.notes.push((span, message)) }
}

/// Every diagnostic of a list with one more contextual note: how errors from
/// a nested production propagate upward.
pub open spec fn add_note_all(s: Seq<DiagV>, span: Span, message: Seq<char>) -> Seq<DiagV> {
    s.map_values(|d: DiagV| with_note(d, span, message))
}

/// Pushing a diagnostic pushes its shape.
pub proof fn lemma_diags_view_push(s: Seq<Diagnostic>, d: Diagnostic)
    ensures
        diags_view(s.push(d)) == diags_view(s).push(diag_view(d)),
{
    assert(diags_view(s.push(d)) =~= diags_view(s).push(diag_view(d)));
}

/// Shapes of lists concatenate element-wise.
pub proof fn lemma_diags_view_concat(a: Seq<Diagnostic>, b: Seq<Diagnostic>)
    ensures
        diags_view(a + b) == diags_view(a) + diags_view(b),
{
    assert(diags_view(a + b) =~= diags_view(a) + diags_view(b));
}

/// The earlier list is an untouched prefix of the later one: diagnostics are
/// only ever appended, never replaced or dropped.
pub open spec fn diags_extended(before: Seq<Diagnostic>, after: Seq<Diagnostic>) -> bool {
    &&& before.len() <= after.len()
    &&& forall|i: int| 0 <= i < before.len() ==> after[i] == before[i]
}

/// Extension is transitive, so it threads through chains of productions.
pub proof fn lemma_diags_extended_trans(
    a: Seq<Diagnostic>,
    b: Seq<Diagnostic>,
    c: Seq<Diagnostic>,
)
    requires
        diags_extended(a, b),
        diags_extended(b, c),
    ensures
        diags_extended(a, c),
{
}

/// Extension chains through successive productions.
pub broadcast proof fn lemma_diags_extended_auto(
    a: Seq<Diagnostic>,
    b: Seq<Diagnostic>,
    c: Seq<Diagnostic>,
)
    requires
        #[trigger] diags_extended(a, b),
        #[trigger] diags_extended(b, c),
    ensures
        diags_extended(a, c),
{
    lemma_diags_extended_trans(a, b, c);
}

/// Appending one diagnostic extends the list.
pub proof fn lemma_diags_extended_push(s: Seq<Diagnostic>, d: Diagnostic)
    ensures
        diags_extended(s, s.push(d)),
{
}

} // verus!
