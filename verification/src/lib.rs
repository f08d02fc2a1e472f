//! A verified compiler for an embedded markup-with-code template language.
//!
//! A template is a token stream mixing string literals, computed values,
//! computation blocks, conditionals, loops and markup elements. The compiler
//! parses it with error recovery into a node tree plus diagnostics, lowers the
//! tree into a flat instruction sequence, merges adjacent literal
//! instructions, and generates the text of a streaming producer. A runtime
//! bridge turns the suspending producer into a pull-based sequence of output
//! chunks.

pub mod ast;
pub mod codegen;
pub mod diagnostics;
pub mod future_to_stream;
pub mod intermediate;
pub mod lower;
pub mod parse;
pub mod render;
pub mod tokens;

pub use tokens::{Delim, Span, Tok};

use vstd::prelude::*;
use diagnostics::{Diagnostic, diags_view};
use intermediate::{
    Intermediate,
    flat_text_v,
    insts_view,
    lemma_simplify_no_adjacent_literals,
    lemma_simplify_preserves_text,
    simplified,
    spec_simplify,
};
use lower::spec_lower_el_nodes;
use codegen::spec_top_level;
use parse::spec_parse_template;

verus! {

/// Everything one compilation hands back: the diagnostics collected while
/// parsing, the simplified instruction sequence, and the generated producer
/// text.
pub struct Compilation {
    pub diagnostics: Vec<Diagnostic>,
    pub ir: Vec<Intermediate>,
    pub code: String,
}

/// Run the whole pipeline on a template's token stream: parse with error
/// recovery, lower the node tree to instructions, merge adjacent literals,
/// and generate the producer text wrapped in the bridge constructor. The
/// result is a function of the input alone: the diagnostics are exactly those
/// of the template's parse, the instructions are exactly the simplified
/// lowering of its node tree — so no two adjacent literals remain and the
/// literal text of the lowering is kept, in order — and the code is the
/// generated text of exactly those instructions.
pub fn top_level_parse(input: Vec<Tok>) -> (r: Compilation)
    ensures
        diags_view(r.diagnostics@) == spec_parse_template(input@).1,
        insts_view(r.ir@) == spec_simplify(spec_lower_el_nodes(spec_parse_template(input@).0)),
        simplified(insts_view(r.ir@)),
        flat_text_v(insts_view(r.ir@)) == flat_text_v(
            spec_lower_el_nodes(spec_parse_template(input@).0),
        ),
        r.code@ == spec_top_level(r.ir@),
{
    let ghost inputg = input@;
    let parsed = parse::parse_template(input);
    let diagnostics = parsed.diagnostics;
    let ghost nodesg = parsed.value@;
    let lowered = lower::lower_element_nodes(parsed.value);
    let ghost loweredg = lowered@;
    let ir = intermediate::simplify(lowered);
    let ghost irg = ir@;
    let code = codegen::top_level(&ir);
    proof {
        lemma_simplify_no_adjacent_literals(insts_view(loweredg));
        lemma_simplify_preserves_text(insts_view(loweredg));
    }
    Compilation { diagnostics, ir, code }
}

} // verus!
