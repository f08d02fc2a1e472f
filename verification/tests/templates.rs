use async_zero_cost_templating::ast::{HtmlInElementContext, HtmlTag};
use async_zero_cost_templating::diagnostics::Diagnostic;
use async_zero_cost_templating::parse::transpose;
use async_zero_cost_templating::codegen::top_level;
use async_zero_cost_templating::intermediate::{simplify, Intermediate};
use async_zero_cost_templating::lower::lower_element_nodes;
use async_zero_cost_templating::parse::parse_template;
use async_zero_cost_templating::render::{render, render_to_string, RenderEnv};
use async_zero_cost_templating::tokens::{Delim, Span, Tok};
use async_zero_cost_templating::top_level_parse;

fn sp(n: usize) -> Span {
    Span { lo: n, hi: n + 1 }
}

fn ident(s: &str, n: usize) -> Tok {
    Tok::Ident(s.to_string(), sp(n))
}

fn lit(s: &str, n: usize) -> Tok {
    Tok::Str(s.to_string(), sp(n))
}

fn punct(c: char, n: usize) -> Tok {
    Tok::Punct(c, false, sp(n))
}

fn group(d: Delim, inner: Vec<Tok>, n: usize) -> Tok {
    Tok::Group(d, inner, sp(n))
}

fn empty_env() -> RenderEnv {
    RenderEnv {
        conds: Vec::new(),
        vals: Vec::new(),
        loops: Vec::new(),
    }
}

fn pipeline(tokens: Vec<Tok>) -> (Vec<Intermediate>, usize) {
    let parsed = parse_template(tokens);
    let n_diags = parsed.diagnostics.len();
    let ir = simplify(lower_element_nodes(parsed.value));
    (ir, n_diags)
}

fn run(tokens: Vec<Tok>, env: &RenderEnv) -> String {
    let (ir, n_diags) = pipeline(tokens);
    assert_eq!(n_diags, 0);
    render_to_string(&ir, env)
}

#[test]
fn literal_test() {
    // "hello world"
    let tokens = vec![lit("hello world", 0)];
    let result = run(tokens, &empty_env());
    assert_eq!(result, r#"hello world"#);
}

#[test]
fn literal_and_variable_test() {
    // "hello world" ( variable )
    let tokens = vec![
        lit("hello world", 0),
        group(Delim::Paren, vec![ident("variable", 2)], 1),
    ];
    let mut env = empty_env();
    env.vals.push(("variable".to_string(), "hi".to_string()));
    let result = run(tokens, &env);
    assert_eq!(result, r#"hello worldhi"#);
}

#[test]
fn variable_test() {
    // ( variable )
    let tokens = vec![group(Delim::Paren, vec![ident("variable", 1)], 0)];
    let mut env = empty_env();
    env.vals.push(("variable".to_string(), "hi".to_string()));
    let result = run(tokens, &env);
    assert_eq!(result, "hi");
}

#[test]
fn if_test() {
    // if condition { "true" ( variable ) }
    let tokens = vec![
        ident("if", 0),
        ident("condition", 1),
        group(
            Delim::Brace,
            vec![lit("true", 3), group(Delim::Paren, vec![ident("variable", 5)], 4)],
            2,
        ),
    ];
    let mut env = empty_env();
    env.conds.push(("condition".to_string(), true));
    env.vals.push(("variable".to_string(), "hi".to_string()));
    let result = run(tokens, &env);
    assert_eq!(result, r#"truehi"#);
}

#[test]
fn if_false_without_else_renders_empty() {
    // if condition { "true" ( variable ) } with the condition false
    let tokens = vec![
        ident("if", 0),
        ident("condition", 1),
        group(
            Delim::Brace,
            vec![lit("true", 3), group(Delim::Paren, vec![ident("variable", 5)], 4)],
            2,
        ),
    ];
    let mut env = empty_env();
    env.conds.push(("condition".to_string(), false));
    env.vals.push(("variable".to_string(), "hi".to_string()));
    let result = run(tokens, &env);
    assert_eq!(result, "");
}

#[test]
fn if_else_test() {
    // if condition { "true" ( variable ) } else { "false" ( variable ) }
    let make = || {
        vec![
            ident("if", 0),
            ident("condition", 1),
            group(
                Delim::Brace,
                vec![lit("true", 3), group(Delim::Paren, vec![ident("variable", 5)], 4)],
                2,
            ),
            ident("else", 6),
            group(
                Delim::Brace,
                vec![lit("false", 8), group(Delim::Paren, vec![ident("variable", 10)], 9)],
                7,
            ),
        ]
    };
    let mut env = empty_env();
    env.conds.push(("condition".to_string(), true));
    env.vals.push(("variable".to_string(), "hi".to_string()));
    assert_eq!(run(make(), &env), "truehi");
    let mut env2 = empty_env();
    env2.conds.push(("condition".to_string(), false));
    env2.vals.push(("variable".to_string(), "hi".to_string()));
    assert_eq!(run(make(), &env2), "falsehi");
}

#[test]
fn for_test() {
    // for row in result { "true" ( row ) }
    let tokens = vec![
        ident("for", 0),
        ident("row", 1),
        ident("in", 2),
        ident("result", 3),
        group(
            Delim::Brace,
            vec![lit("true", 5), group(Delim::Paren, vec![ident("row", 7)], 6)],
            4,
        ),
    ];
    let mut env = empty_env();
    env.loops.push((
        "result".to_string(),
        vec!["abc".to_string(), "def".to_string(), "ghi".to_string()],
    ));
    let result = run(tokens, &env);
    assert_eq!(result, r#"trueabctruedeftrueghi"#);
}

#[test]
fn element_test() {
    // <a href=["test" (value)]>"Link"</a>
    let tokens = vec![
        punct('<', 0),
        ident("a", 1),
        ident("href", 2),
        punct('=', 3),
        group(
            Delim::Bracket,
            vec![lit("test", 5), group(Delim::Paren, vec![ident("value", 7)], 6)],
            4,
        ),
        punct('>', 8),
        lit("Link", 9),
        punct('<', 10),
        punct('/', 11),
        ident("a", 12),
        punct('>', 13),
    ];
    let mut env = empty_env();
    env.vals.push(("value".to_string(), "hi".to_string()));
    let result = run(tokens, &env);
    assert_eq!(result, r#"<a href="testhi">Link</a>"#);
}

#[test]
fn attribute_for_equals_keyword_test() {
    // <label for="test"></label>
    let tokens = vec![
        punct('<', 0),
        ident("label", 1),
        ident("for", 2),
        punct('=', 3),
        lit("test", 4),
        punct('>', 5),
        punct('<', 6),
        punct('/', 7),
        ident("label", 8),
        punct('>', 9),
    ];
    let result = run(tokens, &empty_env());
    assert_eq!(result, r#"<label for="test"></label>"#);
}

#[test]
fn attribute_with_dash_test() {
    // <a aria-current="true"></a>
    let tokens = vec![
        punct('<', 0),
        ident("a", 1),
        ident("aria", 2),
        punct('-', 3),
        ident("current", 4),
        punct('=', 5),
        lit("true", 6),
        punct('>', 7),
        punct('<', 8),
        punct('/', 9),
        ident("a", 10),
        punct('>', 11),
    ];
    let result = run(tokens, &empty_env());
    assert_eq!(result, r#"<a aria-current="true"></a>"#);
}

#[test]
fn attribute_colon_key() {
    // <a xml:lang="en"></a>
    let tokens = vec![
        punct('<', 0),
        ident("a", 1),
        ident("xml", 2),
        punct(':', 3),
        ident("lang", 4),
        punct('=', 5),
        lit("en", 6),
        punct('>', 7),
        punct('<', 8),
        punct('/', 9),
        ident("a", 10),
        punct('>', 11),
    ];
    let result = run(tokens, &empty_env());
    assert_eq!(result, r#"<a xml:lang="en"></a>"#);
}

#[test]
fn doctype_test() {
    // <!doctype html>
    let tokens = vec![
        punct('<', 0),
        punct('!', 1),
        ident("doctype", 2),
        ident("html", 3),
        punct('>', 4),
    ];
    let result = run(tokens, &empty_env());
    assert_eq!(result, r#"<!doctype html>"#);
}

#[test]
fn empty_test() {
    let tokens: Vec<Tok> = Vec::new();
    let result = run(tokens, &empty_env());
    assert_eq!(result, r#""#);
}

#[test]
fn element_bug_1_test() {
    // <label for></label> : a valueless attribute
    let tokens = vec![
        punct('<', 0),
        ident("label", 1),
        ident("for", 2),
        punct('>', 3),
        punct('<', 4),
        punct('/', 5),
        ident("label", 6),
        punct('>', 7),
    ];
    let result = run(tokens, &empty_env());
    assert_eq!(result, r#"<label for></label>"#);
}

#[test]
fn attribute_value_conditional() {
    // <input class=[if error { "error" }]> with the condition true
    let tokens = vec![
        punct('<', 0),
        ident("input", 1),
        ident("class", 2),
        punct('=', 3),
        group(
            Delim::Bracket,
            vec![
                ident("if", 5),
                ident("error", 6),
                group(Delim::Brace, vec![lit("error", 8)], 7),
            ],
            4,
        ),
        punct('>', 9),
    ];
    let mut env = empty_env();
    env.conds.push(("error".to_string(), true));
    let result = run(tokens, &env);
    assert_eq!(result, r#"<input class="error">"#);
}

#[test]
fn void_element_has_no_close_tag() {
    // <br> needs no closing tag and takes no children
    let tokens = vec![punct('<', 0), ident("br", 1), punct('>', 2), lit("after", 3)];
    let result = run(tokens, &empty_env());
    assert_eq!(result, "<br>after");
}

#[test]
fn loop_binding_shadows_environment() {
    // for x in rows { (x) } where the environment also binds x
    let tokens = vec![
        ident("for", 0),
        ident("x", 1),
        ident("in", 2),
        ident("rows", 3),
        group(Delim::Brace, vec![group(Delim::Paren, vec![ident("x", 6)], 5)], 4),
    ];
    let mut env = empty_env();
    env.vals.push(("x".to_string(), "outer".to_string()));
    env.loops.push(("rows".to_string(), vec!["a".to_string(), "b".to_string()]));
    let result = run(tokens, &env);
    assert_eq!(result, "ab");
}

#[test]
fn mismatched_close_tag_reports_both_names_and_recovers() {
    // <div> "x" </span> "after" : one diagnostic naming both tags; the
    // sibling literal after the element still parses
    let tokens = vec![
        punct('<', 0),
        ident("div", 1),
        punct('>', 2),
        lit("x", 3),
        punct('<', 4),
        punct('/', 5),
        ident("span", 6),
        punct('>', 7),
        lit("after", 8),
    ];
    let parsed = parse_template(tokens);
    assert!(parsed.diagnostics.len() >= 1);
    let mut found = false;
    for d in &parsed.diagnostics {
        let mentions_div = d.message.contains("div");
        let mentions_span = d.notes.iter().any(|n| n.message.contains("span"));
        if mentions_div && mentions_span {
            found = true;
        }
    }
    assert!(found, "no diagnostic names both tags");
    assert_eq!(parsed.value.len(), 2);
    assert!(matches!(parsed.value[0], HtmlInElementContext::Element(_)));
    match &parsed.value[1] {
        HtmlInElementContext::Literal(t, _) => assert_eq!(t, "after"),
        _ => panic!("expected the sibling literal to survive"),
    }
}

#[test]
fn missing_brace_after_if_is_reported() {
    let tokens = vec![ident("if", 0), ident("condition", 1)];
    let parsed = parse_template(tokens);
    assert!(parsed
        .diagnostics
        .iter()
        .any(|d| d.message.contains("no { was found")));
    assert_eq!(parsed.value.len(), 0);
}

#[test]
fn missing_in_after_for_is_reported() {
    let tokens = vec![ident("for", 0), ident("row", 1)];
    let parsed = parse_template(tokens);
    assert!(parsed
        .diagnostics
        .iter()
        .any(|d| d.message.contains("no in was found")));
}

#[test]
fn unexpected_token_is_skipped_and_reported() {
    // a stray = sign between two literals: both literals survive
    let tokens = vec![lit("a", 0), punct('=', 1), lit("b", 2)];
    let parsed = parse_template(tokens);
    assert_eq!(parsed.diagnostics.len(), 1);
    assert!(parsed.diagnostics[0].message.contains("expected"));
    // the error propagated upward through the node list, gaining its two
    // context notes in order
    assert_eq!(parsed.diagnostics[0].notes.len(), 2);
    assert_eq!(parsed.diagnostics[0].notes[0].message, "while parsing child");
    assert_eq!(parsed.diagnostics[0].notes[1].message, "while parsing children");
    assert_eq!(parsed.value.len(), 2);
}

#[test]
fn stray_close_tag_at_top_level_is_reported() {
    let tokens = vec![
        punct('<', 0),
        punct('/', 1),
        ident("div", 2),
        punct('>', 3),
        lit("after", 4),
    ];
    let parsed = parse_template(tokens);
    assert!(parsed
        .diagnostics
        .iter()
        .any(|d| d.message.contains("unexpected closing tag")));
    assert!(parsed.value.len() >= 1);
}

#[test]
fn attribute_without_value_or_bracket_is_reported() {
    // <a href=123 > : the attribute value must be a string or a bracket list
    let tokens = vec![
        punct('<', 0),
        ident("a", 1),
        ident("href", 2),
        punct('=', 3),
        Tok::Raw("123".to_string(), sp(4)),
        punct('>', 5),
    ];
    let parsed = parse_template(tokens);
    assert!(parsed
        .diagnostics
        .iter()
        .any(|d| d.message.contains("expected a string literal or [ ]")));
}

#[test]
fn simplifier_merges_adjacent_literals() {
    // two adjacent literals merge into one, joining spans
    let ir = vec![
        Intermediate::Literal("ab".to_string(), Span { lo: 0, hi: 2 }),
        Intermediate::Literal("cd".to_string(), Span { lo: 5, hi: 9 }),
    ];
    let simplified = simplify(ir);
    assert_eq!(simplified.len(), 1);
    match &simplified[0] {
        Intermediate::Literal(t, span) => {
            assert_eq!(t, "abcd");
            assert_eq!(span.lo, 0);
            assert_eq!(span.hi, 9);
        }
        _ => panic!("expected a merged literal"),
    }
}

fn collect_literal_text(insts: &[Intermediate], out: &mut String) {
    for inst in insts {
        match inst {
            Intermediate::Literal(t, _) => out.push_str(t),
            Intermediate::Computation(_, _) => {}
            Intermediate::ComputedValue(_, _) => {}
            Intermediate::If(_, th, el, _) => {
                collect_literal_text(th, out);
                if let Some(e) = el {
                    collect_literal_text(e, out);
                }
            }
            Intermediate::For(_, _, body, _) => collect_literal_text(body, out),
        }
    }
}

fn check_no_adjacent_literals(insts: &[Intermediate]) {
    for w in insts.windows(2) {
        assert!(
            !(matches!(w[0], Intermediate::Literal(_, _))
                && matches!(w[1], Intermediate::Literal(_, _))),
            "two adjacent literals remain"
        );
    }
    for inst in insts {
        match inst {
            Intermediate::If(_, th, el, _) => {
                check_no_adjacent_literals(th);
                if let Some(e) = el {
                    check_no_adjacent_literals(e);
                }
            }
            Intermediate::For(_, _, body, _) => check_no_adjacent_literals(body),
            _ => {}
        }
    }
}

#[test]
fn simplifier_leaves_no_adjacent_literals_and_keeps_text() {
    // adjacent literals at several nesting levels
    let s = |t: &str, n: usize| Intermediate::Literal(t.to_string(), sp(n));
    let ir = vec![
        s("a", 0),
        s("b", 1),
        Intermediate::If(
            vec![ident("c", 2)],
            vec![s("x", 3), s("y", 4)],
            Some(vec![s("p", 5), s("q", 6)]),
            sp(2),
        ),
        s("d", 7),
        Intermediate::For(
            vec![ident("i", 8)],
            vec![ident("rows", 9)],
            vec![s("u", 10), s("v", 11)],
            sp(8),
        ),
        s("e", 12),
        s("f", 13),
    ];
    let mut before = String::new();
    collect_literal_text(&ir, &mut before);
    let simplified = simplify(ir);
    check_no_adjacent_literals(&simplified);
    let mut after = String::new();
    collect_literal_text(&simplified, &mut after);
    assert_eq!(before, after);
}

#[test]
fn element_lowering_round_trip_with_merge() {
    // the element of the round-trip scenario lowers to literals that all
    // merge into one chunk
    let tokens = vec![
        punct('<', 0),
        ident("label", 1),
        ident("for", 2),
        punct('=', 3),
        lit("test", 4),
        punct('>', 5),
        punct('<', 6),
        punct('/', 7),
        ident("label", 8),
        punct('>', 9),
    ];
    let (ir, n_diags) = pipeline(tokens);
    assert_eq!(n_diags, 0);
    assert_eq!(ir.len(), 1);
    match &ir[0] {
        Intermediate::Literal(t, _) => assert_eq!(t, r#"<label for="test"></label>"#),
        _ => panic!("expected a single merged literal"),
    }
}

#[test]
fn generated_code_for_one_literal() {
    let ir = vec![Intermediate::Literal("hi".to_string(), sp(0))];
    let code = top_level(&ir);
    let expected = "{\nlet (tx, rx) = ::tokio::sync::mpsc::channel(1);\nlet future = async move {\ntx.send(::alloc::borrow::Cow::Borrowed(\"hi\")).await.unwrap();\n};\n::async_zero_cost_templating::TemplateToStream::new(future, rx)\n}\n";
    assert_eq!(code, expected);
}

#[test]
fn generated_code_escapes_literal_text() {
    let ir = vec![Intermediate::Literal("a\"b\\c".to_string(), sp(0))];
    let code = top_level(&ir);
    assert!(code.contains("Cow::Borrowed(\"a\\\"b\\\\c\")"));
}

#[test]
fn generated_code_escapes_carriage_return() {
    let ir = vec![Intermediate::Literal("a\rb".to_string(), sp(0))];
    let code = top_level(&ir);
    assert!(code.contains("Cow::Borrowed(\"a\\rb\")"));
    assert!(!code.contains('\r'));
}

#[test]
fn generated_code_for_conditional_and_loop() {
    let tokens = vec![
        ident("if", 0),
        ident("condition", 1),
        group(Delim::Brace, vec![lit("true", 3)], 2),
        ident("for", 4),
        ident("row", 5),
        ident("in", 6),
        ident("rows", 7),
        group(Delim::Brace, vec![group(Delim::Paren, vec![ident("row", 10)], 9)], 8),
    ];
    let result = top_level_parse(tokens);
    assert_eq!(result.diagnostics.len(), 0);
    assert!(result.code.contains("if condition {"));
    assert!(result.code.contains("for row in rows {"));
    assert!(result.code.contains("tx.send(row ).await.unwrap();"));
    assert!(result
        .code
        .contains("::async_zero_cost_templating::TemplateToStream::new(future, rx)"));
}

#[test]
fn computation_is_spliced_verbatim() {
    // { let x = compute() ; } ( x )
    let tokens = vec![
        group(
            Delim::Brace,
            vec![
                ident("let", 1),
                ident("x", 2),
                punct('=', 3),
                ident("compute", 4),
                group(Delim::Paren, vec![], 5),
                punct(';', 6),
            ],
            0,
        ),
        group(Delim::Paren, vec![ident("x", 8)], 7),
    ];
    let result = top_level_parse(tokens);
    assert_eq!(result.diagnostics.len(), 0);
    assert!(result.code.contains("let x = compute () ;"));
    assert!(result.code.contains("tx.send(x ).await.unwrap();"));
}

#[test]
fn compilation_is_best_effort_under_errors() {
    // the mismatched-tag template still compiles to code
    let tokens = vec![
        punct('<', 0),
        ident("div", 1),
        punct('>', 2),
        lit("x", 3),
        punct('<', 4),
        punct('/', 5),
        ident("span", 6),
        punct('>', 7),
    ];
    let result = top_level_parse(tokens);
    assert!(result.diagnostics.len() >= 1);
    assert!(result.code.contains("Cow::Borrowed"));
}

#[test]
fn nested_elements_render_in_order() {
    // <html><head><title>(title)</title></head><body>"hi"</body></html>
    let tokens = vec![
        punct('<', 0),
        ident("html", 1),
        punct('>', 2),
        punct('<', 3),
        ident("head", 4),
        punct('>', 5),
        punct('<', 6),
        ident("title", 7),
        punct('>', 8),
        group(Delim::Paren, vec![ident("title", 10)], 9),
        punct('<', 11),
        punct('/', 12),
        ident("title", 13),
        punct('>', 14),
        punct('<', 15),
        punct('/', 16),
        ident("head", 17),
        punct('>', 18),
        punct('<', 19),
        ident("body", 20),
        punct('>', 21),
        lit("hi", 22),
        punct('<', 23),
        punct('/', 24),
        ident("body", 25),
        punct('>', 26),
        punct('<', 27),
        punct('/', 28),
        ident("html", 29),
        punct('>', 30),
    ];
    let mut env = empty_env();
    env.vals.push(("title".to_string(), "T".to_string()));
    let result = run(tokens, &env);
    assert_eq!(result, "<html><head><title>T</title></head><body>hi</body></html>");
}

#[test]
fn opaque_expression_tokens_flow_through_codegen() {
    // ( items . len () + 1 ) : the expression sub-language is reproduced,
    // never interpreted
    let tokens = vec![group(
        Delim::Paren,
        vec![
            ident("items", 1),
            Tok::Punct('.', true, sp(2)),
            ident("len", 3),
            group(Delim::Paren, vec![], 4),
            punct('+', 5),
            Tok::Raw("1".to_string(), sp(6)),
        ],
        0,
    )];
    let result = top_level_parse(tokens);
    assert_eq!(result.diagnostics.len(), 0);
    assert!(result.code.contains("tx.send(items .len () + 1 ).await.unwrap();"));
}

#[test]
fn transpose_splits_value_and_diagnostics() {
    let ok: Result<(u32, Vec<Diagnostic>), Vec<Diagnostic>> = Ok((5, Vec::new()));
    let (value, diags) = transpose(ok);
    assert_eq!(value, Ok(5));
    assert_eq!(diags.len(), 0);
    let err: Result<(u32, Vec<Diagnostic>), Vec<Diagnostic>> =
        Err(vec![Diagnostic::error(sp(0), "boom".to_string())]);
    let (value, diags) = transpose(err);
    assert_eq!(value, Err(()));
    assert_eq!(diags.len(), 1);
    assert_eq!(diags[0].message, "boom");
}

#[test]
fn tag_span_covers_exclamation_and_name() {
    let tag = HtmlTag {
        exclamation: Some(Span { lo: 1, hi: 2 }),
        name: "doctype".to_string(),
        name_span: Span { lo: 2, hi: 3 },
    };
    let joined = tag.span();
    assert_eq!(joined.lo, 1);
    assert_eq!(joined.hi, 3);
    assert_eq!(tag.text(), "!doctype");
    let plain = HtmlTag {
        exclamation: None,
        name: "div".to_string(),
        name_span: Span { lo: 4, hi: 5 },
    };
    assert_eq!(plain.span().lo, 4);
    assert_eq!(plain.text(), "div");
}

#[test]
fn span_join_covers_both_ranges() {
    let a = Span { lo: 3, hi: 7 };
    let b = Span { lo: 5, hi: 12 };
    let j = a.join(b);
    assert_eq!(j.lo, 3);
    assert_eq!(j.hi, 12);
    let k = b.join(a);
    assert_eq!(k.lo, 3);
    assert_eq!(k.hi, 12);
}

#[test]
fn render_emits_one_chunk_per_emission() {
    // "a" (x) "b" : three chunks, in order
    let tokens = vec![
        lit("a", 0),
        group(Delim::Paren, vec![ident("x", 2)], 1),
        lit("b", 3),
    ];
    let parsed = parse_template(tokens);
    let ir = simplify(lower_element_nodes(parsed.value));
    let mut env = empty_env();
    env.vals.push(("x".to_string(), "mid".to_string()));
    let chunks = render(&ir, &env);
    assert_eq!(chunks, vec!["a".to_string(), "mid".to_string(), "b".to_string()]);
}
