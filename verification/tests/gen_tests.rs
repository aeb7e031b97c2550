//! The builder synthesizer, end to end on token trees.

use seq_builder::error::Error;
use seq_builder::shape::{classify, shape_of, unwrap_inner, TypeShape};
use seq_builder::descriptor::parse_struct;
use seq_builder::token::{Delimiter, Spacing, Span, Token};

fn id(s: &str, p: usize) -> Token {
    Token::Ident { text: s.to_string(), span: Span { pos: p } }
}

fn lit(s: &str, p: usize) -> Token {
    Token::Lit { text: s.to_string(), span: Span { pos: p } }
}

fn punct(c: char, p: usize) -> Token {
    Token::Punct { ch: c, spacing: Spacing::Alone, span: Span { pos: p } }
}

fn punct_joint(c: char, p: usize) -> Token {
    Token::Punct { ch: c, spacing: Spacing::Joint, span: Span { pos: p } }
}

fn group(d: Delimiter, ts: Vec<Token>, p: usize) -> Token {
    Token::Group { delim: d, tokens: ts, span: Span { pos: p } }
}

fn tok_eq(a: &Token, b: &Token) -> bool {
    match (a, b) {
        (
            Token::Ident { text: t1, span: s1 },
            Token::Ident { text: t2, span: s2 },
        ) => t1 == t2 && s1 == s2,
        (Token::Lit { text: t1, span: s1 }, Token::Lit { text: t2, span: s2 }) => {
            t1 == t2 && s1 == s2
        }
        (
            Token::Punct { ch: c1, spacing: sp1, span: s1 },
            Token::Punct { ch: c2, spacing: sp2, span: s2 },
        ) => c1 == c2 && sp1 == sp2 && s1 == s2,
        (
            Token::Group { delim: d1, tokens: ts1, span: s1 },
            Token::Group { delim: d2, tokens: ts2, span: s2 },
        ) => d1 == d2 && s1 == s2 && toks_eq(ts1, ts2),
        _ => false,
    }
}

fn toks_eq(a: &[Token], b: &[Token]) -> bool {
    a.len() == b.len() && a.iter().zip(b.iter()).all(|(x, y)| tok_eq(x, y))
}

fn count_ident(ts: &[Token], name: &str) -> usize {
    ts.iter()
        .map(|t| match t {
            Token::Ident { text, .. } => usize::from(text == name),
            Token::Group { tokens, .. } => count_ident(tokens, name),
            _ => 0,
        })
        .sum()
}

/// `#[builder(each = "...")]` as the bracket-group annotation token.
fn each_attr(op: &str, p: usize) -> Vec<Token> {
    let inner = vec![
        id("each", p),
        punct('=', p),
        lit(&format!("\"{}\"", op), p),
    ];
    vec![
        punct('#', p),
        group(
            Delimiter::Bracket,
            vec![id("builder", p), group(Delimiter::Paren, inner, p + 1)],
            p,
        ),
    ]
}

#[test]
fn one_plain_field_generates_the_exact_builder() {
    // pub struct P { x: u32 }
    let name = id("P", 1);
    let body = group(Delimiter::Brace, vec![id("x", 10), punct(':', 11), id("u32", 20)], 2);
    let out = seq_builder::gen::derive(&name, &body).unwrap();

    let slot = vec![
        id("x", 10),
        punct(':', 10),
        id("Option", 10),
        punct('<', 10),
        id("u32", 20),
        punct('>', 10),
        punct(',', 10),
    ];
    let setter = vec![
        id("pub", 10),
        id("fn", 10),
        id("x", 10),
        group(
            Delimiter::Paren,
            vec![
                punct('&', 10),
                id("mut", 10),
                id("self", 10),
                punct(',', 10),
                id("x", 10),
                punct(':', 10),
                id("u32", 20),
            ],
            10,
        ),
        punct_joint('-', 10),
        punct('>', 10),
        punct('&', 10),
        id("mut", 10),
        id("Self", 10),
        group(
            Delimiter::Brace,
            vec![
                id("self", 10),
                punct('.', 10),
                id("x", 10),
                punct('=', 10),
                id("Some", 10),
                group(Delimiter::Paren, vec![id("x", 10)], 10),
                punct(';', 10),
                id("self", 10),
            ],
            10,
        ),
    ];
    let build_fn = vec![
        id("pub", 1),
        id("fn", 1),
        id("build", 1),
        group(
            Delimiter::Paren,
            vec![punct('&', 1), id("mut", 1), id("self", 1)],
            1,
        ),
        punct_joint('-', 1),
        punct('>', 1),
        id("Result", 1),
        punct('<', 1),
        id("P", 1),
        punct(',', 1),
        id("String", 1),
        punct('>', 1),
        group(
            Delimiter::Brace,
            vec![
                id("Ok", 1),
                group(
                    Delimiter::Paren,
                    vec![
                        id("P", 1),
                        group(
                            Delimiter::Brace,
                            vec![
                                id("x", 10),
                                punct(':', 10),
                                id("self", 10),
                                punct('.', 10),
                                id("x", 10),
                                punct('.', 10),
                                id("clone", 10),
                                group(Delimiter::Paren, vec![], 10),
                                punct('.', 10),
                                id("ok_or", 10),
                                group(
                                    Delimiter::Paren,
                                    vec![lit("\"x is not set\"", 10)],
                                    10,
                                ),
                                punct('?', 10),
                                punct(',', 10),
                            ],
                            1,
                        ),
                    ],
                    1,
                ),
            ],
            1,
        ),
    ];
    let mut impl_body = setter;
    impl_body.extend(build_fn);
    let ctor = vec![
        id("impl", 1),
        id("P", 1),
        group(
            Delimiter::Brace,
            vec![
                id("pub", 1),
                id("fn", 1),
                id("builder", 1),
                group(Delimiter::Paren, vec![], 1),
                punct_joint('-', 1),
                punct('>', 1),
                id("PBuilder", 1),
                group(
                    Delimiter::Brace,
                    vec![
                        id("PBuilder", 1),
                        group(
                            Delimiter::Brace,
                            vec![id("x", 10), punct(':', 10), id("None", 10), punct(',', 10)],
                            1,
                        ),
                    ],
                    1,
                ),
            ],
            1,
        ),
    ];
    let mut expected = vec![
        id("pub", 1),
        id("struct", 1),
        id("PBuilder", 1),
        group(Delimiter::Brace, slot, 1),
        id("impl", 1),
        id("PBuilder", 1),
        group(Delimiter::Brace, impl_body, 1),
    ];
    expected.extend(ctor);
    assert!(toks_eq(&out, &expected));
}

#[test]
fn each_with_a_different_name_emits_both_operations() {
    // struct C { #[builder(each = "arg")] args: Vec<String> }
    let mut fields = each_attr("arg", 30);
    fields.extend(vec![
        id("args", 40),
        punct(':', 41),
        id("Vec", 50),
        punct('<', 51),
        id("String", 52),
        punct('>', 53),
    ]);
    let out = seq_builder::gen::derive(&id("C", 1), &group(Delimiter::Brace, fields, 2)).unwrap();
    // the impl block holds the replace setter, the append operation, and
    // `build`: three method headers in all
    assert_eq!(count_ident(&out, "fn"), 3 + 1);  // + the constructor
    assert_eq!(count_ident(&out, "args"), 2 + 7);  // headers and bodies
    assert_eq!(count_ident(&out, "arg"), 3);
    assert_eq!(count_ident(&out, "push"), 1);
}

#[test]
fn each_colliding_with_the_field_name_replaces_the_setter() {
    // struct C { #[builder(each = "env")] env: Vec<String> }
    let mut fields = each_attr("env", 30);
    fields.extend(vec![
        id("env", 40),
        punct(':', 41),
        id("Vec", 50),
        punct('<', 51),
        id("String", 52),
        punct('>', 53),
    ]);
    let out = seq_builder::gen::derive(&id("C", 1), &group(Delimiter::Brace, fields, 2)).unwrap();
    // only the append operation and `build` remain
    assert_eq!(count_ident(&out, "fn"), 2 + 1);
    assert_eq!(count_ident(&out, "push"), 1);
}

#[test]
fn duplicate_field_names_are_malformed() {
    let fields = vec![
        id("x", 10),
        punct(':', 11),
        id("u32", 12),
        punct(',', 13),
        id("x", 14),
        punct(':', 15),
        id("u8", 16),
    ];
    let e = seq_builder::gen::derive(&id("P", 1), &group(Delimiter::Brace, fields, 2)).unwrap_err();
    assert_eq!(e, Error::MalformedInput { span: Span { pos: 14 } });
}

#[test]
fn wrong_annotation_word_is_an_attribute_error_at_the_interior() {
    let inner = vec![id("every", 30), punct('=', 30), lit("\"arg\"", 30)];
    let fields = vec![
        punct('#', 29),
        group(
            Delimiter::Bracket,
            vec![id("builder", 29), group(Delimiter::Paren, inner, 31)],
            29,
        ),
        id("args", 40),
        punct(':', 41),
        id("Vec", 50),
        punct('<', 51),
        id("String", 52),
        punct('>', 53),
    ];
    let e = seq_builder::gen::derive(&id("C", 1), &group(Delimiter::Brace, fields, 2)).unwrap_err();
    assert_eq!(e, Error::AttributeSyntaxError { span: Span { pos: 31 } });
}

#[test]
fn each_on_a_plain_field_is_a_type_shape_error() {
    let mut fields = each_attr("arg", 30);
    fields.extend(vec![id("n", 40), punct(':', 41), id("u32", 42)]);
    let e = seq_builder::gen::derive(&id("C", 1), &group(Delimiter::Brace, fields, 2)).unwrap_err();
    assert_eq!(e, Error::TypeShapeError { span: Span { pos: 42 } });
}

#[test]
fn optional_wrapper_with_two_arguments_is_a_type_shape_error() {
    let fields = vec![
        id("y", 10),
        punct(':', 11),
        id("Option", 12),
        punct('<', 13),
        id("u8", 14),
        punct(',', 15),
        id("u8", 16),
        punct('>', 17),
    ];
    let e = seq_builder::gen::derive(&id("P", 1), &group(Delimiter::Brace, fields, 2)).unwrap_err();
    assert_eq!(e, Error::TypeShapeError { span: Span { pos: 12 } });
}

#[test]
fn name_must_be_an_identifier_and_body_a_brace_group() {
    let e = seq_builder::gen::derive(&punct('+', 3), &group(Delimiter::Brace, vec![], 2)).unwrap_err();
    assert_eq!(e, Error::MalformedInput { span: Span { pos: 3 } });
    let e2 = seq_builder::gen::derive(&id("P", 1), &group(Delimiter::Paren, vec![], 4)).unwrap_err();
    assert_eq!(e2, Error::MalformedInput { span: Span { pos: 4 } });
}

#[test]
fn malformed_annotation_on_an_unclassified_field_parses_but_fails_generation() {
    // attribute meaning is resolved at generation time, not parse time
    let bad_attr = vec![
        punct('#', 29),
        group(Delimiter::Bracket, vec![id("builder", 29), id("junk", 30)], 29),
    ];
    let mut fields = bad_attr;
    fields.extend(vec![id("n", 40), punct(':', 41), id("u32", 42)]);
    let body = group(Delimiter::Brace, fields, 2);
    assert!(parse_struct(&id("C", 1), &body).is_ok());
    let e = seq_builder::gen::derive(&id("C", 1), &body).unwrap_err();
    assert_eq!(e, Error::AttributeSyntaxError { span: Span { pos: 29 } });
}

#[test]
fn classifier_recognizes_wrappers_by_outer_name() {
    let vec_ty = vec![id("Vec", 1), punct('<', 2), id("String", 3), punct('>', 4)];
    assert!(classify(&vec_ty, "Vec"));
    assert!(!classify(&vec_ty, "Option"));
    assert_eq!(shape_of(&vec_ty), TypeShape::Sequence);
    let inner = unwrap_inner(&vec_ty).unwrap();
    assert!(toks_eq(&inner, &[id("String", 3)]));

    let nested = vec![
        id("Option", 1),
        punct('<', 2),
        id("Vec", 3),
        punct('<', 4),
        id("u8", 5),
        punct('>', 6),
        punct('>', 7),
    ];
    assert_eq!(shape_of(&nested), TypeShape::Optional);
    let inner2 = unwrap_inner(&nested).unwrap();
    assert!(toks_eq(
        &inner2,
        &[id("Vec", 3), punct('<', 4), id("u8", 5), punct('>', 6)],
    ));

    let plain = vec![id("String", 1)];
    assert_eq!(shape_of(&plain), TypeShape::Plain);
}
