//! The repetition expansion engine, end to end on token trees.

use seq_builder::error::Error;
use seq_builder::expand::seq_expand;
use seq_builder::token::{Delimiter, Spacing, Span, Token};

fn id(s: &str, p: usize) -> Token {
    Token::Ident { text: s.to_string(), span: Span { pos: p } }
}

fn lit(s: &str, p: usize) -> Token {
    Token::Lit { text: s.to_string(), span: Span { pos: p } }
}

fn punct(c: char, p: usize) -> Token {
    Token::Punct { ch: c, spacing: Spacing::Alone, span: Span { pos: p } }
}

fn punct_joint(c: char, p: usize) -> Token {
    Token::Punct { ch: c, spacing: Spacing::Joint, span: Span { pos: p } }
}

fn group(d: Delimiter, ts: Vec<Token>, p: usize) -> Token {
    Token::Group { delim: d, tokens: ts, span: Span { pos: p } }
}

fn tok_eq(a: &Token, b: &Token) -> bool {
    match (a, b) {
        (
            Token::Ident { text: t1, span: s1 },
            Token::Ident { text: t2, span: s2 },
        ) => t1 == t2 && s1 == s2,
        (Token::Lit { text: t1, span: s1 }, Token::Lit { text: t2, span: s2 }) => {
            t1 == t2 && s1 == s2
        }
        (
            Token::Punct { ch: c1, spacing: sp1, span: s1 },
            Token::Punct { ch: c2, spacing: sp2, span: s2 },
        ) => c1 == c2 && sp1 == sp2 && s1 == s2,
        (
            Token::Group { delim: d1, tokens: ts1, span: s1 },
            Token::Group { delim: d2, tokens: ts2, span: s2 },
        ) => d1 == d2 && s1 == s2 && toks_eq(ts1, ts2),
        _ => false,
    }
}

fn toks_eq(a: &[Token], b: &[Token]) -> bool {
    a.len() == b.len() && a.iter().zip(b.iter()).all(|(x, y)| tok_eq(x, y))
}

fn mentions_ident(ts: &[Token], name: &str) -> bool {
    ts.iter().any(|t| match t {
        Token::Ident { text, .. } => text == name,
        Token::Group { tokens, .. } => mentions_ident(tokens, name),
        _ => false,
    })
}

/// The invocation `N in FROM..TO { template }` as a token sequence.
fn invocation(from: &str, to: &str, template: Vec<Token>) -> Vec<Token> {
    let mut ts = vec![id("N", 1), id("in", 2)];
    if let Some(m) = from.strip_prefix('-') {
        ts.push(punct('-', 3));
        ts.push(lit(m, 3));
    } else {
        ts.push(lit(from, 3));
    }
    ts.push(punct_joint('.', 4));
    ts.push(punct('.', 5));
    if let Some(m) = to.strip_prefix('-') {
        ts.push(punct('-', 6));
        ts.push(lit(m, 6));
    } else {
        ts.push(lit(to, 6));
    }
    ts.push(group(Delimiter::Brace, template, 7));
    ts
}

#[test]
fn three_passes_in_order_with_pasting() {
    // N in 0..3 { f#N(); }  =>  f0(); f1(); f2();
    let template = vec![
        id("f", 10),
        punct('#', 11),
        id("N", 12),
        group(Delimiter::Paren, vec![], 13),
        punct(';', 14),
    ];
    let out = seq_expand(&invocation("0", "3", template)).unwrap();
    let expected = vec![
        id("f0", 10),
        group(Delimiter::Paren, vec![], 13),
        punct(';', 14),
        id("f1", 10),
        group(Delimiter::Paren, vec![], 13),
        punct(';', 14),
        id("f2", 10),
        group(Delimiter::Paren, vec![], 13),
        punct(';', 14),
    ];
    assert!(toks_eq(&out, &expected));
    assert_eq!(out.len(), 3 * 3);
    assert!(!mentions_ident(&out, "N"));
}

#[test]
fn binder_becomes_a_decimal_literal_with_the_binder_site_span() {
    let out = seq_expand(&invocation("5", "6", vec![id("N", 42)])).unwrap();
    assert!(toks_eq(&out, &[lit("5", 42)]));
}

#[test]
fn empty_range_yields_no_tokens() {
    let template = vec![id("x", 9), punct(';', 9)];
    let out = seq_expand(&invocation("2", "2", template)).unwrap();
    assert!(out.is_empty());
}

#[test]
fn nested_groups_expand_at_every_depth() {
    // N in 1..3 { (a { N }) }
    let inner = group(Delimiter::Brace, vec![id("N", 21)], 22);
    let template = vec![group(Delimiter::Paren, vec![id("a", 20), inner], 23)];
    let out = seq_expand(&invocation("1", "3", template)).unwrap();
    let pass = |n: &str| {
        group(
            Delimiter::Paren,
            vec![id("a", 20), group(Delimiter::Brace, vec![lit(n, 21)], 22)],
            23,
        )
    };
    assert!(toks_eq(&out, &[pass("1"), pass("2")]));
    assert!(!mentions_ident(&out, "N"));
}

#[test]
fn negative_bounds_expand_in_ascending_order() {
    let out = seq_expand(&invocation("-2", "1", vec![id("N", 30)])).unwrap();
    assert!(toks_eq(&out, &[lit("-2", 30), lit("-1", 30), lit("0", 30)]));
}

#[test]
fn identifiers_other_than_the_binder_pass_through() {
    let template = || vec![id("keep", 31), lit("7", 32), punct('+', 33)];
    let out = seq_expand(&invocation("0", "1", template())).unwrap();
    assert!(toks_eq(&out, &template()));
}

#[test]
fn paste_needs_the_marker_and_the_binder() {
    // `f # other` is not a paste pattern: everything passes through.
    let template = || vec![id("f", 40), punct('#', 41), id("other", 42)];
    let out = seq_expand(&invocation("0", "1", template())).unwrap();
    assert!(toks_eq(&out, &template()));
}

#[test]
fn missing_in_keyword_is_malformed() {
    let ts = vec![id("N", 1), id("of", 2), lit("0", 3)];
    let e = seq_expand(&ts).unwrap_err();
    assert_eq!(e, Error::MalformedInput { span: Span { pos: 2 } });
}

#[test]
fn non_numeric_bound_is_malformed() {
    let ts = vec![
        id("N", 1),
        id("in", 2),
        lit("abc", 3),
        punct_joint('.', 4),
        punct('.', 5),
        lit("3", 6),
        group(Delimiter::Brace, vec![], 7),
    ];
    let e = seq_expand(&ts).unwrap_err();
    assert_eq!(e, Error::MalformedInput { span: Span { pos: 3 } });
}

#[test]
fn bound_over_fifteen_digits_is_malformed() {
    let ts = invocation("0", "1000000000000000000", vec![]);
    let e = seq_expand(&ts).unwrap_err();
    assert_eq!(e, Error::MalformedInput { span: Span { pos: 6 } });
}

#[test]
fn missing_brace_group_is_malformed() {
    let ts = vec![
        id("N", 1),
        id("in", 2),
        lit("0", 3),
        punct_joint('.', 4),
        punct('.', 5),
        lit("3", 6),
    ];
    let e = seq_expand(&ts).unwrap_err();
    // the input ends too early: the diagnostic points at the last token
    assert_eq!(e, Error::MalformedInput { span: Span { pos: 6 } });
}

#[test]
fn trailing_tokens_after_the_template_are_malformed() {
    let mut ts = invocation("0", "1", vec![]);
    ts.push(id("extra", 8));
    let e = seq_expand(&ts).unwrap_err();
    assert_eq!(e, Error::MalformedInput { span: Span { pos: 7 } });
}

#[test]
fn dots_must_be_joined() {
    let ts = vec![
        id("N", 1),
        id("in", 2),
        lit("0", 3),
        punct('.', 4),
        punct('.', 5),
        lit("3", 6),
        group(Delimiter::Brace, vec![], 7),
    ];
    let e = seq_expand(&ts).unwrap_err();
    assert_eq!(e, Error::MalformedInput { span: Span { pos: 4 } });
}
