//! The repetition expansion engine: given a binder identifier, an integer
//! range and a template tree, it produces one transformed copy of the
//! template per integer of the range, in ascending order. In a copy for
//! integer `i`, the binder becomes the decimal literal `i`, the pattern
//! `ident '#' binder` becomes one pasted identifier, groups are expanded
//! recursively, and everything else passes through unchanged.

use vstd::prelude::*;
use vstd::string::*;
use crate::error::Error;
use crate::num::{dec_chars, dec_string, dec_value, is_digits, parse_dec, DEC_MAX};
use crate::token::{
    clone_token, clone_tokens, lemma_views_of, lemma_views_of_concat, lemma_views_of_index,
    lemma_views_of_push,
    span_at, span_of, spec_span_at, text_eq, text_is, token_span, views_of, Delimiter, Spacing,
    Span, Token, TokenView,
};

verus! {

broadcast use
    vstd::std_specs::vec::group_vec_axioms,
    vstd::seq::group_seq_axioms,
    lemma_views_of,
    lemma_views_of_index,
    lemma_views_of_push,
    lemma_views_of_concat;

/// Does the paste pattern `ident '#' binder` start at `k`, the leading
/// identifier being other than the binder?
pub open spec fn is_paste_at(binder: Seq<char>, ts: Seq<TokenView>, k: int) -> bool {
    &&& 0 <= k && k + 2 < ts.len()
    &&& ts[k] matches TokenView::Ident { text, .. } && text != binder
    &&& ts[k + 1] matches TokenView::Punct { ch: '#', .. }
    &&& ts[k + 2] matches TokenView::Ident { text: t2, .. } && t2 == binder
}

/// One pass of the engine over the tail of `ts` that starts at `k`,
/// substituting the integer `i` for the binder.
pub open spec fn subst_from(binder: Seq<char>, i: int, ts: Seq<TokenView>, k: int) -> Seq<
    TokenView,
>
    decreases ts, ts.len() - k,
    via subst_from_dec
{
    if k < 0 || k >= ts.len() {
        Seq::empty()
    } else {
        match ts[k] {
            TokenView::Ident { text, span } => if text == binder {
                seq![TokenView::Lit { text: dec_chars(i), span }] + subst_from(binder, i, ts, k + 1)
            } else if is_paste_at(binder, ts, k) {
                seq![TokenView::Ident { text: text + dec_chars(i), span }] + subst_from(
                    binder,
                    i,
                    ts,
                    k + 3,
                )
            } else {
                seq![ts[k]] + subst_from(binder, i, ts, k + 1)
            },
            TokenView::Group { delim, tokens, span } => seq![
                TokenView::Group { delim, tokens: subst_from(binder, i, tokens, 0), span },
            ] + subst_from(binder, i, ts, k + 1),
            _ => seq![ts[k]] + subst_from(binder, i, ts, k + 1),
        }
    }
}

#[via_fn]
proof fn subst_from_dec(binder: Seq<char>, i: int, ts: Seq<TokenView>, k: int) {
    if 0 <= k && k < ts.len() {
        let t = ts[k];
        match t {
            TokenView::Group { delim, tokens, span } => {
                assert(decreases_to!(ts => ts[k]));
                assert(decreases_to!(t => tokens));
            },
            _ => {},
        }
    }
}

/// The full expansion: one pass per integer of `from .. to` (exclusive at
/// `to`), ascending, the passes concatenated with nothing between them.
/// An empty range yields the empty sequence.
pub open spec fn expand_range(
    binder: Seq<char>,
    from: int,
    to: int,
    ts: Seq<TokenView>,
) -> Seq<TokenView>
    decreases to - from,
{
    if from >= to {
        Seq::empty()
    } else {
        subst_from(binder, from, ts, 0) + expand_range(binder, from + 1, to, ts)
    }
}

/// Peeling the last pass off a range.
pub proof fn lemma_expand_range_snoc(binder: Seq<char>, from: int, to: int, ts: Seq<TokenView>)
    requires
        from <= to,
    ensures
        expand_range(binder, from, to + 1, ts) == expand_range(binder, from, to, ts) + subst_from(
            binder,
            to,
            ts,
            0,
        ),
    decreases to - from,
{
    if from == to {
        assert(expand_range(binder, from + 1, to + 1, ts) =~= Seq::<TokenView>::empty());
        assert(expand_range(binder, from, to, ts) =~= Seq::<TokenView>::empty());
        assert(expand_range(binder, from, to + 1, ts) =~= expand_range(binder, from, to, ts)
            + subst_from(binder, to, ts, 0));
    } else {
        lemma_expand_range_snoc(binder, from + 1, to, ts);
        assert(expand_range(binder, from, to + 1, ts) =~= expand_range(binder, from, to, ts)
            + subst_from(binder, to, ts, 0));
    }
}

/// An empty range expands to no tokens at all.
pub proof fn lemma_empty_range(binder: Seq<char>, n: int, ts: Seq<TokenView>)
    ensures
        expand_range(binder, n, n, ts) == Seq::<TokenView>::empty(),
{
}

/// A pass expands a group by expanding its children with the same binder
/// and integer, keeping delimiter and position: nesting does not change
/// what a pass does, at any depth.
pub proof fn lemma_group_pass(
    binder: Seq<char>,
    i: int,
    delim: Delimiter,
    tokens: Seq<TokenView>,
    span: Span,
)
    ensures
        subst_from(binder, i, seq![TokenView::Group { delim, tokens, span }], 0) == seq![
            TokenView::Group { delim, tokens: subst_from(binder, i, tokens, 0), span },
        ],
{
    let single = seq![TokenView::Group { delim, tokens, span }];
    assert(subst_from(binder, i, single, 1) =~= Seq::<TokenView>::empty());
    assert(subst_from(binder, i, single, 0) =~= seq![
        TokenView::Group { delim, tokens: subst_from(binder, i, tokens, 0), span },
    ]);
}

/// One expansion pass: walks the tokens with one-token lookahead by index,
/// advancing by one position, or by three over a consumed paste pattern.
#[verifier::loop_isolation(false)]
pub fn expand_tokens(binder: &String, i: i64, ts: &Vec<Token>) -> (out: Vec<Token>)
    requires
        i != i64::MIN,
    ensures
        views_of(out@) == subst_from(binder@, i as int, views_of(ts@), 0),
    decreases *ts,
{
    let ghost vs = views_of(ts@);
    let mut out: Vec<Token> = Vec::new();
    let mut k: usize = 0;
    while k < ts.len()
        invariant
            k <= ts.len(),
            views_of(out@) + subst_from(binder@, i as int, vs, k as int) == subst_from(
                binder@,
                i as int,
                vs,
                0,
            ),
        decreases ts.len() - k,
    {
        let ghost k0 = k as int;
        let ghost pre = views_of(out@);
        match &ts[k] {
            Token::Ident { text, span } => {
                if text_eq(text, binder) {
                    out.push(Token::Lit { text: dec_string(i), span: *span });
                    k = k + 1;
                } else {
                    let pasted = ts.len() - k >= 3 && (match &ts[k + 1] {
                        Token::Punct { ch, .. } => *ch == '#',
                        _ => false,
                    }) && (match &ts[k + 2] {
                        Token::Ident { text: t2, .. } => text_eq(t2, binder),
                        _ => false,
                    });
                    proof {
                        assert(pasted == is_paste_at(binder@, vs, k0));
                    }
                    if pasted {
                        let mut nt = text.clone();
                        let d = dec_string(i);
                        nt.append(&d);
                        out.push(Token::Ident { text: nt, span: *span });
                        k = k + 3;
                    } else {
                        out.push(clone_token(&ts[k]));
                        k = k + 1;
                    }
                }
            },
            Token::Group { delim, tokens, span } => {
                proof {
                    assert(decreases_to!(*ts => ts@[k0]));
                    assert(decreases_to!(ts@[k0] => *tokens));
                }
                let inner = expand_tokens(binder, i, tokens);
                out.push(Token::Group { delim: *delim, tokens: inner, span: *span });
                k = k + 1;
            },
            _ => {
                out.push(clone_token(&ts[k]));
                k = k + 1;
            },
        }
        proof {
            assert(views_of(out@) + subst_from(binder@, i as int, vs, k as int) =~= pre
                + subst_from(binder@, i as int, vs, k0));
        }
    }
    proof {
        assert(views_of(out@) + subst_from(binder@, i as int, vs, k as int) =~= views_of(out@));
    }
    out
}

/// A parsed repetition invocation `binder in FROM .. TO { template }`.
pub struct SeqInput {
    pub binder: String,
    pub binder_span: Span,
    pub from: i64,
    pub to: i64,
    pub template: Vec<Token>,
    pub template_span: Span,
}

/// The model of a parsed repetition invocation.
pub struct SeqInputView {
    pub binder: Seq<char>,
    pub binder_span: Span,
    pub from: int,
    pub to: int,
    pub template: Seq<TokenView>,
    pub template_span: Span,
}

impl View for SeqInput {
    type V = SeqInputView;

    open spec fn view(&self) -> SeqInputView {
        SeqInputView {
            binder: self.binder@,
            binder_span: self.binder_span,
            from: self.from as int,
            to: self.to as int,
            template: views_of(self.template@),
            template_span: self.template_span,
        }
    }
}

/// The range bounds the engine accepts: at most fifteen decimal digits.
pub open spec fn bounds_ok(si: SeqInputView) -> bool {
    -(DEC_MAX as int) <= si.from <= DEC_MAX as int && -(DEC_MAX as int) <= si.to <= DEC_MAX as int
}

/// The outcome of reading an integer literal: its value and the position
/// after it, or the position the diagnostic points at.
pub enum NumParse {
    NumOk { value: int, next: int },
    NumFail { span: Span },
}

/// Reads an optionally negated decimal literal at position `k`.
pub open spec fn spec_parse_num(ts: Seq<TokenView>, k: int) -> NumParse {
    if 0 <= k < ts.len() && (ts[k] matches TokenView::Punct { ch: '-', .. }) {
        match spec_parse_mag(ts, k + 1) {
            NumParse::NumOk { value, next } => NumParse::NumOk { value: -value, next },
            fail => fail,
        }
    } else {
        spec_parse_mag(ts, k)
    }
}

/// Reads a plain decimal literal at position `k`.
pub open spec fn spec_parse_mag(ts: Seq<TokenView>, k: int) -> NumParse {
    if !(0 <= k < ts.len()) {
        NumParse::NumFail { span: spec_span_at(ts, k) }
    } else {
        match ts[k] {
            TokenView::Lit { text, span } => if is_digits(text) && text.len() <= 15 {
                NumParse::NumOk { value: dec_value(text), next: k + 1 }
            } else {
                NumParse::NumFail { span }
            },
            t => NumParse::NumFail { span: span_of(t) },
        }
    }
}

/// The outcome of parsing a repetition invocation.
pub enum SeqParse {
    ParseOk { input: SeqInputView },
    ParseFail { span: Span },
}

/// The grammar of a repetition invocation, as a whole:
/// `IDENT 'in' INT '.''.' INT BRACE-GROUP` and nothing after it, the two
/// dots joined, the integers plain or negated decimal literals of at most
/// fifteen digits.
pub open spec fn spec_parse_seq(ts: Seq<TokenView>) -> SeqParse {
    if !(0 < ts.len() && ts[0] matches TokenView::Ident { .. }) {
        SeqParse::ParseFail { span: spec_span_at(ts, 0) }
    } else if !(1 < ts.len() && (ts[1] matches TokenView::Ident { text, .. } && text == "in"@)) {
        SeqParse::ParseFail { span: spec_span_at(ts, 1) }
    } else {
        match spec_parse_num(ts, 2) {
            NumParse::NumFail { span } => SeqParse::ParseFail { span },
            NumParse::NumOk { value: from, next: n1 } => if !(n1 + 1 < ts.len() && (ts[n1]
                matches TokenView::Punct { ch: '.', spacing: Spacing::Joint, .. }) && (ts[n1 + 1]
                matches TokenView::Punct { ch: '.', .. })) {
                SeqParse::ParseFail { span: spec_span_at(ts, n1) }
            } else {
                match spec_parse_num(ts, n1 + 2) {
                    NumParse::NumFail { span } => SeqParse::ParseFail { span },
                    NumParse::NumOk { value: to, next: n2 } => if n2 + 1 == ts.len() && (ts[n2]
                        matches TokenView::Group { delim: Delimiter::Brace, .. }) {
                        SeqParse::ParseOk {
                            input: SeqInputView {
                                binder: ts[0]->Ident_text,
                                binder_span: span_of(ts[0]),
                                from,
                                to,
                                template: ts[n2]->Group_tokens,
                                template_span: span_of(ts[n2]),
                            },
                        }
                    } else {
                        SeqParse::ParseFail { span: spec_span_at(ts, n2) }
                    },
                }
            },
        }
    }
}

/// Reads a plain decimal literal at position `k`.
fn parse_mag(ts: &Vec<Token>, k: usize) -> (r: Result<(u64, usize), Span>)
    ensures
        match r {
            Ok(p) => spec_parse_mag(views_of(ts@), k as int) == (NumParse::NumOk {
                value: p.0 as int,
                next: p.1 as int,
            }) && p.0 <= DEC_MAX && p.1 == k + 1 && k < ts.len(),
            Err(span) => spec_parse_mag(views_of(ts@), k as int) == (NumParse::NumFail { span }),
        },
{
    if k >= ts.len() {
        return Err(span_at(ts, k));
    }
    match &ts[k] {
        Token::Lit { text, span } => match parse_dec(text) {
            Some(v) => Ok((v, k + 1)),
            None => Err(*span),
        },
        t => Err(token_span(t)),
    }
}

/// Reads an optionally negated decimal literal at position `k`.
fn parse_num(ts: &Vec<Token>, k: usize) -> (r: Result<(i64, usize), Span>)
    ensures
        match r {
            Ok(p) => spec_parse_num(views_of(ts@), k as int) == (NumParse::NumOk {
                value: p.0 as int,
                next: p.1 as int,
            }) && -(DEC_MAX as i64) <= p.0 <= DEC_MAX as i64 && k < p.1 <= ts.len(),
            Err(span) => spec_parse_num(views_of(ts@), k as int) == (NumParse::NumFail { span }),
        },
{
    let neg = k < ts.len() && (match &ts[k] {
        Token::Punct { ch, .. } => *ch == '-',
        _ => false,
    });
    if neg {
        match parse_mag(ts, k + 1) {
            Ok(p) => Ok((-(p.0 as i64), p.1)),
            Err(span) => Err(span),
        }
    } else {
        match parse_mag(ts, k) {
            Ok(p) => Ok((p.0 as i64, p.1)),
            Err(span) => Err(span),
        }
    }
}

/// Parses a repetition invocation; `Ok` exactly on token sequences that
/// match the grammar, the diagnostic otherwise carrying the position the
/// grammar broke at.
pub fn parse_seq_input(ts: &Vec<Token>) -> (r: Result<SeqInput, Error>)
    ensures
        match r {
            Ok(si) => spec_parse_seq(views_of(ts@)) == (SeqParse::ParseOk { input: si@ })
                && bounds_ok(si@),
            Err(e) => spec_parse_seq(views_of(ts@)) == (SeqParse::ParseFail {
                span: e.spec_span(),
            }) && e matches Error::MalformedInput { .. },
        },
{
    proof {
        broadcast use lemma_views_of;

    }
    if ts.len() == 0 {
        return Err(Error::MalformedInput { span: span_at(ts, 0) });
    }
    let (binder, binder_span) = match &ts[0] {
        Token::Ident { text, span } => (text.clone(), *span),
        _ => {
            return Err(Error::MalformedInput { span: span_at(ts, 0) });
        },
    };
    let mut ok_in = false;
    if ts.len() > 1 {
        if let Token::Ident { text, .. } = &ts[1] {
            ok_in = text_is(text, "in");
        }
    }
    if !ok_in {
        return Err(Error::MalformedInput { span: span_at(ts, 1) });
    }
    let (from, n1) = match parse_num(ts, 2) {
        Ok(p) => p,
        Err(span) => {
            return Err(Error::MalformedInput { span });
        },
    };
    let mut ok_dots = false;
    if n1 + 1 < ts.len() {
        let d1 = match &ts[n1] {
            Token::Punct { ch, spacing, .. } => *ch == '.' && *spacing == Spacing::Joint,
            _ => false,
        };
        let d2 = match &ts[n1 + 1] {
            Token::Punct { ch, .. } => *ch == '.',
            _ => false,
        };
        ok_dots = d1 && d2;
    }
    if !ok_dots {
        return Err(Error::MalformedInput { span: span_at(ts, n1) });
    }
    let (to, n2) = match parse_num(ts, n1 + 2) {
        Ok(p) => p,
        Err(span) => {
            return Err(Error::MalformedInput { span });
        },
    };
    if n2 + 1 == ts.len() {
        if let Token::Group { delim, tokens, span } = &ts[n2] {
            if *delim == Delimiter::Brace {
                let template = clone_tokens(tokens);
                return Ok(
                    SeqInput { binder, binder_span, from, to, template, template_span: *span },
                );
            }
        }
    }
    Err(Error::MalformedInput { span: span_at(ts, n2) })
}

/// Every pass of the engine over the range, ascending, concatenated.
#[verifier::loop_isolation(false)]
pub fn expand_all(si: &SeqInput) -> (out: Vec<Token>)
    requires
        bounds_ok(si@),
    ensures
        views_of(out@) == expand_range(si@.binder, si@.from, si@.to, si@.template),
{
    let mut out: Vec<Token> = Vec::new();
    proof {
        assert(views_of(out@) =~= Seq::<TokenView>::empty());
    }
    if si.from >= si.to {
        return out;
    }
    let mut j: i64 = si.from;
    while j < si.to
        invariant
            si.from <= j <= si.to,
            views_of(out@) == expand_range(si@.binder, si@.from, j as int, si@.template),
        decreases si.to - j,
    {
        let mut part = expand_tokens(&si.binder, j, &si.template);
        proof {
            lemma_expand_range_snoc(si@.binder, si@.from, j as int, si@.template);
        }
        out.append(&mut part);
        j = j + 1;
    }
    out
}

/// The engine's entry point: parses `binder in FROM .. TO { template }`
/// and returns the expansion, one pass per integer of the range in
/// ascending order with nothing between the passes; an empty range gives
/// no tokens, and input that breaks the grammar gives the diagnostic.
pub fn seq_expand(ts: &Vec<Token>) -> (r: Result<Vec<Token>, Error>)
    ensures
        match r {
            Ok(out) => spec_parse_seq(views_of(ts@)) matches SeqParse::ParseOk { input }
                && views_of(out@) == expand_range(input.binder, input.from, input.to,
            input.template),
            Err(e) => spec_parse_seq(views_of(ts@)) == (SeqParse::ParseFail {
                span: e.spec_span(),
            }) && e matches Error::MalformedInput { .. },
        },
{
    match parse_seq_input(ts) {
        Ok(si) => Ok(expand_all(&si)),
        Err(e) => Err(e),
    }
}

} // verus!
