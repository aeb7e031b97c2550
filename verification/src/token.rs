//! The token tree model: the shared substrate both transformers work on.
//! A token is a leaf (identifier, literal, punctuation) or a delimited
//! group of tokens; every node carries a source position for diagnostics.

use vstd::prelude::*;
use vstd::string::*;

verus! {

broadcast use vstd::std_specs::vec::group_vec_axioms, vstd::seq::group_seq_axioms;

/// Source position carried by every token, for diagnostics.
#[derive(Clone, Copy, PartialEq, Eq, Structural, Debug)]
pub struct Span {
    pub pos: usize,
}

/// Whether a punctuation character is immediately followed by another
/// punctuation character (`Joint`) or not (`Alone`); multi-character
/// operators such as `..` keep their spelling this way.
#[derive(Clone, Copy, PartialEq, Eq, Structural, Debug)]
pub enum Spacing {
    Alone,
    Joint,
}

/// The delimiter kind of a group.
#[derive(Clone, Copy, PartialEq, Eq, Structural, Debug)]
pub enum Delimiter {
    Paren,
    Bracket,
    Brace,
}

/// A node of the token tree.
#[derive(Debug)]
pub enum Token {
    Ident { text: String, span: Span },
    Lit { text: String, span: Span },
    Punct { ch: char, spacing: Spacing, span: Span },
    Group { delim: Delimiter, tokens: Vec<Token>, span: Span },
}

/// The mathematical model of a token: texts become character sequences
/// and group contents become sequences of models.
pub enum TokenView {
    Ident { text: Seq<char>, span: Span },
    Lit { text: Seq<char>, span: Span },
    Punct { ch: char, spacing: Spacing, span: Span },
    Group { delim: Delimiter, tokens: Seq<TokenView>, span: Span },
}

/// The model of one token.
pub open spec fn tok_view(t: Token) -> TokenView
    decreases t,
    via tok_view_dec
{
    match t {
        Token::Ident { text, span } => TokenView::Ident { text: text@, span },
        Token::Lit { text, span } => TokenView::Lit { text: text@, span },
        Token::Punct { ch, spacing, span } => TokenView::Punct { ch, spacing, span },
        Token::Group { delim, tokens, span } => TokenView::Group {
            delim,
            tokens: views_of(tokens@),
            span,
        },
    }
}

/// The model of a token sequence: the models of its tokens, in order.
pub open spec fn views_of(ts: Seq<Token>) -> Seq<TokenView>
    decreases ts,
{
    if ts.len() == 0 {
        Seq::empty()
    } else {
        seq![tok_view(ts[0])] + views_of(ts.drop_first())
    }
}

#[via_fn]
proof fn tok_view_dec(t: Token) {
    broadcast use vstd::std_specs::vec::group_vec_axioms;

    match t {
        Token::Group { delim, tokens, span } => {
            assert(decreases_to!(t => tokens));
            assert(decreases_to!(tokens => tokens@));
        },
        _ => {},
    }
}

impl View for Token {
    type V = TokenView;

    open spec fn view(&self) -> TokenView {
        tok_view(*self)
    }
}

/// `views_of` maps each position of the sequence to its token's model.
pub broadcast proof fn lemma_views_of(ts: Seq<Token>)
    ensures
        #[trigger] views_of(ts).len() == ts.len(),
        forall|i: int| 0 <= i < ts.len() ==> views_of(ts)[i] == ts[i]@,
    decreases ts.len(),
{
    if ts.len() > 0 {
        lemma_views_of(ts.drop_first());
        assert forall|i: int| 0 <= i < ts.len() implies views_of(ts)[i] == ts[i]@ by {
            if i > 0 {
                assert(views_of(ts)[i] == views_of(ts.drop_first())[i - 1]);
                assert(ts.drop_first()[i - 1] == ts[i]);
            }
        }
    }
}

/// Each position of the model holds the model of the token there.
pub broadcast proof fn lemma_views_of_index(ts: Seq<Token>, i: int)
    requires
        0 <= i < ts.len(),
    ensures
        views_of(ts).len() == ts.len(),
        #[trigger] views_of(ts)[i] == ts[i]@,
{
    lemma_views_of(ts);
}

/// Extending a token sequence by one token extends its model by that
/// token's model.
pub broadcast proof fn lemma_views_of_push(ts: Seq<Token>, t: Token)
    ensures
        #[trigger] views_of(ts.push(t)) == views_of(ts).push(t@),
{
    broadcast use lemma_views_of;

    assert(views_of(ts.push(t)) =~= views_of(ts).push(t@));
}

/// The position of a token, in the model.
pub open spec fn span_of(t: TokenView) -> Span {
    match t {
        TokenView::Ident { span, .. } => span,
        TokenView::Lit { span, .. } => span,
        TokenView::Punct { span, .. } => span,
        TokenView::Group { span, .. } => span,
    }
}

/// The position of a token, read off the tree.
pub fn token_span(t: &Token) -> (s: Span)
    ensures
        s == span_of(t@),
{
    match t {
        Token::Ident { span, .. } => *span,
        Token::Lit { span, .. } => *span,
        Token::Punct { span, .. } => *span,
        Token::Group { span, .. } => *span,
    }
}

/// The position a diagnostic about position `k` points at: the token
/// there, or the last token when the input ends too early.
pub open spec fn spec_span_at(ts: Seq<TokenView>, k: int) -> Span {
    if ts.len() == 0 {
        Span { pos: 0 }
    } else if 0 <= k < ts.len() {
        span_of(ts[k])
    } else {
        span_of(ts.last())
    }
}

/// The executable mirror of `spec_span_at`.
pub fn span_at(ts: &Vec<Token>, k: usize) -> (s: Span)
    ensures
        s == spec_span_at(views_of(ts@), k as int),
{
    proof {
        broadcast use lemma_views_of;

    }
    if ts.len() == 0 {
        Span { pos: 0 }
    } else if k < ts.len() {
        token_span(&ts[k])
    } else {
        token_span(&ts[ts.len() - 1])
    }
}

/// The model of a concatenation is the concatenation of the models.
pub broadcast proof fn lemma_views_of_concat(a: Seq<Token>, b: Seq<Token>)
    ensures
        #[trigger] views_of(a + b) == views_of(a) + views_of(b),
{
    broadcast use lemma_views_of;

    assert(views_of(a + b) =~= views_of(a) + views_of(b));
}

/// Equality of two texts, spoken of by their character sequences.
pub fn text_eq(a: &String, b: &String) -> (r: bool)
    ensures
        r == (a@ == b@),
{
    *a == *b
}

/// Does `a` spell the literal `b`?
pub fn text_is(a: &String, b: &str) -> (r: bool)
    ensures
        r == (a@ == b@),
{
    let other = String::from_str(b);
    *a == other
}

/// A full deep copy; the copy has the same model, positions included.
#[verifier::loop_isolation(false)]
pub fn clone_token(t: &Token) -> (r: Token)
    ensures
        r@ == t@,
    decreases *t,
{
    match t {
        Token::Ident { text, span } => Token::Ident { text: text.clone(), span: *span },
        Token::Lit { text, span } => Token::Lit { text: text.clone(), span: *span },
        Token::Punct { ch, spacing, span } => Token::Punct {
            ch: *ch,
            spacing: *spacing,
            span: *span,
        },
        Token::Group { delim, tokens, span } => {
            let mut copies: Vec<Token> = Vec::new();
            let mut k: usize = 0;
            while k < tokens.len()
                invariant
                    k <= tokens.len(),
                    copies@.len() == k,
                    forall|j: int| 0 <= j < k ==> copies@[j]@ == tokens@[j]@,
                decreases tokens.len() - k,
            {
                proof {
                    assert(decreases_to!(*t => *tokens));
                    assert(decreases_to!(*tokens => tokens@[k as int]));
                }
                copies.push(clone_token(&tokens[k]));
                k = k + 1;
            }
            let r = Token::Group { delim: *delim, tokens: copies, span: *span };
            proof {
                broadcast use lemma_views_of;

                assert(views_of(copies@) =~= views_of(tokens@));
            }
            r
        },
    }
}

/// A full deep copy of a token sequence, with the same model.
#[verifier::loop_isolation(false)]
pub fn clone_tokens(ts: &Vec<Token>) -> (r: Vec<Token>)
    ensures
        views_of(r@) == views_of(ts@),
{
    broadcast use lemma_views_of;

    let mut copies: Vec<Token> = Vec::new();
    let mut k: usize = 0;
    while k < ts.len()
        invariant
            k <= ts.len(),
            copies@.len() == k,
            forall|j: int| 0 <= j < k ==> copies@[j]@ == ts@[j]@,
        decreases ts.len() - k,
    {
        copies.push(clone_token(&ts[k]));
        k = k + 1;
    }
    proof {
        assert(views_of(copies@) =~= views_of(ts@));
    }
    copies
}

} // verus!
