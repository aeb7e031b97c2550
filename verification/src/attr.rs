//! The attribute grammar parser: a per-field annotation of the shape
//! `builder(each = "...")`. The first annotation headed `builder` is the
//! one that counts; annotations with any other head are ignored. Any
//! deviation inside a `builder` annotation is an error whose position
//! points at the annotation's interior.

use vstd::prelude::*;
use vstd::string::*;
use crate::error::Error;
use crate::token::{
    lemma_views_of, lemma_views_of_index, span_of, text_is, token_span, views_of, Delimiter, Span, Token, TokenView,
};

verus! {

broadcast use
    vstd::std_specs::vec::group_vec_axioms,
    vstd::seq::group_seq_axioms,
    lemma_views_of,
    lemma_views_of_index;

/// The override an `each` annotation names: the append operation and the
/// element type it takes.
pub struct EachOverride {
    pub operation_name: String,
    pub op_span: Span,
    pub element_type: Vec<Token>,
}

/// Is this annotation group headed by the identifier `builder`?
pub open spec fn is_builder_attr(a: TokenView) -> bool {
    &&& a matches TokenView::Group { tokens, .. }
    &&& a->Group_tokens.len() > 0
    &&& a->Group_tokens[0] matches TokenView::Ident { text, .. } && text == "builder"@
}

/// The first `builder`-headed annotation at or after position `k`.
pub open spec fn first_builder_attr(attrs: Seq<TokenView>, k: int) -> Option<int>
    decreases attrs.len() - k,
{
    if !(0 <= k < attrs.len()) {
        None
    } else if is_builder_attr(attrs[k]) {
        Some(k)
    } else {
        first_builder_attr(attrs, k + 1)
    }
}

/// The outcome of reading a field's annotations.
pub enum EachParse {
    /// No `builder`-headed annotation.
    EachNone,
    /// `builder(each = "...")`: the decoded operation name and its position.
    EachSome { op: Seq<char>, op_span: Span },
    /// A `builder`-headed annotation that breaks the grammar.
    EachFail { span: Span },
}

/// The grammar of one `builder` annotation:
/// `builder ( each = STRING-LITERAL )`, the literal plainly quoted.
pub open spec fn spec_each_attr(a: TokenView) -> EachParse {
    let ts = a->Group_tokens;
    if !(ts.len() == 2 && ts[1] matches TokenView::Group { delim: Delimiter::Paren, .. }) {
        EachParse::EachFail { span: span_of(a) }
    } else {
        let inner = ts[1]->Group_tokens;
        let isp = span_of(ts[1]);
        if !(inner.len() == 3 && (inner[0] matches TokenView::Ident { text, .. } && text
            == "each"@) && (inner[1] matches TokenView::Punct { ch: '=', .. }) && (inner[2]
            matches TokenView::Lit { text, .. } && text.len() >= 3 && text.first() == '"'
            && text.last() == '"')) {
            EachParse::EachFail { span: isp }
        } else {
            let lit = inner[2]->Lit_text;
            EachParse::EachSome {
                op: lit.subrange(1, lit.len() - 1),
                op_span: span_of(inner[2]),
            }
        }
    }
}

/// What a field's annotation list says: nothing, an override, or an error.
pub open spec fn spec_each_of(attrs: Seq<TokenView>) -> EachParse {
    match first_builder_attr(attrs, 0) {
        None => EachParse::EachNone,
        Some(k) => spec_each_attr(attrs[k]),
    }
}

/// Reads one `builder`-headed annotation.
fn parse_builder_attr(a: &Token) -> (r: Result<(String, Span), Error>)
    requires
        is_builder_attr(a@),
    ensures
        match r {
            Ok(p) => spec_each_attr(a@) == (EachParse::EachSome { op: p.0@, op_span: p.1 }),
            Err(e) => e matches Error::AttributeSyntaxError { .. } && spec_each_attr(a@)
                == (EachParse::EachFail { span: e.spec_span() }),
        },
{
    let a_span = token_span(a);
    if let Token::Group { tokens, .. } = a {
        proof {
            assert(a@->Group_tokens == views_of(tokens@));
            assert(views_of(tokens@).len() == tokens@.len());
            if tokens@.len() == 2 {
                assert(views_of(tokens@)[1] == tokens@[1]@);
            }
        }
        if tokens.len() == 2 {
            if let Token::Group { delim, tokens: inner, span: isp } = &tokens[1] {
                if *delim == Delimiter::Paren {
                    proof {
                        assert(a@->Group_tokens == views_of(tokens@));
                        assert(views_of(tokens@).len() == 2);
                        assert(views_of(tokens@)[1] == tokens@[1]@);
                        assert(tokens@[1]@->Group_tokens == views_of(inner@));
                        assert(views_of(inner@).len() == inner@.len());
                    }
                    if inner.len() == 3 {
                        proof {
                            assert(views_of(inner@)[0] == inner@[0]@);
                            assert(views_of(inner@)[1] == inner@[1]@);
                            assert(views_of(inner@)[2] == inner@[2]@);
                        }
                        let ok_each = match &inner[0] {
                            Token::Ident { text, .. } => text_is(text, "each"),
                            _ => false,
                        };
                        let ok_eq = match &inner[1] {
                            Token::Punct { ch, .. } => *ch == '=',
                            _ => false,
                        };
                        if ok_each && ok_eq {
                            if let Token::Lit { text, span } = &inner[2] {
                                let s: &str = &*text;
                                let n = s.unicode_len();
                                if n >= 3 && s.get_char(0) == '"' && s.get_char(n - 1) == '"' {
                                    let op = String::from_str(s.substring_char(1, n - 1));
                                    return Ok((op, *span));
                                }
                            }
                        }
                    }
                    return Err(Error::AttributeSyntaxError { span: *isp });
                }
            }
        }
        return Err(Error::AttributeSyntaxError { span: a_span });
    }
    Err(Error::AttributeSyntaxError { span: a_span })
}

/// Scans a field's annotations for the first headed `builder` and parses
/// it; annotations with other heads never surface an error.
#[verifier::loop_isolation(false)]
pub fn each_of(attrs: &Vec<Token>) -> (r: Result<Option<(String, Span)>, Error>)
    ensures
        match r {
            Ok(Some(p)) => spec_each_of(views_of(attrs@)) == (EachParse::EachSome {
                op: p.0@,
                op_span: p.1,
            }),
            Ok(None) => spec_each_of(views_of(attrs@)) == EachParse::EachNone,
            Err(e) => e matches Error::AttributeSyntaxError { .. } && spec_each_of(
                views_of(attrs@),
            ) == (EachParse::EachFail { span: e.spec_span() }),
        },
{
    let ghost vs = views_of(attrs@);
    let mut k: usize = 0;
    while k < attrs.len()
        invariant
            k <= attrs.len(),
            first_builder_attr(vs, 0) == first_builder_attr(vs, k as int),
        decreases attrs.len() - k,
    {
        match &attrs[k] {
            Token::Group { tokens, .. } => {
                let mut hd_ok = false;
                if tokens.len() > 0 {
                    if let Token::Ident { text, .. } = &tokens[0] {
                        hd_ok = text_is(text, "builder");
                    }
                }
                if hd_ok {
                    proof {
                        assert(vs[k as int] == attrs@[k as int]@);
                        assert(vs[k as int]->Group_tokens == views_of(tokens@));
                        assert(views_of(tokens@).len() > 0);
                        assert(views_of(tokens@)[0] == tokens@[0]@);
                        assert(is_builder_attr(vs[k as int]));
                        assert(first_builder_attr(vs, k as int) == Some(k as int));
                    }
                    return match parse_builder_attr(&attrs[k]) {
                        Ok(p) => Ok(Some(p)),
                        Err(e) => Err(e),
                    };
                }
            },
            _ => {},
        }
        k = k + 1;
    }
    Ok(None)
}

} // verus!
