//! The type-shape classifier: recognizes a single-segment generic wrapper
//! by its outer name and extracts the inner type expression when the
//! wrapper carries exactly one type argument.

use vstd::prelude::*;
use crate::error::Error;
use crate::token::{
    clone_token, lemma_views_of, lemma_views_of_index, span_of, text_is, token_span, views_of, Span, Token, TokenView,
};

verus! {

broadcast use
    vstd::std_specs::vec::group_vec_axioms,
    vstd::seq::group_seq_axioms,
    lemma_views_of,
    lemma_views_of_index;

/// The classification of a field's type expression.
#[derive(Clone, Copy, PartialEq, Eq, Structural, Debug)]
pub enum TypeShape {
    /// An optional wrapper: `Option<...>`.
    Optional,
    /// A growable sequence wrapper: `Vec<...>`.
    Sequence,
    /// Anything else: treated as opaque.
    Plain,
}

/// Is `ty` a path of exactly one segment whose name is `outer`, carrying
/// angle-bracketed generic arguments of any arity?
pub open spec fn spec_classify(ty: Seq<TokenView>, outer: Seq<char>) -> bool {
    &&& ty.len() >= 3
    &&& ty[0] matches TokenView::Ident { text, .. } && text == outer
    &&& ty[1] matches TokenView::Punct { ch: '<', .. }
    &&& ty.last() matches TokenView::Punct { ch: '>', .. }
}

/// Executable mirror of `spec_classify`.
pub fn classify(ty: &Vec<Token>, outer: &str) -> (r: bool)
    ensures
        r == spec_classify(views_of(ty@), outer@),
{
    if ty.len() < 3 {
        return false;
    }
    let head = match &ty[0] {
        Token::Ident { text, .. } => text_is(text, outer),
        _ => false,
    };
    let open_ok = match &ty[1] {
        Token::Punct { ch, .. } => *ch == '<',
        _ => false,
    };
    let close_ok = match &ty[ty.len() - 1] {
        Token::Punct { ch, .. } => *ch == '>',
        _ => false,
    };
    head && open_ok && close_ok
}

/// The shape of a type expression: `Option<...>`, `Vec<...>`, or plain.
pub open spec fn spec_shape_of(ty: Seq<TokenView>) -> TypeShape {
    if spec_classify(ty, "Option"@) {
        TypeShape::Optional
    } else if spec_classify(ty, "Vec"@) {
        TypeShape::Sequence
    } else {
        TypeShape::Plain
    }
}

/// Executable mirror of `spec_shape_of`.
pub fn shape_of(ty: &Vec<Token>) -> (s: TypeShape)
    ensures
        s == spec_shape_of(views_of(ty@)),
{
    if classify(ty, "Option") {
        TypeShape::Optional
    } else if classify(ty, "Vec") {
        TypeShape::Sequence
    } else {
        TypeShape::Plain
    }
}

/// Is there a comma at angle-bracket depth zero at or after `k`?
pub open spec fn has_top_comma(ts: Seq<TokenView>, k: int, depth: int) -> bool
    decreases ts.len() - k,
{
    if !(0 <= k < ts.len()) {
        false
    } else if ts[k] matches TokenView::Punct { ch: ',', .. } && depth == 0 {
        true
    } else if ts[k] matches TokenView::Punct { ch: '<', .. } {
        has_top_comma(ts, k + 1, depth + 1)
    } else if ts[k] matches TokenView::Punct { ch: '>', .. } {
        has_top_comma(ts, k + 1, if depth > 0 {
            depth - 1
        } else {
            0
        })
    } else {
        has_top_comma(ts, k + 1, depth)
    }
}

/// The argument list of a classified wrapper: everything between the
/// angle brackets.
pub open spec fn spec_inner_of(ty: Seq<TokenView>) -> Seq<TokenView> {
    ty.subrange(2, ty.len() - 1)
}

/// Does a classified wrapper carry exactly one type argument: a non-empty
/// argument list with no comma at its top level?
pub open spec fn spec_arity_one(ty: Seq<TokenView>) -> bool {
    &&& spec_inner_of(ty).len() > 0
    &&& !has_top_comma(spec_inner_of(ty), 0, 0)
}

/// Extracts the single inner type expression of a wrapper already found
/// by the classifier; a wrapper with any other number of arguments is the
/// arity error, pointing at the wrapper's head.
#[verifier::loop_isolation(false)]
pub fn unwrap_inner(ty: &Vec<Token>) -> (r: Result<Vec<Token>, Error>)
    requires
        views_of(ty@).len() >= 3,
    ensures
        match r {
            Ok(inner) => spec_arity_one(views_of(ty@)) && views_of(inner@) == spec_inner_of(
                views_of(ty@),
            ),
            Err(e) => !spec_arity_one(views_of(ty@)) && e == (Error::TypeShapeError {
                span: span_of(views_of(ty@)[0]),
            }),
        },
{
    let ghost vs = views_of(ty@);
    let err_span = token_span(&ty[0]);
    if ty.len() == 3 {
        proof {
            assert(spec_inner_of(vs).len() == 0);
        }
        return Err(Error::TypeShapeError { span: err_span });
    }
    let mut inner: Vec<Token> = Vec::new();
    let mut k: usize = 2;
    let mut depth: u64 = 0;
    let end = ty.len() - 1;
    while k < end
        invariant
            2 <= k <= end,
            views_of(inner@) == spec_inner_of(vs).take(k - 2),
            has_top_comma(spec_inner_of(vs), 0, 0) == has_top_comma(
                spec_inner_of(vs),
                k - 2,
                depth as int,
            ),
            depth <= k,
        decreases end - k,
    {
        let ghost pos = k - 2 as int;
        let ghost iv = spec_inner_of(vs);
        proof {
            assert(iv[pos] == vs[k as int]);
        }
        match &ty[k] {
            Token::Punct { ch, .. } => {
                if *ch == ',' && depth == 0 {
                    return Err(Error::TypeShapeError { span: err_span });
                }
                if *ch == '<' {
                    depth = depth + 1;
                } else if *ch == '>' {
                    if depth > 0 {
                        depth = depth - 1;
                    }
                }
            },
            _ => {},
        }
        inner.push(clone_token(&ty[k]));
        k = k + 1;
        proof {
            assert(views_of(inner@) =~= iv.take(k - 2 as int));
        }
    }
    proof {
        assert(spec_inner_of(vs).take(end - 2 as int) =~= spec_inner_of(vs));
        assert(!has_top_comma(spec_inner_of(vs), end - 2 as int, depth as int));
    }
    Ok(inner)
}

} // verus!
