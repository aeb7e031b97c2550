//! Struct descriptors: the parsed form of a record definition — the type
//! name and an ordered list of fields, each with its name, its type
//! expression (a token sequence) and its leading annotation groups,
//! collected verbatim and left unparsed until code generation.

use vstd::prelude::*;
use crate::error::Error;
use crate::token::{
    clone_token, lemma_views_of, lemma_views_of_index, lemma_views_of_push,
    span_at, span_of, spec_span_at, text_eq, token_span, views_of, Delimiter, Span, Token,
    TokenView,
};

verus! {

broadcast use
    vstd::std_specs::vec::group_vec_axioms,
    vstd::seq::group_seq_axioms,
    lemma_views_of,
    lemma_views_of_index,
    lemma_views_of_push;

/// One field of a record: name, type expression, annotations.
pub struct FieldDescriptor {
    pub name: String,
    pub name_span: Span,
    pub ty: Vec<Token>,
    pub attrs: Vec<Token>,
}

/// The model of a field.
pub struct FieldView {
    pub name: Seq<char>,
    pub name_span: Span,
    pub ty: Seq<TokenView>,
    pub attrs: Seq<TokenView>,
}

impl View for FieldDescriptor {
    type V = FieldView;

    open spec fn view(&self) -> FieldView {
        FieldView {
            name: self.name@,
            name_span: self.name_span,
            ty: views_of(self.ty@),
            attrs: views_of(self.attrs@),
        }
    }
}

/// The models of a field list, in order.
pub open spec fn field_views(fs: Seq<FieldDescriptor>) -> Seq<FieldView> {
    Seq::new(fs.len(), |i: int| fs[i]@)
}

/// A parsed record definition.
pub struct StructDescriptor {
    pub name: String,
    pub name_span: Span,
    pub fields: Vec<FieldDescriptor>,
}

/// The model of a record definition.
pub struct StructView {
    pub name: Seq<char>,
    pub name_span: Span,
    pub fields: Seq<FieldView>,
}

impl View for StructDescriptor {
    type V = StructView;

    open spec fn view(&self) -> StructView {
        StructView {
            name: self.name@,
            name_span: self.name_span,
            fields: field_views(self.fields@),
        }
    }
}

/// No field name repeats.
pub open spec fn distinct_names(fs: Seq<FieldView>) -> bool {
    forall|i: int, j: int| 0 <= i < j < fs.len() ==> fs[i].name != fs[j].name
}

/// The first position at or after `i` whose field name already occurred
/// before it: the repeated name the parser reports.
pub open spec fn dup_index(fs: Seq<FieldView>, i: int) -> Option<int>
    decreases fs.len() - i,
{
    if !(0 <= i < fs.len()) {
        None
    } else if exists|j: int| 0 <= j < i && fs[j].name == fs[i].name {
        Some(i)
    } else {
        dup_index(fs, i + 1)
    }
}

/// The outcome of parsing a field list.
pub enum FieldsParse {
    FieldsOk { fields: Seq<FieldView> },
    FieldsFail { span: Span },
}

/// Where the type expression that starts at `k` ends: at the first comma
/// at angle-bracket depth zero, or at the end of the list.
pub open spec fn ty_end(ts: Seq<TokenView>, k: int, depth: int) -> int
    decreases ts.len() - k,
{
    if !(0 <= k < ts.len()) {
        ts.len() as int
    } else if ts[k] matches TokenView::Punct { ch: ',', .. } && depth == 0 {
        k
    } else if ts[k] matches TokenView::Punct { ch: '<', .. } {
        ty_end(ts, k + 1, depth + 1)
    } else if ts[k] matches TokenView::Punct { ch: '>', .. } {
        ty_end(ts, k + 1, if depth > 0 {
            depth - 1
        } else {
            0
        })
    } else {
        ty_end(ts, k + 1, depth)
    }
}

/// `ty_end` stays within the list.
proof fn lemma_ty_end_bounds(ts: Seq<TokenView>, k: int, depth: int)
    requires
        0 <= k <= ts.len(),
    ensures
        k <= ty_end(ts, k, depth) <= ts.len(),
    decreases ts.len() - k,
{
    if k < ts.len() {
        lemma_ty_end_bounds(ts, k + 1, depth + 1);
        lemma_ty_end_bounds(ts, k + 1, if depth > 0 {
            depth - 1
        } else {
            0
        });
        lemma_ty_end_bounds(ts, k + 1, depth);
    }
}

/// The grammar of a field list: zero or more annotation pairs
/// `'#' [..]`, then `IDENT ':' TYPE`, the type running to the next comma
/// at angle depth zero, fields separated by commas, a trailing comma
/// allowed. `pending` carries the annotation groups collected so far for
/// the next field.
pub open spec fn spec_parse_fields(
    ts: Seq<TokenView>,
    k: int,
    pending: Seq<TokenView>,
) -> FieldsParse
    decreases ts.len() - k,
    via spec_parse_fields_dec
{
    if k < 0 {
        FieldsParse::FieldsFail { span: Span { pos: 0 } }
    } else if k >= ts.len() {
        if pending.len() == 0 {
            FieldsParse::FieldsOk { fields: Seq::empty() }
        } else {
            FieldsParse::FieldsFail { span: spec_span_at(ts, k) }
        }
    } else if k + 1 < ts.len() && (ts[k] matches TokenView::Punct { ch: '#', .. }) && (ts[k + 1]
        matches TokenView::Group { delim: Delimiter::Bracket, .. }) {
        spec_parse_fields(ts, k + 2, pending.push(ts[k + 1]))
    } else if !(ts[k] matches TokenView::Ident { .. }) {
        FieldsParse::FieldsFail { span: span_of(ts[k]) }
    } else if !(k + 1 < ts.len() && (ts[k + 1] matches TokenView::Punct { ch: ':', .. })) {
        FieldsParse::FieldsFail { span: spec_span_at(ts, k + 1) }
    } else {
        let e = ty_end(ts, k + 2, 0);
        if e == k + 2 {
            FieldsParse::FieldsFail { span: spec_span_at(ts, k + 2) }
        } else {
            let f = FieldView {
                name: ts[k]->Ident_text,
                name_span: span_of(ts[k]),
                ty: ts.subrange(k + 2, e),
                attrs: pending,
            };
            let next = if e < ts.len() {
                e + 1
            } else {
                e
            };
            match spec_parse_fields(ts, next, Seq::empty()) {
                FieldsParse::FieldsOk { fields } => FieldsParse::FieldsOk {
                    fields: seq![f] + fields,
                },
                fail => fail,
            }
        }
    }
}

#[via_fn]
proof fn spec_parse_fields_dec(ts: Seq<TokenView>, k: int, pending: Seq<TokenView>) {
    if 0 <= k && k + 1 < ts.len() {
        lemma_ty_end_bounds(ts, k + 2, 0);
    }
}

/// Prepending already-parsed fields to the outcome of the rest.
pub open spec fn prepend_fields(acc: Seq<FieldView>, r: FieldsParse) -> FieldsParse {
    match r {
        FieldsParse::FieldsOk { fields } => FieldsParse::FieldsOk { fields: acc + fields },
        fail => fail,
    }
}

/// Parses a field list; `Ok` exactly on lists that match the grammar with
/// no repeated field name.
#[verifier::loop_isolation(false)]
fn parse_fields(ts: &Vec<Token>) -> (r: Result<Vec<FieldDescriptor>, Error>)
    ensures
        match r {
            Ok(fs) => spec_parse_fields(views_of(ts@), 0, Seq::empty()) == (FieldsParse::FieldsOk {
                fields: field_views(fs@),
            }) && distinct_names(field_views(fs@)),
            Err(e) => {
                &&& e matches Error::MalformedInput { .. }
                &&& !(spec_parse_fields(views_of(ts@), 0, Seq::empty())
                    matches FieldsParse::FieldsOk { fields } && distinct_names(fields))
                &&& (spec_parse_fields(views_of(ts@), 0, Seq::empty())
                    matches FieldsParse::FieldsFail { span } ==> e == (Error::MalformedInput {
                    span,
                }))
                &&& (spec_parse_fields(views_of(ts@), 0, Seq::empty())
                    matches FieldsParse::FieldsOk { fields } ==> (dup_index(fields, 1)
                    matches Some(d) ==> e == (Error::MalformedInput {
                    span: fields[d].name_span,
                })))
            },
        },
{
    let ghost vs = views_of(ts@);
    let mut out: Vec<FieldDescriptor> = Vec::new();
    let mut pending: Vec<Token> = Vec::new();
    let mut k: usize = 0;
    proof {
        assert(field_views(out@) =~= Seq::<FieldView>::empty());
        assert(views_of(pending@) =~= Seq::<TokenView>::empty());
    }
    while k < ts.len()
        invariant
            k <= ts.len(),
            prepend_fields(field_views(out@), spec_parse_fields(vs, k as int, views_of(pending@)))
                == spec_parse_fields(vs, 0, Seq::empty()),
        decreases ts.len() - k,
    {
        let ghost k0 = k as int;
        let ghost p0 = views_of(pending@);
        let ghost acc0 = field_views(out@);
        let mut is_attr = false;
        if k + 1 < ts.len() {
            let h = match &ts[k] {
                Token::Punct { ch, .. } => *ch == '#',
                _ => false,
            };
            let g = match &ts[k + 1] {
                Token::Group { delim, .. } => *delim == Delimiter::Bracket,
                _ => false,
            };
            is_attr = h && g;
        }
        if is_attr {
            pending.push(clone_token(&ts[k + 1]));
            k = k + 2;
            proof {
                assert(views_of(pending@) =~= p0.push(vs[k0 + 1]));
            }
        } else {
            let (name, name_span) = match &ts[k] {
                Token::Ident { text, span } => (text.clone(), *span),
                _ => {
                    return Err(Error::MalformedInput { span: token_span(&ts[k]) });
                },
            };
            let mut colon_ok = false;
            if k + 1 < ts.len() {
                colon_ok = match &ts[k + 1] {
                    Token::Punct { ch, .. } => *ch == ':',
                    _ => false,
                };
            }
            if !colon_ok {
                return Err(Error::MalformedInput { span: span_at(ts, k + 1) });
            }
            let mut j: usize = k + 2;
            let mut depth: u64 = 0;
            let mut done = false;
            while !done
                invariant
                    k0 + 2 <= j <= ts.len(),
                    depth <= j,
                    !done ==> ty_end(vs, k0 + 2, 0) == ty_end(vs, j as int, depth as int),
                    done ==> ty_end(vs, k0 + 2, 0) == j as int,
                decreases ts.len() - j + (if done {
                    0int
                } else {
                    1
                }),
            {
                if j >= ts.len() {
                    done = true;
                } else {
                    let mut is_comma0 = false;
                    let mut is_open = false;
                    let mut is_close = false;
                    match &ts[j] {
                        Token::Punct { ch, .. } => {
                            is_comma0 = *ch == ',' && depth == 0;
                            is_open = *ch == '<';
                            is_close = *ch == '>';
                        },
                        _ => {},
                    }
                    if is_comma0 {
                        done = true;
                    } else {
                        if is_open {
                            depth = depth + 1;
                        } else if is_close {
                            if depth > 0 {
                                depth = depth - 1;
                            }
                        }
                        j = j + 1;
                    }
                }
            }
            let e = j;
            let ghost e0 = e as int;
            if e == k + 2 {
                return Err(Error::MalformedInput { span: span_at(ts, k + 2) });
            }
            let mut tyv: Vec<Token> = Vec::new();
            let mut m: usize = k + 2;
            proof {
                assert(views_of(tyv@) =~= vs.subrange(k0 + 2, k0 + 2));
            }
            while m < e
                invariant
                    k0 + 2 <= m <= e0,
                    views_of(tyv@) == vs.subrange(k0 + 2, m as int),
                decreases e - m,
            {
                tyv.push(clone_token(&ts[m]));
                m = m + 1;
                proof {
                    assert(views_of(tyv@) =~= vs.subrange(k0 + 2, m as int));
                }
            }
            let fd = FieldDescriptor { name, name_span, ty: tyv, attrs: pending };
            out.push(fd);
            pending = Vec::new();
            if e < ts.len() {
                k = e + 1;
            } else {
                k = e;
            }
            proof {
                let f = FieldView {
                    name: vs[k0]->Ident_text,
                    name_span: span_of(vs[k0]),
                    ty: vs.subrange(k0 + 2, e0),
                    attrs: p0,
                };
                assert(out@.last()@ == f);
                assert(field_views(out@) =~= acc0 + seq![f]);
                assert(views_of(pending@) =~= Seq::<TokenView>::empty());
                assert(spec_parse_fields(vs, k0, p0) == prepend_fields(
                    seq![f],
                    spec_parse_fields(vs, k as int, Seq::empty()),
                ));
                assert(forall|rest: Seq<FieldView>|
                    acc0 + (seq![f] + rest) =~= (acc0 + seq![f]) + rest);
            }
        }
    }
    if pending.len() > 0 {
        return Err(Error::MalformedInput { span: span_at(ts, k) });
    }
    proof {
        assert(field_views(out@) + Seq::<FieldView>::empty() =~= field_views(out@));
    }
    let n = out.len();
    if n == 0 {
        return Ok(out);
    }
    let ghost fvs_out = field_views(out@);
    let mut i: usize = 1;
    while i < n
        invariant
            1 <= i <= n,
            n == out@.len(),
            dup_index(fvs_out, 1) == dup_index(fvs_out, i as int),
            forall|a: int, b: int|
                0 <= a < b < i ==> field_views(out@)[a].name != field_views(out@)[b].name,
        decreases n - i,
    {
        let mut j2: usize = 0;
        while j2 < i
            invariant
                j2 <= i < n,
                n == out@.len(),
                forall|b: int|
                    0 <= b < j2 ==> field_views(out@)[b].name != field_views(out@)[i as int].name,
            decreases i - j2,
        {
            if text_eq(&out[j2].name, &out[i].name) {
                proof {
                    assert(fvs_out[j2 as int].name == fvs_out[i as int].name);
                    assert(dup_index(fvs_out, i as int) == Some(i as int));
                }
                let sp = out[i].name_span;
                return Err(Error::MalformedInput { span: sp });
            }
            j2 = j2 + 1;
        }
        i = i + 1;
        proof {
            assert(!(exists|j: int|
                0 <= j < i - 1 && (#[trigger] fvs_out[j]).name == fvs_out[i - 1].name));
        }
    }
    Ok(out)
}

/// The outcome of parsing a record definition.
pub enum StructParse {
    StructOk { sd: StructView },
    StructFail { span: Span },
}

/// The grammar of a record definition: an identifier for the name and a
/// brace-delimited field list.
pub open spec fn spec_parse_struct(name: TokenView, body: TokenView) -> StructParse {
    if !(name matches TokenView::Ident { .. }) {
        StructParse::StructFail { span: span_of(name) }
    } else if !(body matches TokenView::Group { delim: Delimiter::Brace, .. }) {
        StructParse::StructFail { span: span_of(body) }
    } else {
        match spec_parse_fields(body->Group_tokens, 0, Seq::empty()) {
            FieldsParse::FieldsOk { fields } => StructParse::StructOk {
                sd: StructView { name: name->Ident_text, name_span: span_of(name), fields },
            },
            FieldsParse::FieldsFail { span } => StructParse::StructFail { span },
        }
    }
}

/// Parses a record definition into a descriptor; `Ok` exactly on
/// definitions that match the grammar with no repeated field name, `Err`
/// carrying the most specific position available.
pub fn parse_struct(name: &Token, body: &Token) -> (r: Result<StructDescriptor, Error>)
    ensures
        match r {
            Ok(sd) => spec_parse_struct(name@, body@) == (StructParse::StructOk { sd: sd@ })
                && distinct_names(sd@.fields),
            Err(e) => {
                &&& e matches Error::MalformedInput { .. }
                &&& !(spec_parse_struct(name@, body@) matches StructParse::StructOk { sd }
                    && distinct_names(sd.fields))
                &&& (spec_parse_struct(name@, body@) matches StructParse::StructFail { span }
                    ==> e == (Error::MalformedInput { span }))
                &&& (spec_parse_struct(name@, body@) matches StructParse::StructOk { sd }
                    ==> (dup_index(sd.fields, 1) matches Some(d) ==> e == (Error::MalformedInput {
                    span: sd.fields[d].name_span,
                })))
            },
        },
{
    let (n_text, n_span) = match name {
        Token::Ident { text, span } => (text.clone(), *span),
        _ => {
            return Err(Error::MalformedInput { span: token_span(name) });
        },
    };
    if let Token::Group { delim, tokens, span } = body {
        if *delim == Delimiter::Brace {
            return match parse_fields(tokens) {
                Ok(fields) => Ok(StructDescriptor { name: n_text, name_span: n_span, fields }),
                Err(e) => Err(e),
            };
        }
    }
    Err(Error::MalformedInput { span: token_span(body) })
}

} // verus!
