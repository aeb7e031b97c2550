//! The builder code generator: from a struct descriptor it synthesizes
//! the companion builder type (one optional-or-own-typed slot per field),
//! one mutation operation per field (with the `each` override and its
//! collision rule), the finalize operation `build`, and the static
//! `builder` constructor on the record type. The exact token output is
//! stated by the `*_tokens` specification functions below.

use vstd::prelude::*;
use vstd::string::*;
use crate::attr::{each_of, spec_each_of, EachParse};
use crate::descriptor::{
    distinct_names, field_views, parse_struct, spec_parse_struct, FieldDescriptor, FieldView,
    StructDescriptor, StructParse, StructView,
};
use crate::error::Error;
use crate::shape::{
    shape_of, spec_arity_one, spec_inner_of, spec_shape_of, unwrap_inner, TypeShape,
};
use crate::token::{
    clone_tokens, lemma_views_of, lemma_views_of_concat, lemma_views_of_index,
    lemma_views_of_push, span_at, span_of, spec_span_at, text_eq, views_of, Delimiter, Spacing,
    Span, Token, TokenView,
};

verus! {

broadcast use
    vstd::std_specs::vec::group_vec_axioms,
    vstd::seq::group_seq_axioms,
    lemma_views_of,
    lemma_views_of_index,
    lemma_views_of_push,
    lemma_views_of_concat;

/// A synthesized identifier.
pub open spec fn gi(text: Seq<char>, sp: Span) -> TokenView {
    TokenView::Ident { text, span: sp }
}

/// A synthesized punctuation character, alone.
pub open spec fn gp(ch: char, sp: Span) -> TokenView {
    TokenView::Punct { ch, spacing: Spacing::Alone, span: sp }
}

/// A synthesized punctuation character, joined to the next.
pub open spec fn gj(ch: char, sp: Span) -> TokenView {
    TokenView::Punct { ch, spacing: Spacing::Joint, span: sp }
}

/// A synthesized group.
pub open spec fn gg(delim: Delimiter, ts: Seq<TokenView>, sp: Span) -> TokenView {
    TokenView::Group { delim, tokens: ts, span: sp }
}

/// The name of the companion builder type.
pub open spec fn builder_name(sd: StructView) -> Seq<char> {
    sd.name + "Builder"@
}

/// The slot type of a field: its own type for optional- and
/// sequence-shaped fields (no double wrapping), an optional wrapper
/// around the declared type otherwise.
pub open spec fn slot_ty(f: FieldView) -> Seq<TokenView> {
    match spec_shape_of(f.ty) {
        TypeShape::Plain => seq![gi("Option"@, f.name_span), gp('<', f.name_span)] + f.ty + seq![
            gp('>', f.name_span),
        ],
        _ => f.ty,
    }
}

/// One slot declaration: `name : slot-type ,`.
pub open spec fn slot_decl(f: FieldView) -> Seq<TokenView> {
    seq![gi(f.name, f.name_span), gp(':', f.name_span)] + slot_ty(f) + seq![
        gp(',', f.name_span),
    ]
}

/// All slot declarations, in field order.
pub open spec fn slot_decls(fs: Seq<FieldView>) -> Seq<TokenView>
    decreases fs.len(),
{
    if fs.len() == 0 {
        Seq::empty()
    } else {
        slot_decl(fs[0]) + slot_decls(fs.drop_first())
    }
}

/// The quoted form of a text.
pub open spec fn quoted(s: Seq<char>) -> Seq<char> {
    seq!['"'] + s + seq!['"']
}

/// The message of the missing-field error for a field.
pub open spec fn not_set_msg(name: Seq<char>) -> Seq<char> {
    quoted(name + " is not set"@)
}

/// The initializer of a slot: an empty sequence for sequence-shaped
/// fields, the empty optional for every other slot.
pub open spec fn init_value(f: FieldView) -> Seq<TokenView> {
    let fsp = f.name_span;
    if spec_shape_of(f.ty) == TypeShape::Sequence {
        seq![gi("Vec"@, fsp), gj(':', fsp), gp(':', fsp), gi("new"@, fsp), gg(
            Delimiter::Paren,
            Seq::empty(),
            fsp,
        )]
    } else {
        seq![gi("None"@, fsp)]
    }
}

/// One initializer entry: `name : init ,`.
pub open spec fn init_entry(f: FieldView) -> Seq<TokenView> {
    seq![gi(f.name, f.name_span), gp(':', f.name_span)] + init_value(f) + seq![
        gp(',', f.name_span),
    ]
}

/// All initializer entries, in field order.
pub open spec fn init_entries(fs: Seq<FieldView>) -> Seq<TokenView>
    decreases fs.len(),
{
    if fs.len() == 0 {
        Seq::empty()
    } else {
        init_entry(fs[0]) + init_entries(fs.drop_first())
    }
}

/// The value `build` takes from a slot: a clone, and for a plain field
/// the clone is demanded with `ok_or` naming the field, so the first
/// unset plain field in declaration order decides the error.
pub open spec fn build_value(f: FieldView) -> Seq<TokenView> {
    let fsp = f.name_span;
    let base = seq![gi("self"@, fsp), gp('.', fsp), gi(f.name, fsp), gp('.', fsp), gi(
        "clone"@,
        fsp,
    ), gg(Delimiter::Paren, Seq::empty(), fsp)];
    if spec_shape_of(f.ty) == TypeShape::Plain {
        base + seq![gp('.', fsp), gi("ok_or"@, fsp), gg(
            Delimiter::Paren,
            seq![TokenView::Lit { text: not_set_msg(f.name), span: fsp }],
            fsp,
        ), gp('?', fsp)]
    } else {
        base
    }
}

/// One entry of the built entity: `name : value ,`.
pub open spec fn build_entry(f: FieldView) -> Seq<TokenView> {
    seq![gi(f.name, f.name_span), gp(':', f.name_span)] + build_value(f) + seq![
        gp(',', f.name_span),
    ]
}

/// All entries of the built entity, in field order.
pub open spec fn build_entries(fs: Seq<FieldView>) -> Seq<TokenView>
    decreases fs.len(),
{
    if fs.len() == 0 {
        Seq::empty()
    } else {
        build_entry(fs[0]) + build_entries(fs.drop_first())
    }
}

/// A freshly spelled identifier token.
fn ident_str(s: &str, sp: Span) -> (t: Token)
    ensures
        t@ == gi(s@, sp),
{
    Token::Ident { text: String::from_str(s), span: sp }
}

/// An identifier token carrying the given text.
fn ident_string(s: String, sp: Span) -> (t: Token)
    ensures
        t@ == gi(s@, sp),
{
    Token::Ident { text: s, span: sp }
}

/// A lone punctuation token.
fn punct_a(ch: char, sp: Span) -> (t: Token)
    ensures
        t@ == gp(ch, sp),
{
    Token::Punct { ch, spacing: Spacing::Alone, span: sp }
}

/// A joined punctuation token.
fn punct_j(ch: char, sp: Span) -> (t: Token)
    ensures
        t@ == gj(ch, sp),
{
    Token::Punct { ch, spacing: Spacing::Joint, span: sp }
}

/// Appends a piece to the output being assembled.
fn push_all(out: &mut Vec<Token>, piece: Vec<Token>)
    ensures
        views_of(final(out)@) == views_of(old(out)@) + views_of(piece@),
{
    let mut piece = piece;
    let ghost pre = views_of(old(out)@);
    let ghost pv = views_of(piece@);
    out.append(&mut piece);
    proof {
        assert(views_of(out@) == pre + pv);
    }
}

/// The slot type tokens of one field.
fn slot_ty_tokens(f: &FieldDescriptor) -> (out: Vec<Token>)
    ensures
        views_of(out@) == slot_ty(f@),
{
    let s = shape_of(&f.ty);
    match s {
        TypeShape::Plain => {
            let mut out: Vec<Token> = Vec::new();
            out.push(ident_str("Option", f.name_span));
            out.push(punct_a('<', f.name_span));
            push_all(&mut out, clone_tokens(&f.ty));
            out.push(punct_a('>', f.name_span));
            proof {
                assert(views_of(out@) =~= slot_ty(f@));
            }
            out
        },
        _ => {
            let out = clone_tokens(&f.ty);
            out
        },
    }
}

/// The slot declaration tokens of one field.
fn slot_decl_tokens(f: &FieldDescriptor) -> (out: Vec<Token>)
    ensures
        views_of(out@) == slot_decl(f@),
{
    let mut out: Vec<Token> = Vec::new();
    out.push(ident_string(f.name.clone(), f.name_span));
    out.push(punct_a(':', f.name_span));
    push_all(&mut out, slot_ty_tokens(f));
    out.push(punct_a(',', f.name_span));
    proof {
        assert(views_of(out@) =~= slot_decl(f@));
    }
    out
}

/// The slot declarations of all fields, in order.
#[verifier::loop_isolation(false)]
fn slot_decls_tokens(fs: &Vec<FieldDescriptor>) -> (out: Vec<Token>)
    ensures
        views_of(out@) == slot_decls(field_views(fs@)),
{
    let ghost fvs = field_views(fs@);
    let mut out: Vec<Token> = Vec::new();
    let mut i: usize = 0;
    proof {
        assert(views_of(out@) =~= Seq::<TokenView>::empty());
        assert(fvs.skip(0) =~= fvs);
        assert(Seq::<TokenView>::empty() + slot_decls(fvs) =~= slot_decls(fvs));
    }
    while i < fs.len()
        invariant
            i <= fs.len(),
            slot_decls(fvs) == views_of(out@) + slot_decls(fvs.skip(i as int)),
        decreases fs.len() - i,
    {
        let ghost pre = views_of(out@);
        push_all(&mut out, slot_decl_tokens(&fs[i]));
        i = i + 1;
        proof {
            assert(fvs.skip(i - 1) =~= seq![fvs[i - 1]] + fvs.skip(i as int));
            assert(fvs.skip(i - 1).drop_first() =~= fvs.skip(i as int));
            assert(slot_decls(fvs.skip(i - 1)) == slot_decl(fvs[i - 1]) + slot_decls(
                fvs.skip(i as int),
            ));
            assert(pre + (slot_decl(fvs[i - 1]) + slot_decls(fvs.skip(i as int))) =~= (pre
                + slot_decl(fvs[i - 1])) + slot_decls(fvs.skip(i as int)));
        }
    }
    proof {
        assert(fvs.skip(fs@.len() as int) =~= Seq::<FieldView>::empty());
        assert(views_of(out@) + Seq::<TokenView>::empty() =~= views_of(out@));
    }
    out
}

/// The missing-field message literal of one field.
fn not_set_lit(name: &String, fsp: Span) -> (t: Token)
    ensures
        t@ == (TokenView::Lit { text: not_set_msg(name@), span: fsp }),
{
    let mut msg = String::from_str("\"");
    msg.append(name);
    msg.append(" is not set\"");
    proof {
        reveal_strlit("\"");
        reveal_strlit(" is not set\"");
        reveal_strlit(" is not set");
        assert(msg@ =~= not_set_msg(name@));
    }
    Token::Lit { text: msg, span: fsp }
}

/// The initializer tokens of one slot.
fn init_value_tokens(f: &FieldDescriptor) -> (out: Vec<Token>)
    ensures
        views_of(out@) == init_value(f@),
{
    let fsp = f.name_span;
    let mut out: Vec<Token> = Vec::new();
    let s = shape_of(&f.ty);
    if s == TypeShape::Sequence {
        out.push(ident_str("Vec", fsp));
        out.push(punct_j(':', fsp));
        out.push(punct_a(':', fsp));
        out.push(ident_str("new", fsp));
        out.push(Token::Group { delim: Delimiter::Paren, tokens: Vec::new(), span: fsp });
    } else {
        out.push(ident_str("None", fsp));
    }
    proof {
        assert(views_of(Seq::<Token>::empty()) =~= Seq::<TokenView>::empty());
        assert(views_of(out@) =~= init_value(f@));
    }
    out
}

/// One initializer entry of the builder constructor.
fn init_entry_tokens(f: &FieldDescriptor) -> (out: Vec<Token>)
    ensures
        views_of(out@) == init_entry(f@),
{
    let mut out: Vec<Token> = Vec::new();
    out.push(ident_string(f.name.clone(), f.name_span));
    out.push(punct_a(':', f.name_span));
    push_all(&mut out, init_value_tokens(f));
    out.push(punct_a(',', f.name_span));
    proof {
        assert(views_of(out@) =~= init_entry(f@));
    }
    out
}

/// All initializer entries, in field order.
#[verifier::loop_isolation(false)]
fn init_entries_tokens(fs: &Vec<FieldDescriptor>) -> (out: Vec<Token>)
    ensures
        views_of(out@) == init_entries(field_views(fs@)),
{
    let ghost fvs = field_views(fs@);
    let mut out: Vec<Token> = Vec::new();
    let mut i: usize = 0;
    proof {
        assert(views_of(out@) =~= Seq::<TokenView>::empty());
        assert(fvs.skip(0) =~= fvs);
        assert(Seq::<TokenView>::empty() + init_entries(fvs) =~= init_entries(fvs));
    }
    while i < fs.len()
        invariant
            i <= fs.len(),
            init_entries(fvs) == views_of(out@) + init_entries(fvs.skip(i as int)),
        decreases fs.len() - i,
    {
        let ghost pre = views_of(out@);
        push_all(&mut out, init_entry_tokens(&fs[i]));
        i = i + 1;
        proof {
            assert(fvs.skip(i - 1).drop_first() =~= fvs.skip(i as int));
            assert(init_entries(fvs.skip(i - 1)) == init_entry(fvs[i - 1]) + init_entries(
                fvs.skip(i as int),
            ));
            assert(pre + (init_entry(fvs[i - 1]) + init_entries(fvs.skip(i as int))) =~= (pre
                + init_entry(fvs[i - 1])) + init_entries(fvs.skip(i as int)));
        }
    }
    proof {
        assert(fvs.skip(fs@.len() as int) =~= Seq::<FieldView>::empty());
        assert(views_of(out@) + Seq::<TokenView>::empty() =~= views_of(out@));
    }
    out
}

/// The value tokens `build` reads out of one slot.
fn build_value_tokens(f: &FieldDescriptor) -> (out: Vec<Token>)
    ensures
        views_of(out@) == build_value(f@),
{
    let fsp = f.name_span;
    let mut out: Vec<Token> = Vec::new();
    out.push(ident_str("self", fsp));
    out.push(punct_a('.', fsp));
    out.push(ident_string(f.name.clone(), fsp));
    out.push(punct_a('.', fsp));
    out.push(ident_str("clone", fsp));
    out.push(Token::Group { delim: Delimiter::Paren, tokens: Vec::new(), span: fsp });
    let s = shape_of(&f.ty);
    if s == TypeShape::Plain {
        out.push(punct_a('.', fsp));
        out.push(ident_str("ok_or", fsp));
        let mut msg_arg: Vec<Token> = Vec::new();
        msg_arg.push(not_set_lit(&f.name, fsp));
        proof {
            assert(views_of(msg_arg@) =~= seq![
                TokenView::Lit { text: not_set_msg(f@.name), span: fsp },
            ]);
        }
        out.push(Token::Group { delim: Delimiter::Paren, tokens: msg_arg, span: fsp });
        out.push(punct_a('?', fsp));
    }
    proof {
        assert(views_of(Seq::<Token>::empty()) =~= Seq::<TokenView>::empty());
        assert(views_of(out@) =~= build_value(f@));
    }
    out
}

/// One entry of the built entity.
fn build_entry_tokens(f: &FieldDescriptor) -> (out: Vec<Token>)
    ensures
        views_of(out@) == build_entry(f@),
{
    let mut out: Vec<Token> = Vec::new();
    out.push(ident_string(f.name.clone(), f.name_span));
    out.push(punct_a(':', f.name_span));
    push_all(&mut out, build_value_tokens(f));
    out.push(punct_a(',', f.name_span));
    proof {
        assert(views_of(out@) =~= build_entry(f@));
    }
    out
}

/// All entries of the built entity, in field order.
#[verifier::loop_isolation(false)]
fn build_entries_tokens(fs: &Vec<FieldDescriptor>) -> (out: Vec<Token>)
    ensures
        views_of(out@) == build_entries(field_views(fs@)),
{
    let ghost fvs = field_views(fs@);
    let mut out: Vec<Token> = Vec::new();
    let mut i: usize = 0;
    proof {
        assert(views_of(out@) =~= Seq::<TokenView>::empty());
        assert(fvs.skip(0) =~= fvs);
        assert(Seq::<TokenView>::empty() + build_entries(fvs) =~= build_entries(fvs));
    }
    while i < fs.len()
        invariant
            i <= fs.len(),
            build_entries(fvs) == views_of(out@) + build_entries(fvs.skip(i as int)),
        decreases fs.len() - i,
    {
        let ghost pre = views_of(out@);
        push_all(&mut out, build_entry_tokens(&fs[i]));
        i = i + 1;
        proof {
            assert(fvs.skip(i - 1).drop_first() =~= fvs.skip(i as int));
            assert(build_entries(fvs.skip(i - 1)) == build_entry(fvs[i - 1]) + build_entries(
                fvs.skip(i as int),
            ));
            assert(pre + (build_entry(fvs[i - 1]) + build_entries(fvs.skip(i as int))) =~= (pre
                + build_entry(fvs[i - 1])) + build_entries(fvs.skip(i as int)));
        }
    }
    proof {
        assert(fvs.skip(fs@.len() as int) =~= Seq::<FieldView>::empty());
        assert(views_of(out@) + Seq::<TokenView>::empty() =~= views_of(out@));
    }
    out
}

/// What generation decides for one field.
pub enum FieldPlan {
    /// A plain field: setter over the declared type, storing `Some`.
    SetterPlain,
    /// An optional field: setter over the inner type, storing `Some`.
    SetterInner { inner: Vec<Token> },
    /// A sequence field without an override: full-replace setter.
    Replace,
    /// A sequence field whose override name differs from its own: both
    /// the full-replace setter and the append operation.
    Both { op: String, op_span: Span, elem: Vec<Token> },
    /// The collision rule: the override name equals the field's own, so
    /// only the append operation is emitted.
    AppendOnly { op: String, op_span: Span, elem: Vec<Token> },
}

/// The model of a field plan.
pub enum PlanView {
    SetterPlainV,
    SetterInnerV { inner: Seq<TokenView> },
    ReplaceV,
    BothV { op: Seq<char>, op_span: Span, elem: Seq<TokenView> },
    AppendOnlyV { op: Seq<char>, op_span: Span, elem: Seq<TokenView> },
}

/// The model of a plan value.
pub open spec fn plan_view(p: FieldPlan) -> PlanView {
    match p {
        FieldPlan::SetterPlain => PlanView::SetterPlainV,
        FieldPlan::SetterInner { inner } => PlanView::SetterInnerV { inner: views_of(inner@) },
        FieldPlan::Replace => PlanView::ReplaceV,
        FieldPlan::Both { op, op_span, elem } => PlanView::BothV {
            op: op@,
            op_span,
            elem: views_of(elem@),
        },
        FieldPlan::AppendOnly { op, op_span, elem } => PlanView::AppendOnlyV {
            op: op@,
            op_span,
            elem: views_of(elem@),
        },
    }
}

/// The outcome of planning one field.
pub enum PlanResult {
    PlanOk { p: PlanView },
    PlanErr { e: Error },
}

/// The decision for one field: resolve its annotation, classify its
/// type, apply the collision rule; an override demands a sequence-shaped
/// field of arity one, and an optional-shaped field must have arity one
/// for its setter's parameter type.
pub open spec fn spec_plan(f: FieldView) -> PlanResult {
    match spec_each_of(f.attrs) {
        EachParse::EachFail { span } => PlanResult::PlanErr {
            e: Error::AttributeSyntaxError { span },
        },
        EachParse::EachSome { op, op_span } => if spec_shape_of(f.ty) != TypeShape::Sequence {
            PlanResult::PlanErr { e: Error::TypeShapeError { span: spec_span_at(f.ty, 0) } }
        } else if !spec_arity_one(f.ty) {
            PlanResult::PlanErr { e: Error::TypeShapeError { span: span_of(f.ty[0]) } }
        } else if op == f.name {
            PlanResult::PlanOk {
                p: PlanView::AppendOnlyV { op, op_span, elem: spec_inner_of(f.ty) },
            }
        } else {
            PlanResult::PlanOk { p: PlanView::BothV { op, op_span, elem: spec_inner_of(f.ty) } }
        },
        EachParse::EachNone => match spec_shape_of(f.ty) {
            TypeShape::Plain => PlanResult::PlanOk { p: PlanView::SetterPlainV },
            TypeShape::Sequence => PlanResult::PlanOk { p: PlanView::ReplaceV },
            TypeShape::Optional => if !spec_arity_one(f.ty) {
                PlanResult::PlanErr { e: Error::TypeShapeError { span: span_of(f.ty[0]) } }
            } else {
                PlanResult::PlanOk { p: PlanView::SetterInnerV { inner: spec_inner_of(f.ty) } }
            },
        },
    }
}

/// The executable mirror of `spec_plan`.
fn plan_of(f: &FieldDescriptor) -> (r: Result<FieldPlan, Error>)
    ensures
        match r {
            Ok(p) => spec_plan(f@) == (PlanResult::PlanOk { p: plan_view(p) }),
            Err(e) => spec_plan(f@) == (PlanResult::PlanErr { e }),
        },
{
    match each_of(&f.attrs) {
        Err(e) => Err(e),
        Ok(Some(p)) => {
            let (op, op_span) = p;
            let s = shape_of(&f.ty);
            if s != TypeShape::Sequence {
                Err(Error::TypeShapeError { span: span_at(&f.ty, 0) })
            } else {
                match unwrap_inner(&f.ty) {
                    Err(e) => Err(e),
                    Ok(elem) => if text_eq(&op, &f.name) {
                        Ok(FieldPlan::AppendOnly { op, op_span, elem })
                    } else {
                        Ok(FieldPlan::Both { op, op_span, elem })
                    },
                }
            }
        },
        Ok(None) => {
            let s = shape_of(&f.ty);
            match s {
                TypeShape::Plain => Ok(FieldPlan::SetterPlain),
                TypeShape::Sequence => Ok(FieldPlan::Replace),
                TypeShape::Optional => match unwrap_inner(&f.ty) {
                    Err(e) => Err(e),
                    Ok(inner) => Ok(FieldPlan::SetterInner { inner }),
                },
            }
        },
    }
}

/// The body that stores `Some` of the argument.
pub open spec fn body_store_some(fname: Seq<char>, m: Seq<char>, msp: Span, fsp: Span) -> Seq<
    TokenView,
> {
    seq![gi("self"@, fsp), gp('.', fsp), gi(fname, fsp), gp('=', fsp), gi("Some"@, fsp), gg(
        Delimiter::Paren,
        seq![gi(m, msp)],
        fsp,
    ), gp(';', fsp), gi("self"@, fsp)]
}

/// The body that replaces the slot with the argument.
pub open spec fn body_replace(fname: Seq<char>, m: Seq<char>, msp: Span, fsp: Span) -> Seq<
    TokenView,
> {
    seq![gi("self"@, fsp), gp('.', fsp), gi(fname, fsp), gp('=', fsp), gi(m, msp), gp(';', fsp),
        gi("self"@, fsp)]
}

/// The body that pushes the argument onto the slot.
pub open spec fn body_push(fname: Seq<char>, m: Seq<char>, msp: Span, fsp: Span) -> Seq<
    TokenView,
> {
    seq![gi("self"@, fsp), gp('.', fsp), gi(fname, fsp), gp('.', fsp), gi("push"@, fsp), gg(
        Delimiter::Paren,
        seq![gi(m, msp)],
        fsp,
    ), gp(';', fsp), gi("self"@, fsp)]
}

/// One chainable method:
/// `pub fn M (& mut self , M : PARAM) -> & mut Self { BODY }`.
pub open spec fn method_tokens(
    m: Seq<char>,
    msp: Span,
    param_ty: Seq<TokenView>,
    body: Seq<TokenView>,
    fsp: Span,
) -> Seq<TokenView> {
    seq![gi("pub"@, fsp), gi("fn"@, fsp), gi(m, msp), gg(
        Delimiter::Paren,
        seq![gp('&', fsp), gi("mut"@, fsp), gi("self"@, fsp), gp(',', fsp), gi(m, msp), gp(
            ':',
            fsp,
        )] + param_ty,
        fsp,
    ), gj('-', fsp), gp('>', fsp), gp('&', fsp), gi("mut"@, fsp), gi("Self"@, fsp), gg(
        Delimiter::Brace,
        body,
        fsp,
    )]
}

/// The methods of one field, by its plan.
pub open spec fn methods_of(f: FieldView, p: PlanView) -> Seq<TokenView> {
    let fsp = f.name_span;
    match p {
        PlanView::SetterPlainV => method_tokens(
            f.name,
            fsp,
            f.ty,
            body_store_some(f.name, f.name, fsp, fsp),
            fsp,
        ),
        PlanView::SetterInnerV { inner } => method_tokens(
            f.name,
            fsp,
            inner,
            body_store_some(f.name, f.name, fsp, fsp),
            fsp,
        ),
        PlanView::ReplaceV => method_tokens(
            f.name,
            fsp,
            f.ty,
            body_replace(f.name, f.name, fsp, fsp),
            fsp,
        ),
        PlanView::BothV { op, op_span, elem } => method_tokens(
            f.name,
            fsp,
            f.ty,
            body_replace(f.name, f.name, fsp, fsp),
            fsp,
        ) + method_tokens(op, op_span, elem, body_push(f.name, op, op_span, fsp), fsp),
        PlanView::AppendOnlyV { op, op_span, elem } => method_tokens(
            op,
            op_span,
            elem,
            body_push(f.name, op, op_span, fsp),
            fsp,
        ),
    }
}

/// The methods of all fields, in field order, by their plans.
pub open spec fn methods_all(fs: Seq<FieldView>) -> Seq<TokenView>
    decreases fs.len(),
{
    if fs.len() == 0 {
        Seq::empty()
    } else {
        methods_of(fs[0], spec_plan(fs[0])->p) + methods_all(fs.drop_first())
    }
}

/// The first field whose plan fails, in declaration order.
pub open spec fn first_plan_err(fs: Seq<FieldView>) -> Option<Error>
    decreases fs.len(),
{
    if fs.len() == 0 {
        None
    } else {
        match spec_plan(fs[0]) {
            PlanResult::PlanErr { e } => Some(e),
            _ => first_plan_err(fs.drop_first()),
        }
    }
}

/// The store-`Some` body tokens.
fn body_store_some_tokens(fname: &String, m: &String, msp: Span, fsp: Span) -> (out: Vec<Token>)
    ensures
        views_of(out@) == body_store_some(fname@, m@, msp, fsp),
{
    let mut out: Vec<Token> = Vec::new();
    out.push(ident_str("self", fsp));
    out.push(punct_a('.', fsp));
    out.push(ident_string(fname.clone(), fsp));
    out.push(punct_a('=', fsp));
    out.push(ident_str("Some", fsp));
    let mut arg: Vec<Token> = Vec::new();
    arg.push(ident_string(m.clone(), msp));
    proof {
        assert(views_of(arg@) =~= seq![gi(m@, msp)]);
    }
    out.push(Token::Group { delim: Delimiter::Paren, tokens: arg, span: fsp });
    out.push(punct_a(';', fsp));
    out.push(ident_str("self", fsp));
    proof {
        assert(views_of(out@) =~= body_store_some(fname@, m@, msp, fsp));
    }
    out
}

/// The replace body tokens.
fn body_replace_tokens(fname: &String, m: &String, msp: Span, fsp: Span) -> (out: Vec<Token>)
    ensures
        views_of(out@) == body_replace(fname@, m@, msp, fsp),
{
    let mut out: Vec<Token> = Vec::new();
    out.push(ident_str("self", fsp));
    out.push(punct_a('.', fsp));
    out.push(ident_string(fname.clone(), fsp));
    out.push(punct_a('=', fsp));
    out.push(ident_string(m.clone(), msp));
    out.push(punct_a(';', fsp));
    out.push(ident_str("self", fsp));
    proof {
        assert(views_of(out@) =~= body_replace(fname@, m@, msp, fsp));
    }
    out
}

/// The push body tokens.
fn body_push_tokens(fname: &String, m: &String, msp: Span, fsp: Span) -> (out: Vec<Token>)
    ensures
        views_of(out@) == body_push(fname@, m@, msp, fsp),
{
    let mut out: Vec<Token> = Vec::new();
    out.push(ident_str("self", fsp));
    out.push(punct_a('.', fsp));
    out.push(ident_string(fname.clone(), fsp));
    out.push(punct_a('.', fsp));
    out.push(ident_str("push", fsp));
    let mut arg: Vec<Token> = Vec::new();
    arg.push(ident_string(m.clone(), msp));
    proof {
        assert(views_of(arg@) =~= seq![gi(m@, msp)]);
    }
    out.push(Token::Group { delim: Delimiter::Paren, tokens: arg, span: fsp });
    out.push(punct_a(';', fsp));
    out.push(ident_str("self", fsp));
    proof {
        assert(views_of(out@) =~= body_push(fname@, m@, msp, fsp));
    }
    out
}

/// One method's tokens.
fn method_tokens_exec(
    m: &String,
    msp: Span,
    param_ty: Vec<Token>,
    body: Vec<Token>,
    fsp: Span,
) -> (out: Vec<Token>)
    ensures
        views_of(out@) == method_tokens(m@, msp, views_of(param_ty@), views_of(body@), fsp),
{
    let ghost ptv = views_of(param_ty@);
    let ghost bv = views_of(body@);
    let mut params: Vec<Token> = Vec::new();
    params.push(punct_a('&', fsp));
    params.push(ident_str("mut", fsp));
    params.push(ident_str("self", fsp));
    params.push(punct_a(',', fsp));
    params.push(ident_string(m.clone(), msp));
    params.push(punct_a(':', fsp));
    push_all(&mut params, param_ty);
    proof {
        assert(views_of(params@) =~= seq![gp('&', fsp), gi("mut"@, fsp), gi("self"@, fsp), gp(
            ',',
            fsp,
        ), gi(m@, msp), gp(':', fsp)] + ptv);
    }
    let mut out: Vec<Token> = Vec::new();
    out.push(ident_str("pub", fsp));
    out.push(ident_str("fn", fsp));
    out.push(ident_string(m.clone(), msp));
    out.push(Token::Group { delim: Delimiter::Paren, tokens: params, span: fsp });
    out.push(punct_j('-', fsp));
    out.push(punct_a('>', fsp));
    out.push(punct_a('&', fsp));
    out.push(ident_str("mut", fsp));
    out.push(ident_str("Self", fsp));
    out.push(Token::Group { delim: Delimiter::Brace, tokens: body, span: fsp });
    proof {
        assert(views_of(out@) =~= method_tokens(m@, msp, ptv, bv, fsp));
    }
    out
}

/// The methods of one field, from its plan.
fn methods_for_field(f: &FieldDescriptor, p: &FieldPlan) -> (out: Vec<Token>)
    ensures
        views_of(out@) == methods_of(f@, plan_view(*p)),
{
    let fsp = f.name_span;
    match p {
        FieldPlan::SetterPlain => method_tokens_exec(
            &f.name,
            fsp,
            clone_tokens(&f.ty),
            body_store_some_tokens(&f.name, &f.name, fsp, fsp),
            fsp,
        ),
        FieldPlan::SetterInner { inner } => method_tokens_exec(
            &f.name,
            fsp,
            clone_tokens(inner),
            body_store_some_tokens(&f.name, &f.name, fsp, fsp),
            fsp,
        ),
        FieldPlan::Replace => method_tokens_exec(
            &f.name,
            fsp,
            clone_tokens(&f.ty),
            body_replace_tokens(&f.name, &f.name, fsp, fsp),
            fsp,
        ),
        FieldPlan::Both { op, op_span, elem } => {
            let mut out = method_tokens_exec(
                &f.name,
                fsp,
                clone_tokens(&f.ty),
                body_replace_tokens(&f.name, &f.name, fsp, fsp),
                fsp,
            );
            push_all(
                &mut out,
                method_tokens_exec(
                    op,
                    *op_span,
                    clone_tokens(elem),
                    body_push_tokens(&f.name, op, *op_span, fsp),
                    fsp,
                ),
            );
            out
        },
        FieldPlan::AppendOnly { op, op_span, elem } => method_tokens_exec(
            op,
            *op_span,
            clone_tokens(elem),
            body_push_tokens(&f.name, op, *op_span, fsp),
            fsp,
        ),
    }
}

/// The definition of the builder type:
/// `pub struct NBuilder { slots }`.
pub open spec fn struct_def_tokens(sd: StructView) -> Seq<TokenView> {
    let sp = sd.name_span;
    seq![gi("pub"@, sp), gi("struct"@, sp), gi(builder_name(sd), sp), gg(
        Delimiter::Brace,
        slot_decls(sd.fields),
        sp,
    )]
}

/// The finalize operation:
/// `pub fn build (& mut self) -> Result < N , String > { Ok ( N { entries } ) }`.
pub open spec fn build_fn_tokens(sd: StructView) -> Seq<TokenView> {
    let sp = sd.name_span;
    seq![gi("pub"@, sp), gi("fn"@, sp), gi("build"@, sp), gg(
        Delimiter::Paren,
        seq![gp('&', sp), gi("mut"@, sp), gi("self"@, sp)],
        sp,
    ), gj('-', sp), gp('>', sp), gi("Result"@, sp), gp('<', sp), gi(sd.name, sp), gp(',', sp), gi(
        "String"@,
        sp,
    ), gp('>', sp), gg(
        Delimiter::Brace,
        seq![gi("Ok"@, sp), gg(
            Delimiter::Paren,
            seq![gi(sd.name, sp), gg(Delimiter::Brace, build_entries(sd.fields), sp)],
            sp,
        )],
        sp,
    )]
}

/// The impl block of the builder: all methods, then `build`.
pub open spec fn impl_builder_tokens(sd: StructView) -> Seq<TokenView> {
    let sp = sd.name_span;
    seq![gi("impl"@, sp), gi(builder_name(sd), sp), gg(
        Delimiter::Brace,
        methods_all(sd.fields) + build_fn_tokens(sd),
        sp,
    )]
}

/// The static constructor on the record type:
/// `impl N { pub fn builder ( ) -> NBuilder { NBuilder { inits } } }`.
pub open spec fn ctor_tokens(sd: StructView) -> Seq<TokenView> {
    let sp = sd.name_span;
    seq![gi("impl"@, sp), gi(sd.name, sp), gg(
        Delimiter::Brace,
        seq![gi("pub"@, sp), gi("fn"@, sp), gi("builder"@, sp), gg(
            Delimiter::Paren,
            Seq::empty(),
            sp,
        ), gj('-', sp), gp('>', sp), gi(builder_name(sd), sp), gg(
            Delimiter::Brace,
            seq![gi(builder_name(sd), sp), gg(Delimiter::Brace, init_entries(sd.fields), sp)],
            sp,
        )],
        sp,
    )]
}

/// The whole generated output: builder type, its impl, the constructor.
pub open spec fn derive_tokens(sd: StructView) -> Seq<TokenView> {
    struct_def_tokens(sd) + impl_builder_tokens(sd) + ctor_tokens(sd)
}

/// The builder's name as a text.
fn builder_name_string(sd: &StructDescriptor) -> (s: String)
    ensures
        s@ == builder_name(sd@),
{
    let mut bn = sd.name.clone();
    bn.append("Builder");
    bn
}

/// The tokens of the finalize operation.
fn build_fn_tokens_exec(sd: &StructDescriptor) -> (out: Vec<Token>)
    ensures
        views_of(out@) == build_fn_tokens(sd@),
{
    let sp = sd.name_span;
    let mut bf: Vec<Token> = Vec::new();
    bf.push(ident_str("pub", sp));
    bf.push(ident_str("fn", sp));
    bf.push(ident_str("build", sp));
    let mut bparams: Vec<Token> = Vec::new();
    bparams.push(punct_a('&', sp));
    bparams.push(ident_str("mut", sp));
    bparams.push(ident_str("self", sp));
    proof {
        assert(views_of(bparams@) =~= seq![gp('&', sp), gi("mut"@, sp), gi("self"@, sp)]);
    }
    bf.push(Token::Group { delim: Delimiter::Paren, tokens: bparams, span: sp });
    bf.push(punct_j('-', sp));
    bf.push(punct_a('>', sp));
    bf.push(ident_str("Result", sp));
    bf.push(punct_a('<', sp));
    bf.push(ident_string(sd.name.clone(), sp));
    bf.push(punct_a(',', sp));
    bf.push(ident_str("String", sp));
    bf.push(punct_a('>', sp));
    let mut ok_arg: Vec<Token> = Vec::new();
    ok_arg.push(ident_string(sd.name.clone(), sp));
    ok_arg.push(
        Token::Group {
            delim: Delimiter::Brace,
            tokens: build_entries_tokens(&sd.fields),
            span: sp,
        },
    );
    proof {
        assert(views_of(ok_arg@) =~= seq![gi(sd@.name, sp), gg(
            Delimiter::Brace,
            build_entries(sd@.fields),
            sp,
        )]);
    }
    let mut bbody: Vec<Token> = Vec::new();
    bbody.push(ident_str("Ok", sp));
    bbody.push(Token::Group { delim: Delimiter::Paren, tokens: ok_arg, span: sp });
    proof {
        assert(views_of(bbody@) =~= seq![gi("Ok"@, sp), gg(
            Delimiter::Paren,
            seq![gi(sd@.name, sp), gg(Delimiter::Brace, build_entries(sd@.fields), sp)],
            sp,
        )]);
    }
    bf.push(Token::Group { delim: Delimiter::Brace, tokens: bbody, span: sp });
    proof {
        assert(views_of(bf@) =~= build_fn_tokens(sd@));
    }
    bf
}

/// The tokens of the static constructor on the record type.
fn ctor_tokens_exec(sd: &StructDescriptor) -> (out: Vec<Token>)
    ensures
        views_of(out@) == ctor_tokens(sd@),
{
    let sp = sd.name_span;
    let mut ctor_inner: Vec<Token> = Vec::new();
    ctor_inner.push(ident_string(builder_name_string(sd), sp));
    ctor_inner.push(
        Token::Group {
            delim: Delimiter::Brace,
            tokens: init_entries_tokens(&sd.fields),
            span: sp,
        },
    );
    proof {
        assert(views_of(ctor_inner@) =~= seq![gi(builder_name(sd@), sp), gg(
            Delimiter::Brace,
            init_entries(sd@.fields),
            sp,
        )]);
    }
    let mut ctor_body: Vec<Token> = Vec::new();
    ctor_body.push(ident_str("pub", sp));
    ctor_body.push(ident_str("fn", sp));
    ctor_body.push(ident_str("builder", sp));
    ctor_body.push(Token::Group { delim: Delimiter::Paren, tokens: Vec::new(), span: sp });
    ctor_body.push(punct_j('-', sp));
    ctor_body.push(punct_a('>', sp));
    ctor_body.push(ident_string(builder_name_string(sd), sp));
    ctor_body.push(Token::Group { delim: Delimiter::Brace, tokens: ctor_inner, span: sp });
    proof {
        assert(views_of(Seq::<Token>::empty()) =~= Seq::<TokenView>::empty());
        assert(views_of(ctor_body@) =~= seq![gi("pub"@, sp), gi("fn"@, sp), gi("builder"@, sp),
            gg(Delimiter::Paren, Seq::empty(), sp), gj('-', sp), gp('>', sp), gi(
            builder_name(sd@),
            sp,
        ), gg(
            Delimiter::Brace,
            seq![gi(builder_name(sd@), sp), gg(Delimiter::Brace, init_entries(sd@.fields), sp)],
            sp,
        )]);
    }
    let mut out: Vec<Token> = Vec::new();
    out.push(ident_str("impl", sp));
    out.push(ident_string(sd.name.clone(), sp));
    out.push(Token::Group { delim: Delimiter::Brace, tokens: ctor_body, span: sp });
    proof {
        assert(views_of(out@) =~= ctor_tokens(sd@));
    }
    out
}

/// The builder synthesizer. From a record definition — its name and the
/// brace-delimited field list — it produces the complete companion
/// builder as one token sequence, or the first diagnostic: a malformed
/// definition or repeated field name, a broken `builder(each = "...")`
/// annotation, or a wrapper without exactly one type argument, fields
/// being examined in declaration order. There is no partial output.
#[verifier::loop_isolation(false)]
#[verifier::rlimit(100)]
pub fn derive(name: &Token, body: &Token) -> (r: Result<Vec<Token>, Error>)
    ensures
        match r {
            Ok(out) => {
                &&& spec_parse_struct(name@, body@) matches StructParse::StructOk { sd }
                &&& distinct_names(sd.fields)
                &&& first_plan_err(sd.fields) is None
                &&& views_of(out@) == derive_tokens(sd)
            },
            Err(e) => {
                ||| {
                    &&& e matches Error::MalformedInput { .. }
                    &&& !(spec_parse_struct(name@, body@) matches StructParse::StructOk { sd }
                        && distinct_names(sd.fields))
                }
                ||| {
                    &&& spec_parse_struct(name@, body@) matches StructParse::StructOk { sd }
                    &&& first_plan_err(sd.fields) == Some(e)
                }
            },
        },
{
    let sd = match parse_struct(name, body) {
        Ok(sd) => sd,
        Err(e) => {
            return Err(e);
        },
    };
    let ghost fvs = sd@.fields;
    let mut plans: Vec<FieldPlan> = Vec::new();
    let mut i: usize = 0;
    proof {
        assert(fvs.skip(0) =~= fvs);
    }
    while i < sd.fields.len()
        invariant
            i <= sd.fields.len(),
            plans@.len() == i,
            forall|j: int|
                0 <= j < i ==> spec_plan(fvs[j]) == (PlanResult::PlanOk {
                    p: plan_view(#[trigger] plans@[j]),
                }),
            first_plan_err(fvs) == first_plan_err(fvs.skip(i as int)),
        decreases sd.fields.len() - i,
    {
        match plan_of(&sd.fields[i]) {
            Ok(p) => {
                plans.push(p);
            },
            Err(e) => {
                proof {
                    assert(first_plan_err(fvs.skip(i as int)) == Some(e));
                }
                return Err(e);
            },
        }
        i = i + 1;
        proof {
            assert(fvs.skip(i - 1).drop_first() =~= fvs.skip(i as int));
        }
    }
    proof {
        assert(fvs.skip(sd.fields@.len() as int) =~= Seq::<FieldView>::empty());
    }
    let mut out: Vec<Token> = Vec::new();
    let sp = sd.name_span;
    out.push(ident_str("pub", sp));
    out.push(ident_str("struct", sp));
    out.push(ident_string(builder_name_string(&sd), sp));
    out.push(
        Token::Group { delim: Delimiter::Brace, tokens: slot_decls_tokens(&sd.fields), span: sp },
    );
    proof {
        assert(views_of(out@) =~= struct_def_tokens(sd@));
    }
    let mut impl_body: Vec<Token> = Vec::new();
    let mut m: usize = 0;
    proof {
        assert(views_of(impl_body@) =~= Seq::<TokenView>::empty());
        assert(Seq::<TokenView>::empty() + methods_all(fvs) =~= methods_all(fvs));
    }
    while m < sd.fields.len()
        invariant
            m <= sd.fields.len(),
            plans@.len() == sd.fields.len(),
            forall|j: int|
                0 <= j < sd.fields@.len() ==> spec_plan(fvs[j]) == (PlanResult::PlanOk {
                    p: plan_view(#[trigger] plans@[j]),
                }),
            methods_all(fvs) == views_of(impl_body@) + methods_all(fvs.skip(m as int)),
        decreases sd.fields.len() - m,
    {
        let ghost pre = views_of(impl_body@);
        push_all(&mut impl_body, methods_for_field(&sd.fields[m], &plans[m]));
        m = m + 1;
        proof {
            assert(fvs.skip(m - 1).drop_first() =~= fvs.skip(m as int));
            assert(methods_all(fvs.skip(m - 1)) == methods_of(fvs[m - 1], spec_plan(fvs[m - 1])->p)
                + methods_all(fvs.skip(m as int)));
            assert(pre + (methods_of(fvs[m - 1], plan_view(plans@[m - 1])) + methods_all(
                fvs.skip(m as int),
            )) =~= (pre + methods_of(fvs[m - 1], plan_view(plans@[m - 1]))) + methods_all(
                fvs.skip(m as int),
            ));
        }
    }
    proof {
        assert(fvs.skip(sd.fields@.len() as int) =~= Seq::<FieldView>::empty());
        assert(views_of(impl_body@) + Seq::<TokenView>::empty() =~= views_of(impl_body@));
    }
    // the finalize operation, appended after the methods
    push_all(&mut impl_body, build_fn_tokens_exec(&sd));
    out.push(ident_str("impl", sp));
    out.push(ident_string(builder_name_string(&sd), sp));
    out.push(Token::Group { delim: Delimiter::Brace, tokens: impl_body, span: sp });
    proof {
        assert(views_of(out@) =~= struct_def_tokens(sd@) + impl_builder_tokens(sd@));
    }
    // the static constructor on the record type
    push_all(&mut out, ctor_tokens_exec(&sd));
    proof {
        assert(views_of(out@) == derive_tokens(sd@));
    }
    Ok(out)
}

} // verus!
