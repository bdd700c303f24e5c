//! Lowering high-level expressions to the low-level IR, following the layout
//! of each type.

use vstd::prelude::*;

use crate::hir;
use crate::hir::typeck::{lemma_type_of_valid, ty_valid, type_of, TypeError};
use crate::layout::path::{TagPath, ValueProj};
use crate::layout::{layout_is_zst, Layout, TagLayout, TaggedLayout, VariantLayout, VariantRepr};
use crate::layout_of::{is_nicheable, layout_of_spec, try_layout_of, non_zst_count, Nicheable};
use crate::lir;
use crate::lir::{find, lir_ty_is_zst, lir_type_of, lookup};
use crate::eval::{eval_case_spec, eval_fields_spec, eval_spec, EvalError};
use crate::list::List;
use crate::name::{same_name, Name};

verus! {

/// Why an expression could not be lowered.
#[derive(Debug, Clone, Copy, PartialEq, Eq, Structural)]
pub enum LowerError {
    Type(TypeError),
    /// A variant expression whose type is not a variant type.
    NotAVariant,
    /// A variant name that the tag has no value for.
    UnknownVariant,
    /// A `match` on something other than a variant type.
    UnsupportedMatch,
    /// A `match` on a one-variant type without exactly one case.
    CaseCount,
    /// Two cases that both fall to the default arm.
    DuplicateDefault,
    /// A niche tag over variants that do not have exactly one payload.
    NoPayload,
    /// A lowered expression that has no type.
    IllTyped,
    /// The temporaries ran out of `u64` indices.
    TempOverflow,
}

/// `t` and `d` are the names of the fields that a direct tag introduces.
pub open spec fn reserved(t: Name, d: Name) -> bool {
    t == Name::Tag && d == Name::Data
}

/// The state of lowering: the next temporary's index, and the reserved field
/// names.
#[derive(Debug)]
pub struct Ctxt {
    pub next_temp_var: u64,
    pub tag: Name,
    pub data: Name,
}

impl Ctxt {
    pub fn new() -> (r: Self)
        ensures
            r.next_temp_var == 0,
            reserved(r.tag, r.data),
    {
        Self { next_temp_var: 0, tag: Name::Tag, data: Name::Data }
    }

    /// A fresh temporary of type `ty`.
    fn temp_var(&mut self, ty: lir::Ty) -> (r: Result<lir::Var, LowerError>)
        ensures
            final(self).tag == old(self).tag,
            final(self).data == old(self).data,
            old(self).next_temp_var == u64::MAX ==> r == Err::<lir::Var, LowerError>(LowerError::TempOverflow),
            old(self).next_temp_var < u64::MAX ==> r == Ok::<lir::Var, LowerError>(
                lir::Var { name: Name::Temp(old(self).next_temp_var), ty },
            ) && final(self).next_temp_var == old(self).next_temp_var + 1,
    {
        if self.next_temp_var == u64::MAX {
            return Err(LowerError::TempOverflow);
        }
        let idx = self.next_temp_var;
        self.next_temp_var = self.next_temp_var + 1;
        Ok(lir::Var::temp(idx, ty))
    }
}

// ----- Types -----

/// The low-level type of a layout: a direct tag becomes a record of the tag
/// and a union of the variants, a niche tag the type of its payload; `None`
/// where a niche tag does not have exactly one payload.
pub open spec fn lower_layout_spec(l: Layout, t: Name, d: Name) -> Option<lir::Ty>
    decreases l,
{
    match l {
        Layout::U64(_) => Some(lir::Ty::U64),
        Layout::Ptr { pointee, .. } => match lower_layout_spec(*pointee, t, d) {
            Some(p) => Some(lir::Ty::Ptr(Box::new(p))),
            None => None,
        },
        Layout::Aggregate { fields } => match lower_layouts_spec(*fields, t, d) {
            Some(f) => Some(lir::Ty::Record(Box::new(f))),
            None => None,
        },
        Layout::Variant(VariantLayout::Single { field }) => lower_layout_spec(*field, t, d),
        Layout::Variant(VariantLayout::Tagged(tl)) => match tl.tag {
            TagLayout::Direct { .. } => match lower_layouts_spec(*tl.variants, t, d) {
                Some(u) => Some(direct_repr_ty(u, t, d)),
                None => None,
            },
            TagLayout::Niche { .. } => if non_zst_count(*tl.variants) == 1 {
                lower_payload_spec(*tl.variants, t, d)
            } else {
                None
            },
        },
        Layout::Recursive(b) => match lower_layout_spec(*b, t, d) {
            Some(x) => Some(lir::Ty::Recursive(Box::new(x))),
            None => None,
        },
        Layout::RecurId(k) => Some(lir::Ty::RecurId(k)),
    }
}

/// `{ tag : U64, data : union { … } }`.
pub open spec fn direct_repr_ty(u: List<(Name, lir::Ty)>, t: Name, d: Name) -> lir::Ty {
    lir::Ty::Record(
        Box::new(
            List::Cons(
                (t, lir::Ty::U64),
                Box::new(List::Cons((d, lir::Ty::UntaggedUnion(Box::new(u))), Box::new(List::Nil))),
            ),
        ),
    )
}

pub open spec fn lower_layouts_spec(fs: List<(Name, Layout)>, t: Name, d: Name) -> Option<
    List<(Name, lir::Ty)>,
>
    decreases fs,
{
    match fs {
        List::Nil => Some(List::Nil),
        List::Cons(hd, tl) => match (lower_layout_spec(hd.1, t, d), lower_layouts_spec(*tl, t, d)) {
            (Some(x), Some(rest)) => Some(List::Cons((hd.0, x), Box::new(rest))),
            _ => None,
        },
    }
}

/// The lowered type of the first entry that is not zero-sized.
pub open spec fn lower_payload_spec(fs: List<(Name, Layout)>, t: Name, d: Name) -> Option<lir::Ty>
    decreases fs,
{
    match fs {
        List::Nil => None,
        List::Cons(hd, tl) => if layout_is_zst(hd.1) {
            lower_payload_spec(*tl, t, d)
        } else {
            lower_layout_spec(hd.1, t, d)
        },
    }
}

/// The low-level type of a layout, as `lower_layout_spec` says, with the
/// reserved names `tag` and `data`.
pub fn lower_layout(layout: Layout) -> (r: Option<lir::Ty>)
    ensures
        r == lower_layout_spec(layout, Name::Tag, Name::Data),
{
    let cx = Ctxt::new();
    lower_layout_with(&cx, layout)
}

fn lower_layout_with(cx: &Ctxt, layout: Layout) -> (r: Option<lir::Ty>)
    ensures
        r == lower_layout_spec(layout, cx.tag, cx.data),
    decreases layout,
{
    match layout {
        Layout::U64(_) => Some(lir::Ty::U64),
        Layout::Ptr { pointee, .. } => match lower_layout_with(cx, *pointee) {
            Some(p) => Some(lir::Ty::Ptr(Box::new(p))),
            None => None,
        },
        Layout::Aggregate { fields } => match lower_layouts(cx, *fields) {
            Some(f) => Some(lir::Ty::Record(Box::new(f))),
            None => None,
        },
        Layout::Variant(VariantLayout::Single { field }) => lower_layout_with(cx, *field),
        Layout::Variant(VariantLayout::Tagged(TaggedLayout { tag, variants })) => match tag {
            TagLayout::Direct { .. } => match lower_layouts(cx, *variants) {
                Some(u) => Some(
                    lir::Ty::Record(
                        Box::new(
                            List::Cons(
                                (cx.tag.clone(), lir::Ty::U64),
                                Box::new(
                                    List::Cons(
                                        (cx.data.clone(), lir::Ty::UntaggedUnion(Box::new(u))),
                                        Box::new(List::Nil),
                                    ),
                                ),
                            ),
                        ),
                    ),
                ),
                None => None,
            },
            TagLayout::Niche { .. } => {
                let one = match is_nicheable(&variants) {
                    Nicheable::Yes { .. } => true,
                    Nicheable::No => false,
                };
                if one {
                    lower_payload(cx, *variants)
                } else {
                    None
                }
            },
        },
        Layout::Recursive(body) => match lower_layout_with(cx, *body) {
            Some(x) => Some(lir::Ty::Recursive(Box::new(x))),
            None => None,
        },
        Layout::RecurId(k) => Some(lir::Ty::RecurId(k)),
    }
}

fn lower_layouts(cx: &Ctxt, fs: List<(Name, Layout)>) -> (r: Option<List<(Name, lir::Ty)>>)
    ensures
        r == lower_layouts_spec(fs, cx.tag, cx.data),
    decreases fs,
{
    match fs {
        List::Nil => Some(List::Nil),
        List::Cons(hd, tl) => {
            let (n, l) = hd;
            match (lower_layout_with(cx, l), lower_layouts(cx, *tl)) {
                (Some(x), Some(rest)) => Some(List::Cons((n, x), Box::new(rest))),
                _ => None,
            }
        },
    }
}

fn lower_payload(cx: &Ctxt, fs: List<(Name, Layout)>) -> (r: Option<lir::Ty>)
    ensures
        r == lower_payload_spec(fs, cx.tag, cx.data),
    decreases fs,
{
    match fs {
        List::Nil => None,
        List::Cons(hd, tl) => {
            if hd.1.is_zst() {
                lower_payload(cx, *tl)
            } else {
                lower_layout_with(cx, hd.1)
            }
        },
    }
}

// ----- Paths -----

/// Wraps `e` as the value one step outward along `p`.
pub open spec fn wrap_spec(p: ValueProj, e: lir::Expr, t: Name, d: Name) -> lir::Expr {
    match p {
        ValueProj::Field(n) => lir::Expr::Record(Box::new(List::Cons((n, e), Box::new(List::Nil)))),
        ValueProj::Variant { repr: VariantRepr::Wrapper, .. } => lir::Expr::Record(
            Box::new(List::Cons((d, e), Box::new(List::Nil))),
        ),
        ValueProj::Variant { repr: VariantRepr::Transparent, .. } => e,
        ValueProj::Tag => lir::Expr::Record(Box::new(List::Cons((t, e), Box::new(List::Nil)))),
    }
}

/// Builds a value around `acc` along a reversed path, innermost step first.
pub open spec fn construct_spec(rev: List<ValueProj>, acc: lir::Expr, t: Name, d: Name) -> lir::Expr
    decreases rev,
{
    match rev {
        List::Nil => acc,
        List::Cons(p, tl) => construct_spec(*tl, wrap_spec(p, acc, t, d), t, d),
    }
}

/// Projects `e` one step inward along `p`.
pub open spec fn project_spec(p: ValueProj, e: lir::Expr, t: Name, d: Name) -> lir::Expr {
    match p {
        ValueProj::Field(n) => lir::Expr::Select { record: Box::new(e), field: n },
        ValueProj::Variant { repr: VariantRepr::Wrapper, .. } => lir::Expr::Select {
            record: Box::new(e),
            field: d,
        },
        ValueProj::Variant { repr: VariantRepr::Transparent, .. } => e,
        ValueProj::Tag => lir::Expr::Select { record: Box::new(e), field: t },
    }
}

/// Projects `root` along a reversed path, outermost step first.
pub open spec fn select_spec(rev: List<ValueProj>, root: lir::Expr, t: Name, d: Name) -> lir::Expr
    decreases rev,
{
    match rev {
        List::Nil => root,
        List::Cons(p, tl) => project_spec(p, select_spec(*tl, root, t, d), t, d),
    }
}

/// The value that holds `tag_value` at `path` and nothing else: the inverse
/// of projecting along the path.
pub fn construct_niche_nullary_variant(path: TagPath, tag_value: u64) -> (r: lir::Expr)
    ensures
        r == construct_spec(path.reversed, lir::Expr::U64(tag_value), Name::Tag, Name::Data),
{
    let cx = Ctxt::new();
    construct_with(&cx, path.reversed, lir::Expr::U64(tag_value))
}

fn construct_with(cx: &Ctxt, rev: List<ValueProj>, acc: lir::Expr) -> (r: lir::Expr)
    ensures
        r == construct_spec(rev, acc, cx.tag, cx.data),
    decreases rev,
{
    match rev {
        List::Nil => acc,
        List::Cons(p, tl) => {
            let wrapped = match p {
                ValueProj::Field(n) => lir::Expr::Record(Box::new(List::Cons((n, acc), Box::new(List::Nil)))),
                ValueProj::Variant { repr, name: _ } => match repr {
                    VariantRepr::Wrapper => lir::Expr::Record(
                        Box::new(List::Cons((cx.data.clone(), acc), Box::new(List::Nil))),
                    ),
                    VariantRepr::Transparent => acc,
                },
                ValueProj::Tag => lir::Expr::Record(
                    Box::new(List::Cons((cx.tag.clone(), acc), Box::new(List::Nil))),
                ),
            };
            construct_with(cx, *tl, wrapped)
        },
    }
}

/// Projects `root_value` along `path`, from the root inward.
pub fn select_value_at_path(root_value: lir::Expr, path: TagPath) -> (r: lir::Expr)
    ensures
        r == select_spec(path.reversed, root_value, Name::Tag, Name::Data),
{
    let cx = Ctxt::new();
    select_with(&cx, root_value, path.reversed)
}

fn select_with(cx: &Ctxt, root: lir::Expr, rev: List<ValueProj>) -> (r: lir::Expr)
    ensures
        r == select_spec(rev, root, cx.tag, cx.data),
    decreases rev,
{
    match rev {
        List::Nil => root,
        List::Cons(p, tl) => {
            let inner = select_with(cx, root, *tl);
            match p {
                ValueProj::Field(field) => lir::Expr::Select { record: Box::new(inner), field },
                ValueProj::Variant { repr, name: _ } => match repr {
                    VariantRepr::Wrapper => lir::Expr::Select {
                        record: Box::new(inner),
                        field: cx.data.clone(),
                    },
                    VariantRepr::Transparent => inner,
                },
                ValueProj::Tag => lir::Expr::Select { record: Box::new(inner), field: cx.tag.clone() },
            }
        },
    }
}

// ----- Expressions -----

/// The result of lowering, with the next free temporary index.
pub type Lowered<T> = Result<(T, u64), LowerError>;

pub open spec fn lower_var_spec(v: hir::Var, t: Name, d: Name) -> Result<lir::Var, LowerError> {
    if !ty_valid(v.ty, 0) {
        Err(LowerError::Type(TypeError::InfiniteType))
    } else {
        match lower_layout_spec(layout_of_spec(v.ty), t, d) {
            Some(lt) => Ok(lir::Var { name: v.name, ty: lt }),
            None => Err(LowerError::NoPayload),
        }
    }
}

/// Lowers `e` with temporaries numbered from `n`. Each node's type and layout
/// are computed first; `fold` and `unfold` disappear; variants and matches
/// follow the layout of their type.
pub open spec fn lower_spec(e: hir::Expr, n: u64, t: Name, d: Name) -> Lowered<lir::Expr>
    decreases e, 2nat,
{
    match type_of(e) {
        Err(x) => Err(LowerError::Type(x)),
        Ok(hty) => match e {
            hir::Expr::Var(v) => match lower_var_spec(v, t, d) {
                Ok(lv) => Ok((lir::Expr::Var(lv), n)),
                Err(x) => Err(x),
            },
            hir::Expr::U64(u) => Ok((lir::Expr::U64(u), n)),
            hir::Expr::Box(b) => match lower_spec(*b, n, t, d) {
                Ok((x, n2)) => Ok((lir::Expr::Box(Box::new(x)), n2)),
                Err(x) => Err(x),
            },
            hir::Expr::Record(fs) => match lower_fields_spec(*fs, n, t, d) {
                Ok((f, n2)) => Ok((lir::Expr::Record(Box::new(f)), n2)),
                Err(x) => Err(x),
            },
            hir::Expr::Variant { variant, field, .. } => match layout_of_spec(hty) {
                Layout::Variant(vl) => lower_variant_spec(vl, variant, *field, n, t, d),
                _ => Err(LowerError::NotAVariant),
            },
            hir::Expr::Fold { value, .. } => lower_spec(*value, n, t, d),
            hir::Expr::Unfold { value, .. } => lower_spec(*value, n, t, d),
            hir::Expr::Let { binder, value, body } => match lower_var_spec(binder, t, d) {
                Err(x) => Err(x),
                Ok(lb) => match lower_spec(*value, n, t, d) {
                    Err(x) => Err(x),
                    Ok((lv, n1)) => match lower_spec(*body, n1, t, d) {
                        Err(x) => Err(x),
                        Ok((lbody, n2)) => Ok(
                            (lir::Expr::Let { binder: lb, value: Box::new(lv), body: Box::new(lbody) }, n2),
                        ),
                    },
                },
            },
            hir::Expr::Match { .. } => lower_match_spec(e, n, t, d),
        },
    }
}

pub open spec fn lower_fields_spec(fs: List<(Name, hir::Expr)>, n: u64, t: Name, d: Name) -> Lowered<
    List<(Name, lir::Expr)>,
>
    decreases fs, 0nat,
{
    match fs {
        List::Nil => Ok((List::Nil, n)),
        List::Cons(hd, tl) => match lower_spec(hd.1, n, t, d) {
            Err(x) => Err(x),
            Ok((x, n1)) => match lower_fields_spec(*tl, n1, t, d) {
                Err(e) => Err(e),
                Ok((rest, n2)) => Ok((List::Cons((hd.0, x), Box::new(rest)), n2)),
            },
        },
    }
}

/// A variant value: its field alone for a single variant; `{tag, data}` for a
/// direct tag; for a niche tag the payload as it is, and for a zero-sized
/// variant the value that holds its tag value at the niche's path.
pub open spec fn lower_variant_spec(
    vl: VariantLayout,
    variant: Name,
    field: hir::Expr,
    n: u64,
    t: Name,
    d: Name,
) -> Lowered<lir::Expr>
    decreases field, 3nat,
{
    match lower_spec(field, n, t, d) {
        Err(x) => Err(x),
        Ok((f, n1)) => match lir_type_of(f) {
            None => Err(LowerError::IllTyped),
            Some(fty) => match vl {
                VariantLayout::Single { .. } => Ok((f, n1)),
                VariantLayout::Tagged(tl) => match tl.tag {
                    TagLayout::Direct { values, .. } => match lookup(values, variant) {
                        None => Err(LowerError::UnknownVariant),
                        Some(tv) => match lower_layouts_spec(*tl.variants, t, d) {
                            None => Err(LowerError::NoPayload),
                            Some(u) => Ok(
                                (
                                    lir::Expr::Record(
                                        Box::new(
                                            List::Cons(
                                                (t, lir::Expr::U64(tv)),
                                                Box::new(
                                                    List::Cons(
                                                        (
                                                            d,
                                                            lir::Expr::UntaggedUnion {
                                                                ty: lir::Ty::UntaggedUnion(Box::new(u)),
                                                                field: variant,
                                                                value: Box::new(f),
                                                            },
                                                        ),
                                                        Box::new(List::Nil),
                                                    ),
                                                ),
                                            ),
                                        ),
                                    ),
                                    n1,
                                ),
                            ),
                        },
                    },
                    TagLayout::Niche { path, values } => if lir_ty_is_zst(fty) {
                        match lookup(values, variant) {
                            None => Err(LowerError::UnknownVariant),
                            Some(tv) => Ok((construct_spec(path.reversed, lir::Expr::U64(tv), t, d), n1)),
                        }
                    } else {
                        Ok((f, n1))
                    },
                },
            },
        },
    }
}

/// A match: the subject is bound once to a temporary `x`, then discriminated
/// as the layout of its type says.
pub open spec fn lower_match_spec(e: hir::Expr, n: u64, t: Name, d: Name) -> Lowered<lir::Expr>
    decreases e, 1nat,
{
    match e {
        hir::Expr::Match { subj, cases } => match type_of(*subj) {
            Err(x) => Err(LowerError::Type(x)),
            Ok(st) => match lower_spec(*subj, n, t, d) {
                Err(x) => Err(x),
                Ok((ls, n1)) => match lir_type_of(ls) {
                    None => Err(LowerError::IllTyped),
                    Some(lt) => if n1 == u64::MAX {
                        Err(LowerError::TempOverflow)
                    } else {
                        let x = lir::Var { name: Name::Temp(n1), ty: lt };
                        match layout_of_spec(st) {
                            Layout::Variant(vl) => match lower_variant_match_spec(vl, x, *cases, (n1 + 1) as u64, t, d) {
                                Err(err) => Err(err),
                                Ok((m, n2)) => Ok(
                                    (lir::Expr::Let { binder: x, value: Box::new(ls), body: Box::new(m) }, n2),
                                ),
                            },
                            _ => Err(LowerError::UnsupportedMatch),
                        }
                    },
                },
            },
        },
        _ => Err(LowerError::UnsupportedMatch),
    }
}

pub open spec fn lower_variant_match_spec(
    vl: VariantLayout,
    x: lir::Var,
    cases: List<(hir::Pat, hir::Expr)>,
    n: u64,
    t: Name,
    d: Name,
) -> Lowered<lir::Expr>
    decreases cases, 7nat,
{
    match vl {
        VariantLayout::Single { .. } => lower_single_match_spec(x, cases, n, t, d),
        VariantLayout::Tagged(tl) => if keyless_count(tl, cases) > 1 {
            Err(LowerError::DuplicateDefault)
        } else {
            lower_tagged_match_spec(tl, x, cases, n, t, d)
        },
    }
}

/// Whether the tag gives `pat`'s variant no value: under a niche tag, the
/// payload (and any variant the type lacks) goes to the default arm.
pub open spec fn is_keyless(tl: TaggedLayout, pat: hir::Pat) -> bool {
    match (tl.tag, pat) {
        (TagLayout::Niche { values, .. }, hir::Pat::Variant { variant, .. }) => lookup(values, variant) is None,
        _ => false,
    }
}

/// The number of cases that fall to the default arm.
pub open spec fn keyless_count(tl: TaggedLayout, cases: List<(hir::Pat, hir::Expr)>) -> nat
    decreases cases,
{
    match cases {
        List::Nil => 0,
        List::Cons(hd, rest) => (if is_keyless(tl, hd.0) {
            1nat
        } else {
            0nat
        }) + keyless_count(tl, *rest),
    }
}

/// One variant: its single case binds the subject itself.
pub open spec fn lower_single_match_spec(
    x: lir::Var,
    cases: List<(hir::Pat, hir::Expr)>,
    n: u64,
    t: Name,
    d: Name,
) -> Lowered<lir::Expr>
    decreases cases, 6nat,
{
    match cases {
        List::Cons(hd, tl) => match *tl {
            List::Nil => match hd.0 {
                hir::Pat::Variant { field, .. } => arm_body_spec(field, lir::Expr::Var(x), hd.1, n, t, d),
            },
            _ => Err(LowerError::CaseCount),
        },
        List::Nil => Err(LowerError::CaseCount),
    }
}

/// `let binder = value in body`, lowered.
pub open spec fn arm_body_spec(
    binder: hir::Var,
    value: lir::Expr,
    body: hir::Expr,
    n: u64,
    t: Name,
    d: Name,
) -> Lowered<lir::Expr>
    decreases body, 3nat,
{
    match lower_var_spec(binder, t, d) {
        Err(x) => Err(x),
        Ok(lb) => match lower_spec(body, n, t, d) {
            Err(x) => Err(x),
            Ok((lbody, n1)) => Ok((lir::Expr::Let { binder: lb, value: Box::new(value), body: Box::new(lbody) }, n1)),
        },
    }
}

/// One case of a tagged match: its key (none for the payload of a niche
/// tag) and its lowered body, which binds the variant's field.
pub open spec fn arm_spec(
    tl: TaggedLayout,
    x: lir::Var,
    pat: hir::Pat,
    body: hir::Expr,
    n: u64,
    t: Name,
    d: Name,
) -> Result<(Option<u64>, lir::Expr, u64), LowerError>
    decreases body, 4nat,
{
    match pat {
        hir::Pat::Variant { variant, field, .. } => match tl.tag {
            TagLayout::Direct { values, .. } => match arm_body_spec(
                field,
                lir::Expr::Select { record: Box::new(lir::Expr::Var(x)), field: d },
                body,
                n,
                t,
                d,
            ) {
                Err(e) => Err(e),
                Ok((b, n1)) => match lookup(values, variant) {
                    Some(k) => Ok((Some(k), b, n1)),
                    None => Err(LowerError::UnknownVariant),
                },
            },
            TagLayout::Niche { values, .. } => match arm_body_spec(field, lir::Expr::Var(x), body, n, t, d) {
                Err(e) => Err(e),
                Ok((b, n1)) => Ok((lookup(values, variant), b, n1)),
            },
        },
    }
}

/// The cases in order; a case without a key becomes the default.
pub open spec fn arms_spec(
    tl: TaggedLayout,
    x: lir::Var,
    cases: List<(hir::Pat, hir::Expr)>,
    default: Option<lir::Expr>,
    n: u64,
    t: Name,
    d: Name,
) -> Result<(List<(u64, lir::Expr)>, Option<lir::Expr>, u64), LowerError>
    decreases cases, 5nat,
{
    match cases {
        List::Nil => Ok((List::Nil, default, n)),
        List::Cons(hd, tl_cases) => match arm_spec(tl, x, hd.0, hd.1, n, t, d) {
            Err(e) => Err(e),
            Ok((key, b, n1)) => match key {
                Some(k) => match arms_spec(tl, x, *tl_cases, default, n1, t, d) {
                    Err(e) => Err(e),
                    Ok((cs, def, n2)) => Ok((List::Cons((k, b), Box::new(cs)), def, n2)),
                },
                None => arms_spec(tl, x, *tl_cases, Some(b), n1, t, d),
            },
        },
    }
}

/// A tagged match: the tag is read (from its field, or at the niche's path)
/// into a temporary `y`, and `y` is switched on.
pub open spec fn lower_tagged_match_spec(
    tl: TaggedLayout,
    x: lir::Var,
    cases: List<(hir::Pat, hir::Expr)>,
    n: u64,
    t: Name,
    d: Name,
) -> Lowered<lir::Expr>
    decreases cases, 6nat,
{
    match arms_spec(tl, x, cases, None, n, t, d) {
        Err(e) => Err(e),
        Ok((cs, def, n1)) => {
            let sse = match tl.tag {
                TagLayout::Direct { .. } => lir::Expr::Select { record: Box::new(lir::Expr::Var(x)), field: t },
                TagLayout::Niche { path, .. } => select_spec(path.reversed, lir::Expr::Var(x), t, d),
            };
            match lir_type_of(sse) {
                None => Err(LowerError::IllTyped),
                Some(st) => if n1 == u64::MAX {
                    Err(LowerError::TempOverflow)
                } else {
                    let y = lir::Var { name: Name::Temp(n1), ty: st };
                    let default = match def {
                        Some(b) => Some(Box::new(b)),
                        None => None,
                    };
                    Ok(
                        (
                            lir::Expr::Let {
                                binder: y,
                                value: Box::new(sse),
                                body: Box::new(lir::Expr::Switch { subj: y, cases: Box::new(cs), default }),
                            },
                            (n1 + 1) as u64,
                        ),
                    )
                },
            }
        },
    }
}

/// Lowers a whole expression with fresh temporaries from 0, as `lower_spec`
/// says with the reserved fields `Tag` and `Data`; an expression that cannot
/// be lowered gives the error that `lower_spec` names.
pub fn try_lower_root_expr(expr: hir::Expr) -> (r: Result<lir::Expr, LowerError>)
    ensures
        match lower_spec(expr, 0, Name::Tag, Name::Data) {
            Ok((x, _)) => r == Ok::<lir::Expr, LowerError>(x),
            Err(e) => r == Err::<lir::Expr, LowerError>(e),
        },
{
    let mut cx = Ctxt::new();
    lower_expr(&mut cx, expr)
}

/// Lowers a whole expression that can be lowered (one that is well typed,
/// with matches only on variant types and at most one payload case each).
pub fn lower_root_expr(expr: hir::Expr) -> (r: lir::Expr)
    requires
        lower_spec(expr, 0, Name::Tag, Name::Data) is Ok,
    ensures
        lower_spec(expr, 0, Name::Tag, Name::Data) == Ok::<(lir::Expr, u64), LowerError>(
            (r, lower_spec(expr, 0, Name::Tag, Name::Data).unwrap().1),
        ),
{
    match try_lower_root_expr(expr) {
        Ok(x) => x,
        Err(_) => {
            proof {
                assert(false);
            }
            lir::Expr::U64(0)
        },
    }
}

/// `Ok` with the next free index recorded in `cx`, or the same error.
pub open spec fn lowered_as<T>(r: Result<T, LowerError>, cx: Ctxt, spec: Lowered<T>) -> bool {
    match spec {
        Ok((x, n)) => r == Ok::<T, LowerError>(x) && cx.next_temp_var == n,
        Err(e) => r == Err::<T, LowerError>(e),
    }
}

fn lower_expr(cx: &mut Ctxt, expr: hir::Expr) -> (r: Result<lir::Expr, LowerError>)
    ensures
        final(cx).tag == old(cx).tag,
        final(cx).data == old(cx).data,
        lowered_as(r, *final(cx), lower_spec(expr, old(cx).next_temp_var, old(cx).tag, old(cx).data)),
    decreases expr, 2nat,
{
    let hir_ty = match expr.try_ty() {
        Ok(t) => t,
        Err(x) => return Err(LowerError::Type(x)),
    };
    proof {
        lemma_type_of_valid(expr);
    }
    let layout = match try_layout_of(hir_ty) {
        Ok(l) => l,
        Err(x) => return Err(LowerError::Type(x)),
    };
    let ghost e0 = expr;
    match expr {
        hir::Expr::Var(var) => match lower_var(cx, var) {
            Ok(v) => Ok(lir::Expr::Var(v)),
            Err(x) => Err(x),
        },
        hir::Expr::U64(u) => Ok(lir::Expr::U64(u)),
        hir::Expr::Box(boxed) => match lower_expr(cx, *boxed) {
            Ok(x) => Ok(lir::Expr::Box(Box::new(x))),
            Err(x) => Err(x),
        },
        hir::Expr::Record(fields) => match lower_fields(cx, *fields) {
            Ok(f) => Ok(lir::Expr::Record(Box::new(f))),
            Err(x) => Err(x),
        },
        hir::Expr::Variant { ty: _, variant, field } => match layout {
            Layout::Variant(vl) => lower_variant_expr(cx, vl, variant, *field),
            _ => Err(LowerError::NotAVariant),
        },
        hir::Expr::Fold { ty: _, value } => lower_expr(cx, *value),
        hir::Expr::Unfold { ty: _, value } => lower_expr(cx, *value),
        hir::Expr::Let { binder, value, body } => {
            let lb = match lower_var(cx, binder) {
                Ok(v) => v,
                Err(x) => return Err(x),
            };
            let lv = match lower_expr(cx, *value) {
                Ok(v) => v,
                Err(x) => return Err(x),
            };
            let lbody = match lower_expr(cx, *body) {
                Ok(v) => v,
                Err(x) => return Err(x),
            };
            Ok(lir::Expr::Let { binder: lb, value: Box::new(lv), body: Box::new(lbody) })
        },
        hir::Expr::Match { subj, cases } => lower_match(cx, *subj, *cases, Ghost(e0)),
    }
}

fn lower_fields(cx: &mut Ctxt, fs: List<(Name, hir::Expr)>) -> (r: Result<List<(Name, lir::Expr)>, LowerError>)
    ensures
        final(cx).tag == old(cx).tag,
        final(cx).data == old(cx).data,
        lowered_as(r, *final(cx), lower_fields_spec(fs, old(cx).next_temp_var, old(cx).tag, old(cx).data)),
    decreases fs, 0nat,
{
    match fs {
        List::Nil => Ok(List::Nil),
        List::Cons(hd, tl) => {
            let (n, e) = hd;
            let x = match lower_expr(cx, e) {
                Ok(x) => x,
                Err(err) => return Err(err),
            };
            match lower_fields(cx, *tl) {
                Ok(rest) => Ok(List::Cons((n, x), Box::new(rest))),
                Err(err) => Err(err),
            }
        },
    }
}

fn lower_var(cx: &Ctxt, var: hir::Var) -> (r: Result<lir::Var, LowerError>)
    ensures
        r == lower_var_spec(var, cx.tag, cx.data),
{
    let hir::Var { name, ty } = var;
    match try_layout_of(ty) {
        Ok(l) => match lower_layout_with(cx, l) {
            Some(lt) => Ok(lir::Var::new(name, lt)),
            None => Err(LowerError::NoPayload),
        },
        Err(x) => Err(LowerError::Type(x)),
    }
}

fn lower_variant_expr(cx: &mut Ctxt, layout: VariantLayout, variant: Name, field: hir::Expr) -> (r: Result<
    lir::Expr,
    LowerError,
>)
    ensures
        final(cx).tag == old(cx).tag,
        final(cx).data == old(cx).data,
        lowered_as(
            r,
            *final(cx),
            lower_variant_spec(layout, variant, field, old(cx).next_temp_var, old(cx).tag, old(cx).data),
        ),
    decreases field, 3nat,
{
    let f = match lower_expr(cx, field) {
        Ok(f) => f,
        Err(x) => return Err(x),
    };
    let field_ty = match f.try_ty() {
        Some(t) => t,
        None => return Err(LowerError::IllTyped),
    };
    match layout {
        VariantLayout::Single { field: _ } => Ok(f),
        VariantLayout::Tagged(TaggedLayout { tag, variants }) => match tag {
            TagLayout::Direct { values, niches: _ } => {
                let tv = match find(&values, &variant) {
                    Some(v) => *v,
                    None => return Err(LowerError::UnknownVariant),
                };
                let u = match lower_layouts(cx, *variants) {
                    Some(u) => u,
                    None => return Err(LowerError::NoPayload),
                };
                let union_expr = lir::Expr::UntaggedUnion {
                    ty: lir::Ty::UntaggedUnion(Box::new(u)),
                    field: variant,
                    value: Box::new(f),
                };
                Ok(
                    lir::Expr::Record(
                        Box::new(
                            List::Cons(
                                (cx.tag.clone(), lir::Expr::U64(tv)),
                                Box::new(List::Cons((cx.data.clone(), union_expr), Box::new(List::Nil))),
                            ),
                        ),
                    ),
                )
            },
            TagLayout::Niche { path, values } => {
                if field_ty.is_zst() {
                    match find(&values, &variant) {
                        Some(v) => Ok(construct_with(cx, path.reversed, lir::Expr::U64(*v))),
                        None => Err(LowerError::UnknownVariant),
                    }
                } else {
                    Ok(f)
                }
            },
        },
    }
}

fn lower_match(cx: &mut Ctxt, hir_subj: hir::Expr, hir_cases: List<(hir::Pat, hir::Expr)>, Ghost(e): Ghost<
    hir::Expr,
>) -> (r: Result<lir::Expr, LowerError>)
    requires
        e == (hir::Expr::Match { subj: Box::new(hir_subj), cases: Box::new(hir_cases) }),
    ensures
        final(cx).tag == old(cx).tag,
        final(cx).data == old(cx).data,
        lowered_as(r, *final(cx), lower_match_spec(e, old(cx).next_temp_var, old(cx).tag, old(cx).data)),
    decreases e, 1nat,
{
    let subj_hir_ty = match hir_subj.try_ty() {
        Ok(t) => t,
        Err(x) => return Err(LowerError::Type(x)),
    };
    proof {
        lemma_type_of_valid(hir_subj);
    }
    let subj_layout = match try_layout_of(subj_hir_ty) {
        Ok(l) => l,
        Err(x) => return Err(LowerError::Type(x)),
    };
    let lir_subj_expr = match lower_expr(cx, hir_subj) {
        Ok(x) => x,
        Err(err) => return Err(err),
    };
    let lt = match lir_subj_expr.try_ty() {
        Some(t) => t,
        None => return Err(LowerError::IllTyped),
    };
    let lir_subj = match cx.temp_var(lt) {
        Ok(v) => v,
        Err(err) => return Err(err),
    };
    let match_lir = match subj_layout {
        Layout::Variant(layout) => lower_variant_match(cx, layout, lir_subj.clone(), hir_cases),
        _ => Err(LowerError::UnsupportedMatch),
    };
    match match_lir {
        Ok(m) => Ok(lir::Expr::Let { binder: lir_subj, value: Box::new(lir_subj_expr), body: Box::new(m) }),
        Err(err) => Err(err),
    }
}

fn lower_variant_match(
    cx: &mut Ctxt,
    layout: VariantLayout,
    lir_subj: lir::Var,
    hir_cases: List<(hir::Pat, hir::Expr)>,
) -> (r: Result<lir::Expr, LowerError>)
    ensures
        final(cx).tag == old(cx).tag,
        final(cx).data == old(cx).data,
        lowered_as(
            r,
            *final(cx),
            lower_variant_match_spec(layout, lir_subj, hir_cases, old(cx).next_temp_var, old(cx).tag, old(cx).data),
        ),
    decreases hir_cases, 7nat,
{
    match layout {
        VariantLayout::Single { field: _ } => lower_single_variant_match(cx, lir_subj, hir_cases),
        VariantLayout::Tagged(lyt) => {
            if !keyless_at_most_one(&lyt, &hir_cases, false) {
                return Err(LowerError::DuplicateDefault);
            }
            lower_tagged_variant_match(cx, lyt, lir_subj, hir_cases)
        },
    }
}

/// Whether at most one case (counting one already seen) falls to the
/// default arm.
fn keyless_at_most_one(lyt: &TaggedLayout, cases: &List<(hir::Pat, hir::Expr)>, seen: bool) -> (r: bool)
    ensures
        r == (keyless_count(*lyt, *cases) + (if seen {
            1nat
        } else {
            0nat
        }) <= 1),
    decreases cases,
{
    match cases {
        List::Nil => true,
        List::Cons(hd, rest) => {
            let keyless = match (&lyt.tag, &hd.0) {
                (TagLayout::Niche { values, .. }, hir::Pat::Variant { variant, .. }) => find(values, variant).is_none(),
                _ => false,
            };
            if keyless && seen {
                false
            } else {
                keyless_at_most_one(lyt, rest, seen || keyless)
            }
        },
    }
}

fn lower_single_variant_match(cx: &mut Ctxt, lir_subj: lir::Var, hir_cases: List<(hir::Pat, hir::Expr)>) -> (r:
    Result<lir::Expr, LowerError>)
    ensures
        final(cx).tag == old(cx).tag,
        final(cx).data == old(cx).data,
        lowered_as(
            r,
            *final(cx),
            lower_single_match_spec(lir_subj, hir_cases, old(cx).next_temp_var, old(cx).tag, old(cx).data),
        ),
    decreases hir_cases, 6nat,
{
    match hir_cases {
        List::Cons(hd, tl) => match *tl {
            List::Nil => {
                let (pat, body) = hd;
                match pat {
                    hir::Pat::Variant { ty: _, variant: _, field } => lower_match_arm_body(
                        cx,
                        (field, lir::Expr::Var(lir_subj)),
                        body,
                    ),
                }
            },
            _ => Err(LowerError::CaseCount),
        },
        List::Nil => Err(LowerError::CaseCount),
    }
}

fn lower_match_arm_body(cx: &mut Ctxt, binding: (hir::Var, lir::Expr), body: hir::Expr) -> (r: Result<
    lir::Expr,
    LowerError,
>)
    ensures
        final(cx).tag == old(cx).tag,
        final(cx).data == old(cx).data,
        lowered_as(
            r,
            *final(cx),
            arm_body_spec(binding.0, binding.1, body, old(cx).next_temp_var, old(cx).tag, old(cx).data),
        ),
    decreases body, 3nat,
{
    let (binder, value) = binding;
    let lb = match lower_var(cx, binder) {
        Ok(v) => v,
        Err(x) => return Err(x),
    };
    match lower_expr(cx, body) {
        Ok(lbody) => Ok(lir::Expr::Let { binder: lb, value: Box::new(value), body: Box::new(lbody) }),
        Err(x) => Err(x),
    }
}

fn lower_tagged_variant_match_arm(
    cx: &mut Ctxt,
    lyt: &TaggedLayout,
    lir_subj: lir::Var,
    pat: hir::Pat,
    body: hir::Expr,
) -> (r: Result<(Option<u64>, lir::Expr), LowerError>)
    ensures
        final(cx).tag == old(cx).tag,
        final(cx).data == old(cx).data,
        match arm_spec(*lyt, lir_subj, pat, body, old(cx).next_temp_var, old(cx).tag, old(cx).data) {
            Ok((k, b, n)) => r == Ok::<(Option<u64>, lir::Expr), LowerError>((k, b))
                && final(cx).next_temp_var == n,
            Err(e) => r == Err::<(Option<u64>, lir::Expr), LowerError>(e),
        },
    decreases body, 4nat,
{
    match pat {
        hir::Pat::Variant { ty: _, variant, field } => match &lyt.tag {
            TagLayout::Direct { values, niches: _ } => {
                let select_field = lir::Expr::Select {
                    record: Box::new(lir::Expr::Var(lir_subj)),
                    field: cx.data.clone(),
                };
                let b = match lower_match_arm_body(cx, (field, select_field), body) {
                    Ok(b) => b,
                    Err(x) => return Err(x),
                };
                match find(values, &variant) {
                    Some(k) => Ok((Some(*k), b)),
                    None => Err(LowerError::UnknownVariant),
                }
            },
            TagLayout::Niche { path: _, values } => {
                let b = match lower_match_arm_body(cx, (field, lir::Expr::Var(lir_subj)), body) {
                    Ok(b) => b,
                    Err(x) => return Err(x),
                };
                match find(values, &variant) {
                    Some(k) => Ok((Some(*k), b)),
                    None => Ok((None, b)),
                }
            },
        },
    }
}

fn lower_tagged_arms(
    cx: &mut Ctxt,
    lyt: &TaggedLayout,
    lir_subj: &lir::Var,
    cases: List<(hir::Pat, hir::Expr)>,
    default: Option<lir::Expr>,
) -> (r: Result<(List<(u64, lir::Expr)>, Option<lir::Expr>), LowerError>)
    requires
        keyless_count(*lyt, cases) + (if default is Some {
            1nat
        } else {
            0nat
        }) <= 1,
    ensures
        final(cx).tag == old(cx).tag,
        final(cx).data == old(cx).data,
        match arms_spec(*lyt, *lir_subj, cases, default, old(cx).next_temp_var, old(cx).tag, old(cx).data) {
            Ok((cs, def, n)) => r == Ok::<(List<(u64, lir::Expr)>, Option<lir::Expr>), LowerError>((cs, def))
                && final(cx).next_temp_var == n,
            Err(e) => r == Err::<(List<(u64, lir::Expr)>, Option<lir::Expr>), LowerError>(e),
        },
    decreases cases, 5nat,
{
    match cases {
        List::Nil => Ok((List::Nil, default)),
        List::Cons(hd, tl) => {
            let (p, e) = hd;
            let (key, b) = match lower_tagged_variant_match_arm(cx, lyt, lir_subj.clone(), p, e) {
                Ok(kb) => kb,
                Err(x) => return Err(x),
            };
            match key {
                Some(k) => match lower_tagged_arms(cx, lyt, lir_subj, *tl, default) {
                    Ok((cs, def)) => Ok((List::Cons((k, b), Box::new(cs)), def)),
                    Err(x) => Err(x),
                },
                None => lower_tagged_arms(cx, lyt, lir_subj, *tl, Some(b)),
            }
        },
    }
}

fn lower_tagged_variant_match(
    cx: &mut Ctxt,
    lyt: TaggedLayout,
    lir_subj: lir::Var,
    hir_cases: List<(hir::Pat, hir::Expr)>,
) -> (r: Result<lir::Expr, LowerError>)
    requires
        keyless_count(lyt, hir_cases) <= 1,
    ensures
        final(cx).tag == old(cx).tag,
        final(cx).data == old(cx).data,
        lowered_as(
            r,
            *final(cx),
            lower_tagged_match_spec(lyt, lir_subj, hir_cases, old(cx).next_temp_var, old(cx).tag, old(cx).data),
        ),
    decreases hir_cases, 6nat,
{
    let (cases, default) = match lower_tagged_arms(cx, &lyt, &lir_subj, hir_cases, None) {
        Ok(cd) => cd,
        Err(x) => return Err(x),
    };
    let switch_subj_expr = match lyt.tag {
        TagLayout::Direct { .. } => lir::Expr::Select {
            record: Box::new(lir::Expr::Var(lir_subj)),
            field: cx.tag.clone(),
        },
        TagLayout::Niche { path, values: _ } => select_with(cx, lir::Expr::Var(lir_subj), path.reversed),
    };
    let st = match switch_subj_expr.try_ty() {
        Some(t) => t,
        None => return Err(LowerError::IllTyped),
    };
    let switch_subj = match cx.temp_var(st) {
        Ok(v) => v,
        Err(x) => return Err(x),
    };
    let default = match default {
        Some(b) => Some(Box::new(b)),
        None => None,
    };
    let switch_expr = lir::Expr::Switch { subj: switch_subj.clone(), cases: Box::new(cases), default };
    Ok(lir::Expr::Let { binder: switch_subj, value: Box::new(switch_subj_expr), body: Box::new(switch_expr) })
}

/// Reading along a path what was built along the same path gives back what
/// was put in: where `x` holds the value of `construct_spec(rev, acc)`,
/// projecting `x` along `rev` evaluates to the value of `acc`.
pub proof fn lemma_select_after_construct(
    rev: List<ValueProj>,
    acc: lir::Expr,
    a: lir::Value,
    env0: List<(Name, lir::Value)>,
    env: List<(Name, lir::Value)>,
    x: lir::Var,
    t: Name,
    d: Name,
)
    requires
        eval_spec(env0, acc) == Ok::<lir::Value, EvalError>(a),
        eval_spec(env0, construct_spec(rev, acc, t, d)) matches Ok(cv) && lookup(env, x.name) == Some(cv),
    ensures
        eval_spec(env, select_spec(rev, lir::Expr::Var(x), t, d)) == Ok::<lir::Value, EvalError>(a),
    decreases rev,
{
    match rev {
        List::Nil => {},
        List::Cons(p, tl) => {
            let w = wrap_spec(p, acc, t, d);
            let wv = match p {
                ValueProj::Field(n) => lir::Value::Record(Box::new(List::Cons((n, a), Box::new(List::Nil)))),
                ValueProj::Variant { repr: VariantRepr::Wrapper, .. } => lir::Value::Record(
                    Box::new(List::Cons((d, a), Box::new(List::Nil))),
                ),
                ValueProj::Variant { repr: VariantRepr::Transparent, .. } => a,
                ValueProj::Tag => lir::Value::Record(Box::new(List::Cons((t, a), Box::new(List::Nil)))),
            };
            match p {
                ValueProj::Field(n) => {
                    let fs = List::Cons((n, acc), Box::new(List::<(Name, lir::Expr)>::Nil));
                    assert(eval_fields_spec(env0, List::<(Name, lir::Expr)>::Nil) == Ok::<List<(Name, lir::Value)>, EvalError>(List::Nil));
                    assert(eval_fields_spec(env0, fs) == Ok::<List<(Name, lir::Value)>, EvalError>(List::Cons((n, a), Box::new(List::Nil))));
                },
                ValueProj::Variant { repr: VariantRepr::Wrapper, .. } => {
                    let fs = List::Cons((d, acc), Box::new(List::<(Name, lir::Expr)>::Nil));
                    assert(eval_fields_spec(env0, List::<(Name, lir::Expr)>::Nil) == Ok::<List<(Name, lir::Value)>, EvalError>(List::Nil));
                    assert(eval_fields_spec(env0, fs) == Ok::<List<(Name, lir::Value)>, EvalError>(List::Cons((d, a), Box::new(List::Nil))));
                },
                ValueProj::Variant { repr: VariantRepr::Transparent, .. } => {},
                ValueProj::Tag => {
                    let fs = List::Cons((t, acc), Box::new(List::<(Name, lir::Expr)>::Nil));
                    assert(eval_fields_spec(env0, List::<(Name, lir::Expr)>::Nil) == Ok::<List<(Name, lir::Value)>, EvalError>(List::Nil));
                    assert(eval_fields_spec(env0, fs) == Ok::<List<(Name, lir::Value)>, EvalError>(List::Cons((t, a), Box::new(List::Nil))));
                },
            }
            assert(eval_spec(env0, w) == Ok::<lir::Value, EvalError>(wv));
            lemma_select_after_construct(*tl, w, wv, env0, env, x, t, d);
        },
    }
}

/// The tag value that a match reads at a niche's path is the one that
/// construction stored there: for every path and tag value, projecting the
/// constructed value along the path evaluates to that tag value.
pub proof fn lemma_niche_tag_round_trip(
    rev: List<ValueProj>,
    v: u64,
    env: List<(Name, lir::Value)>,
    x: lir::Var,
    t: Name,
    d: Name,
)
    requires
        eval_spec(List::Nil, construct_spec(rev, lir::Expr::U64(v), t, d)) matches Ok(cv) && lookup(env, x.name)
            == Some(cv),
    ensures
        eval_spec(env, select_spec(rev, lir::Expr::Var(x), t, d)) == Ok::<lir::Value, EvalError>(lir::Value::U64(v)),
{
    lemma_select_after_construct(rev, lir::Expr::U64(v), lir::Value::U64(v), List::Nil, env, x, t, d);
}

/// `match <n = v> as τ { <n = b : _> as τ => b }`.
pub open spec fn single_case_match(tau: hir::Ty, n: Name, v: hir::Expr, b: hir::Var) -> hir::Expr {
    hir::Expr::Match {
        subj: Box::new(hir::Expr::Variant { ty: tau, variant: n, field: Box::new(v) }),
        cases: Box::new(
            List::Cons(
                (hir::Pat::Variant { ty: tau, variant: n, field: b }, hir::Expr::Var(b)),
                Box::new(List::Nil),
            ),
        ),
    }
}

/// The lowered subject of a direct-tagged variant: `{tag = k, data = <n = f>}`.
proof fn lemma_direct_subject(tau: hir::Ty, n: Name, v: hir::Expr, n0: u64, t: Name, d: Name)
    requires
        type_of(hir::Expr::Variant { ty: tau, variant: n, field: Box::new(v) }) is Ok,
        layout_of_spec(tau) matches Layout::Variant(VariantLayout::Tagged(tl)) && tl.tag is Direct,
        lower_spec(hir::Expr::Variant { ty: tau, variant: n, field: Box::new(v) }, n0, t, d) is Ok,
    ensures
        ({
            let tl = layout_of_spec(tau)->Variant_0->Tagged_0;
            let (f, n1) = lower_spec(v, n0, t, d).unwrap();
            lower_spec(v, n0, t, d) is Ok && lookup(tl.tag->Direct_values, n) is Some && lower_layouts_spec(*tl.variants, t, d) is Some
            && lower_spec(hir::Expr::Variant { ty: tau, variant: n, field: Box::new(v) }, n0, t, d) == Ok::<(lir::Expr, u64), LowerError>(
                (
                    lir::Expr::Record(
                        Box::new(
                            List::Cons(
                                (t, lir::Expr::U64(lookup(tl.tag->Direct_values, n).unwrap())),
                                Box::new(
                                    List::Cons(
                                        (
                                            d,
                                            lir::Expr::UntaggedUnion {
                                                ty: lir::Ty::UntaggedUnion(
                                                    Box::new(lower_layouts_spec(*tl.variants, t, d).unwrap()),
                                                ),
                                                field: n,
                                                value: Box::new(f),
                                            },
                                        ),
                                        Box::new(List::Nil),
                                    ),
                                ),
                            ),
                        ),
                    ),
                    n1,
                ),
            )
        }),
{
    let subj = hir::Expr::Variant { ty: tau, variant: n, field: Box::new(v) };
    let tl = layout_of_spec(tau)->Variant_0->Tagged_0;
    assert(lower_spec(subj, n0, t, d) == lower_variant_spec(VariantLayout::Tagged(tl), n, v, n0, t, d));
}

/// Evaluating `let x = {tag = k, data = <n = f>} in let y = x.tag in switch y
/// { k => let b = x.data in b }` gives the value of `f`.
proof fn lemma_direct_eval(
    k: u64,
    ut: lir::Ty,
    n: Name,
    f: lir::Expr,
    x: lir::Var,
    y: lir::Var,
    lb: lir::Var,
    t: Name,
    d: Name,
)
    requires
        reserved(t, d),
        !same_name(y.name, x.name),
        eval_spec(List::Nil, f) is Ok,
    ensures
        ({
            let data = lir::Expr::UntaggedUnion { ty: ut, field: n, value: Box::new(f) };
            let ls = lir::Expr::Record(
                Box::new(List::Cons((t, lir::Expr::U64(k)), Box::new(List::Cons((d, data), Box::new(List::Nil))))),
            );
            let arm = lir::Expr::Let {
                binder: lb,
                value: Box::new(lir::Expr::Select { record: Box::new(lir::Expr::Var(x)), field: d }),
                body: Box::new(lir::Expr::Var(lb)),
            };
            let sse = lir::Expr::Select { record: Box::new(lir::Expr::Var(x)), field: t };
            let sw = lir::Expr::Switch { subj: y, cases: Box::new(List::Cons((k, arm), Box::new(List::Nil))), default: None };
            let m = lir::Expr::Let {
                binder: x,
                value: Box::new(ls),
                body: Box::new(lir::Expr::Let { binder: y, value: Box::new(sse), body: Box::new(sw) }),
            };
            eval_spec(List::Nil, m) == eval_spec(List::Nil, f)
        }),
{
    let fv = eval_spec(List::Nil, f).unwrap();
    let data = lir::Expr::UntaggedUnion { ty: ut, field: n, value: Box::new(f) };
    let ls = lir::Expr::Record(
        Box::new(List::Cons((t, lir::Expr::U64(k)), Box::new(List::Cons((d, data), Box::new(List::Nil))))),
    );
    let arm = lir::Expr::Let {
        binder: lb,
        value: Box::new(lir::Expr::Select { record: Box::new(lir::Expr::Var(x)), field: d }),
        body: Box::new(lir::Expr::Var(lb)),
    };
    let sse = lir::Expr::Select { record: Box::new(lir::Expr::Var(x)), field: t };
    let sw = lir::Expr::Switch { subj: y, cases: Box::new(List::Cons((k, arm), Box::new(List::Nil))), default: None };
    let rv = lir::Value::Record(
        Box::new(List::Cons((t, lir::Value::U64(k)), Box::new(List::Cons((d, fv), Box::new(List::Nil))))),
    );
    assert(eval_fields_spec(List::Nil, List::<(Name, lir::Expr)>::Nil) == Ok::<List<(Name, lir::Value)>, EvalError>(List::Nil));
    assert(eval_spec(List::Nil, data) == Ok::<lir::Value, EvalError>(fv));
    assert(eval_spec(List::Nil, lir::Expr::U64(k)) == Ok::<lir::Value, EvalError>(lir::Value::U64(k)));
    assert(eval_fields_spec(List::Nil, List::Cons((d, data), Box::new(List::Nil)))
        == Ok::<List<(Name, lir::Value)>, EvalError>(List::Cons((d, fv), Box::new(List::Nil))));
    assert(eval_fields_spec(List::Nil, *ls->Record_0) == Ok::<List<(Name, lir::Value)>, EvalError>(*rv->Record_0));
    assert(eval_spec(List::Nil, ls) == Ok::<lir::Value, EvalError>(rv));
    let env1 = List::Cons((x.name, rv), Box::new(List::<(Name, lir::Value)>::Nil));
    assert(same_name(x.name, x.name));
    assert(same_name(t, t));
    assert(same_name(d, d));
    assert(lookup(env1, x.name) == Some(rv));
    assert(eval_spec(env1, lir::Expr::Var(x)) == Ok::<lir::Value, EvalError>(rv));
    assert(lookup(*rv->Record_0, t) == Some(lir::Value::U64(k)));
    assert(eval_spec(env1, sse) == Ok::<lir::Value, EvalError>(lir::Value::U64(k)));
    let env2 = List::Cons((y.name, lir::Value::U64(k)), Box::new(env1));
    assert(!same_name(t, d));
    assert(lookup(env2, x.name) == Some(rv));
    assert(eval_spec(env2, lir::Expr::Var(x)) == Ok::<lir::Value, EvalError>(rv));
    assert(lookup(List::Cons((d, fv), Box::new(List::<(Name, lir::Value)>::Nil)), d) == Some(fv));
    assert(lookup(*rv->Record_0, d) == Some(fv));
    assert(eval_spec(env2, lir::Expr::Select { record: Box::new(lir::Expr::Var(x)), field: d }) == Ok::<lir::Value, EvalError>(fv));
    let env3 = List::Cons((lb.name, fv), Box::new(env2));
    assert(same_name(lb.name, lb.name));
    assert(eval_spec(env3, lir::Expr::Var(lb)) == Ok::<lir::Value, EvalError>(fv));
    assert(eval_spec(env2, arm) == Ok::<lir::Value, EvalError>(fv));
    assert(eval_case_spec(env2, List::Cons((k, arm), Box::new(List::Nil)), k) == Some(Ok::<lir::Value, EvalError>(fv)));
    assert(same_name(y.name, y.name));
    assert(lookup(env2, y.name) == Some(lir::Value::U64(k)));
    assert(eval_spec(env2, sw) == Ok::<lir::Value, EvalError>(fv));
    assert(eval_spec(env1, lir::Expr::Let { binder: y, value: Box::new(sse), body: Box::new(sw) })
        == Ok::<lir::Value, EvalError>(fv));
}

/// The one case `<n = b> => b` under a direct tag becomes the arm keyed by
/// `n`'s tag value that binds `b` to `x.data` and returns it.
proof fn lemma_direct_single_arm(tl: TaggedLayout, x: lir::Var, tau: hir::Ty, n: Name, b: hir::Var, n1: u64, t: Name, d: Name)
    requires
        tl.tag is Direct,
        arms_spec(
            tl,
            x,
            List::Cons(((hir::Pat::Variant { ty: tau, variant: n, field: b }), hir::Expr::Var(b)), Box::new(List::Nil)),
            None,
            n1,
            t,
            d,
        ) is Ok,
    ensures
        lower_var_spec(b, t, d) is Ok,
        lookup(tl.tag->Direct_values, n) is Some,
        arms_spec(
            tl,
            x,
            List::Cons(((hir::Pat::Variant { ty: tau, variant: n, field: b }), hir::Expr::Var(b)), Box::new(List::Nil)),
            None,
            n1,
            t,
            d,
        ) == Ok::<(List<(u64, lir::Expr)>, Option<lir::Expr>, u64), LowerError>(
            (
                List::Cons(
                    (
                        lookup(tl.tag->Direct_values, n).unwrap(),
                        lir::Expr::Let {
                            binder: lower_var_spec(b, t, d).unwrap(),
                            value: Box::new(lir::Expr::Select { record: Box::new(lir::Expr::Var(x)), field: d }),
                            body: Box::new(lir::Expr::Var(lower_var_spec(b, t, d).unwrap())),
                        },
                    ),
                    Box::new(List::Nil),
                ),
                None,
                n1,
            ),
        ),
{
    let pat = hir::Pat::Variant { ty: tau, variant: n, field: b };
    let sel = lir::Expr::Select { record: Box::new(lir::Expr::Var(x)), field: d };
    assert(arm_spec(tl, x, pat, hir::Expr::Var(b), n1, t, d) is Ok);
    assert(arm_body_spec(b, sel, hir::Expr::Var(b), n1, t, d) is Ok);
    assert(lower_var_spec(b, t, d) is Ok);
    let lb = lower_var_spec(b, t, d).unwrap();
    assert(lower_spec(hir::Expr::Var(b), n1, t, d) == Ok::<(lir::Expr, u64), LowerError>((lir::Expr::Var(lb), n1)));
    assert(arms_spec(tl, x, List::<(hir::Pat, hir::Expr)>::Nil, None, n1, t, d)
        == Ok::<(List<(u64, lir::Expr)>, Option<lir::Expr>, u64), LowerError>((List::Nil, None, n1)));
}

/// Constructing a variant of a type with a direct tag and matching it with a
/// single case that binds the variant's field and returns it evaluates to the
/// value of the lowered field, wherever lowering succeeds.
///
/// Under a niche tag the round trip differs for a zero-sized variant: its
/// case binds the field to the whole encoded subject, which holds the
/// variant's tag value at the niche's path (`lemma_niche_tag_round_trip`)
/// rather than the value of the lowered field; the two carry the same
/// information, none.
pub proof fn lemma_direct_match_round_trip(tau: hir::Ty, n: Name, v: hir::Expr, b: hir::Var, n0: u64, t: Name, d: Name)
    requires
        reserved(t, d),
        layout_of_spec(tau) matches Layout::Variant(VariantLayout::Tagged(tl)) && tl.tag is Direct,
        lower_spec(single_case_match(tau, n, v, b), n0, t, d) is Ok,
        lower_spec(v, n0, t, d) matches Ok((f, _)) && eval_spec(List::Nil, f) is Ok,
    ensures
        lower_spec(single_case_match(tau, n, v, b), n0, t, d) matches Ok((m, _)) && lower_spec(v, n0, t, d) matches Ok(
            (f, _),
        ) && eval_spec(List::Nil, m) == eval_spec(List::Nil, f),
{
    let e = single_case_match(tau, n, v, b);
    let subj = hir::Expr::Variant { ty: tau, variant: n, field: Box::new(v) };
    let cases = List::Cons(
        (hir::Pat::Variant { ty: tau, variant: n, field: b }, hir::Expr::Var(b)),
        Box::new(List::<(hir::Pat, hir::Expr)>::Nil),
    );
    assert(lower_spec(e, n0, t, d) == lower_match_spec(e, n0, t, d));
    assert(type_of(subj) is Ok);
    let st = type_of(subj).unwrap();
    assert(st == tau);
    assert(lower_spec(subj, n0, t, d) is Ok);
    lemma_direct_subject(tau, n, v, n0, t, d);
    let tl = layout_of_spec(tau)->Variant_0->Tagged_0;
    let (ls, n1) = lower_spec(subj, n0, t, d).unwrap();
    let lt = lir_type_of(ls).unwrap();
    let x = lir::Var { name: Name::Temp(n1), ty: lt };
    assert(lower_variant_match_spec(VariantLayout::Tagged(tl), x, cases, (n1 + 1) as u64, t, d)
        == lower_tagged_match_spec(tl, x, cases, (n1 + 1) as u64, t, d));
    assert(lower_tagged_match_spec(tl, x, cases, (n1 + 1) as u64, t, d) is Ok);
    lemma_direct_single_arm(tl, x, tau, n, b, (n1 + 1) as u64, t, d);
    let lb = lower_var_spec(b, t, d).unwrap();
    let k = lookup(tl.tag->Direct_values, n).unwrap();
    let sse = lir::Expr::Select { record: Box::new(lir::Expr::Var(x)), field: t };
    let y = lir::Var { name: Name::Temp((n1 + 1) as u64), ty: lir_type_of(sse).unwrap() };
    let (f, _) = lower_spec(v, n0, t, d).unwrap();
    let u = lower_layouts_spec(*tl.variants, t, d).unwrap();
    lemma_direct_eval(k, lir::Ty::UntaggedUnion(Box::new(u)), n, f, x, y, lb, t, d);
}

} // verus!
