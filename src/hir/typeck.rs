//! Type validation and the type of an expression.

use vstd::prelude::*;

use crate::debruijn::Debruijn;
use crate::hir::ty_subst::{subst_spec, subst_ty, Depth};
use crate::hir::{Expr, Ty};
use crate::list::List;
use crate::name::Name;

verus! {

/// Why a type could not be given to an expression.
#[derive(Debug, Clone, Copy, PartialEq, Eq, Structural)]
pub enum TypeError {
    /// A recursive reference not guarded by a `Box`.
    InfiniteType,
    /// `unfold` annotated with a type that is not recursive.
    NotRecursive,
    /// A `match` without cases.
    EmptyMatch,
    /// A De Bruijn index that would not fit in a `u64`.
    IndexOverflow,
}

/// Every `Named(k)` in `ty` lies under a `Box` relative to its binder: walking
/// down from depth `d`, `Recursive` adds one, `Box` resets to 0, and
/// `Named(k)` needs `k >= d`.
pub open spec fn ty_valid(ty: Ty, d: nat) -> bool
    decreases ty,
{
    match ty {
        Ty::U64 => true,
        Ty::Box(b) => ty_valid(*b, 0),
        Ty::Record(fs) => fields_valid(*fs, d),
        Ty::Variant(fs) => fields_valid(*fs, d),
        Ty::Recursive(b) => ty_valid(*b, d + 1),
        Ty::Named(k) => k.index >= d,
    }
}

pub open spec fn fields_valid(fs: List<(Name, Ty)>, d: nat) -> bool
    decreases fs,
{
    match fs {
        List::Nil => true,
        List::Cons(hd, tl) => ty_valid(hd.1, d) && fields_valid(*tl, d),
    }
}

/// The type of an expression, validated at every node.
pub open spec fn type_of(e: Expr) -> Result<Ty, TypeError>
    decreases e,
{
    let t = match e {
        Expr::Var(v) => Ok(v.ty),
        Expr::U64(_) => Ok(Ty::U64),
        Expr::Box(b) => match type_of(*b) {
            Ok(t) => Ok(Ty::Box(Box::new(t))),
            Err(x) => Err(x),
        },
        Expr::Record(fs) => match type_of_fields(*fs) {
            Ok(f) => Ok(Ty::Record(Box::new(f))),
            Err(x) => Err(x),
        },
        Expr::Variant { ty, .. } => Ok(ty),
        Expr::Fold { ty, .. } => Ok(ty),
        Expr::Unfold { ty, value } => match type_of(*value) {
            Ok(vt) => match ty {
                Ty::Recursive(body) => match subst_spec(0, vt, *body) {
                    Some(t) => Ok(t),
                    None => Err(TypeError::IndexOverflow),
                },
                _ => Err(TypeError::NotRecursive),
            },
            Err(x) => Err(x),
        },
        Expr::Let { body, .. } => type_of(*body),
        Expr::Match { cases, .. } => match *cases {
            List::Nil => Err(TypeError::EmptyMatch),
            List::Cons(hd, _) => type_of(hd.1),
        },
    };
    match t {
        Ok(t) => if ty_valid(t, 0) {
            Ok(t)
        } else {
            Err(TypeError::InfiniteType)
        },
        Err(x) => Err(x),
    }
}

pub open spec fn type_of_fields(fs: List<(Name, Expr)>) -> Result<List<(Name, Ty)>, TypeError>
    decreases fs,
{
    match fs {
        List::Nil => Ok(List::Nil),
        List::Cons(hd, tl) => match type_of(hd.1) {
            Ok(t) => match type_of_fields(*tl) {
                Ok(rest) => Ok(List::Cons((hd.0, t), Box::new(rest))),
                Err(x) => Err(x),
            },
            Err(x) => Err(x),
        },
    }
}

/// Every type that `type_of` gives is accepted by the validator.
pub proof fn lemma_type_of_valid(e: Expr)
    ensures
        type_of(e) matches Ok(t) ==> ty_valid(t, 0),
{
}

impl Expr {
    /// The type of a well-typed expression.
    pub fn ty(&self) -> (r: Ty)
        requires
            type_of(*self) is Ok,
        ensures
            type_of(*self) == Ok::<Ty, TypeError>(r),
    {
        match self.try_ty() {
            Ok(t) => t,
            Err(_) => {
                proof {
                    assert(false);
                }
                Ty::U64
            },
        }
    }

    /// The type of the expression, or why it has none; a `match` takes the
    /// type of its first case.
    pub fn try_ty(&self) -> (r: Result<Ty, TypeError>)
        ensures
            r == type_of(*self),
        decreases self,
    {
        let t = match self {
            Expr::Var(var) => Ok(var.ty.clone()),
            Expr::U64(_) => Ok(Ty::U64),
            Expr::Box(b) => match b.try_ty() {
                Ok(t) => Ok(Ty::Box(Box::new(t))),
                Err(x) => Err(x),
            },
            Expr::Record(fs) => match fields_ty(fs) {
                Ok(f) => Ok(Ty::Record(Box::new(f))),
                Err(x) => Err(x),
            },
            Expr::Variant { ty, .. } => Ok(ty.clone()),
            Expr::Fold { ty, .. } => Ok(ty.clone()),
            Expr::Unfold { ty, value } => match value.try_ty() {
                Ok(vt) => match ty.as_recursive() {
                    Some(body) => match subst_ty((Debruijn::new(0), vt), body.clone()) {
                        Some(t) => Ok(t),
                        None => Err(TypeError::IndexOverflow),
                    },
                    None => Err(TypeError::NotRecursive),
                },
                Err(x) => Err(x),
            },
            Expr::Let { body, .. } => body.try_ty(),
            Expr::Match { cases, .. } => match &**cases {
                List::Nil => Err(TypeError::EmptyMatch),
                List::Cons(hd, _) => hd.1.try_ty(),
            },
        };
        match t {
            Ok(t) => match validate_ty(&t) {
                Ok(()) => Ok(t),
                Err(x) => Err(x),
            },
            Err(x) => Err(x),
        }
    }
}

fn fields_ty(fs: &List<(Name, Expr)>) -> (r: Result<List<(Name, Ty)>, TypeError>)
    ensures
        r == type_of_fields(*fs),
    decreases fs,
{
    match fs {
        List::Nil => Ok(List::Nil),
        List::Cons(hd, tl) => match hd.1.try_ty() {
            Ok(t) => match fields_ty(tl) {
                Ok(rest) => Ok(List::Cons((hd.0.clone(), t), Box::new(rest))),
                Err(x) => Err(x),
            },
            Err(x) => Err(x),
        },
    }
}

/// Accepts exactly the types whose recursive references are all guarded by a
/// `Box`; the error is `InfiniteType`.
pub fn validate_ty(ty: &Ty) -> (r: Result<(), TypeError>)
    ensures
        r is Ok <==> ty_valid(*ty, 0),
        r is Err ==> r == Err::<(), TypeError>(TypeError::InfiniteType),
{
    if validate_ty_helper(&Depth::zero(), Ghost(0), ty) {
        Ok(())
    } else {
        Err(TypeError::InfiniteType)
    }
}

fn validate_ty_helper(max_recur_id: &Depth, Ghost(d): Ghost<nat>, ty: &Ty) -> (r: bool)
    requires
        max_recur_id.is(d),
    ensures
        r == ty_valid(*ty, d),
    decreases ty,
{
    match ty {
        Ty::U64 => true,
        Ty::Box(b) => validate_ty_helper(&Depth::zero(), Ghost(0), b),
        Ty::Record(fs) => validate_fields(max_recur_id, Ghost(d), fs),
        Ty::Variant(fs) => validate_fields(max_recur_id, Ghost(d), fs),
        Ty::Recursive(b) => validate_ty_helper(&max_recur_id.next(Ghost(d)), Ghost(d + 1), b),
        Ty::Named(k) => !max_recur_id.above(*k, Ghost(d)),
    }
}

fn validate_fields(max_recur_id: &Depth, Ghost(d): Ghost<nat>, fs: &List<(Name, Ty)>) -> (r: bool)
    requires
        max_recur_id.is(d),
    ensures
        r == fields_valid(*fs, d),
    decreases fs,
{
    match fs {
        List::Nil => true,
        List::Cons(hd, tl) => validate_ty_helper(max_recur_id, Ghost(d), &hd.1) && validate_fields(
            max_recur_id,
            Ghost(d),
            tl,
        ),
    }
}

} // verus!
