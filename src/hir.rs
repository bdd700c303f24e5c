//! The high-level IR: types with records, tagged variants and iso-recursive
//! types, and the expressions over them.

use vstd::prelude::*;

use crate::debruijn::Debruijn;
use crate::list::List;
use crate::name::Name;

pub mod ty_subst;
pub mod typeck;

verus! {

/// A high-level type.
#[derive(Debug, PartialEq, Eq)]
pub enum Ty {
    U64,
    Box(Box<Ty>),
    Record(Box<List<(Name, Ty)>>),
    Variant(Box<List<(Name, Ty)>>),
    /// `µX. body`; `X` is `Named(0)` directly under it.
    Recursive(Box<Ty>),
    Named(Debruijn),
}

/// A variable with its type annotation.
#[derive(Debug, PartialEq, Eq)]
pub struct Var {
    pub name: Name,
    pub ty: Ty,
}

/// A pattern: `<variant = field : τ> as ty`.
#[derive(Debug, PartialEq, Eq)]
pub enum Pat {
    Variant { ty: Ty, variant: Name, field: Var },
}

/// A high-level expression.
#[derive(Debug, PartialEq, Eq)]
pub enum Expr {
    Var(Var),
    U64(u64),
    Box(Box<Expr>),
    Record(Box<List<(Name, Expr)>>),
    /// `ty` is the whole variant type.
    Variant { ty: Ty, variant: Name, field: Box<Expr> },
    Fold { ty: Ty, value: Box<Expr> },
    Unfold { ty: Ty, value: Box<Expr> },
    Let { binder: Var, value: Box<Expr>, body: Box<Expr> },
    Match { subj: Box<Expr>, cases: Box<List<(Pat, Expr)>> },
}

/// Copies a list of named types.
pub fn clone_ty_fields(fs: &List<(Name, Ty)>) -> (r: List<(Name, Ty)>)
    ensures
        r == *fs,
    decreases fs,
{
    match fs {
        List::Nil => List::Nil,
        List::Cons(hd, tl) => List::Cons((hd.0.clone(), hd.1.clone()), Box::new(clone_ty_fields(tl))),
    }
}

impl Clone for Ty {
    fn clone(&self) -> (r: Ty)
        ensures
            r == *self,
        decreases self,
    {
        match self {
            Ty::U64 => Ty::U64,
            Ty::Box(b) => Ty::Box(Box::new((**b).clone())),
            Ty::Record(fs) => Ty::Record(Box::new(clone_ty_fields(fs))),
            Ty::Variant(vs) => Ty::Variant(Box::new(clone_ty_fields(vs))),
            Ty::Recursive(b) => Ty::Recursive(Box::new((**b).clone())),
            Ty::Named(k) => Ty::Named(*k),
        }
    }
}

impl Clone for Var {
    fn clone(&self) -> (r: Var)
        ensures
            r == *self,
    {
        Var { name: self.name.clone(), ty: self.ty.clone() }
    }
}

impl Ty {
    /// The body of a recursive type.
    pub fn as_recursive(&self) -> (r: Option<&Ty>)
        ensures
            match *self {
                Ty::Recursive(b) => r == Some(&*b),
                _ => r is None,
            },
    {
        match self {
            Ty::Recursive(body) => Some(&**body),
            _ => None,
        }
    }
}

} // verus!
