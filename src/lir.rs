//! The low-level IR: records, untagged unions, pointers and integer switches.

use vstd::prelude::*;

use crate::debruijn::Debruijn;
use crate::list::List;
use crate::name::{same_name, Name};

pub mod size;

verus! {

/// A low-level expression.
#[derive(Debug, PartialEq, Eq)]
pub enum Expr {
    Var(Var),
    U64(u64),
    Record(Box<List<(Name, Expr)>>),
    UntaggedUnion { ty: Ty, field: Name, value: Box<Expr> },
    Box(Box<Expr>),
    Deref(Box<Expr>),
    Select { record: Box<Expr>, field: Name },
    /// Picks the first case whose key is the value of `subj`, else `default`.
    Switch { subj: Var, cases: Box<List<(u64, Expr)>>, default: Option<Box<Expr>> },
    Let { binder: Var, value: Box<Expr>, body: Box<Expr> },
}

/// A value computed by the evaluator.
#[derive(Debug, PartialEq, Eq)]
pub enum Value {
    U64(u64),
    Record(Box<List<(Name, Value)>>),
    Box(Box<Value>),
}

#[derive(Debug, PartialEq, Eq)]
pub struct Var {
    pub name: Name,
    pub ty: Ty,
}

/// A low-level type.
#[derive(Debug, PartialEq, Eq)]
pub enum Ty {
    U64,
    Ptr(Box<Ty>),
    Record(Box<List<(Name, Ty)>>),
    UntaggedUnion(Box<List<(Name, Ty)>>),
    Recursive(Box<Ty>),
    RecurId(Debruijn),
}

/// The value of the first entry named `n`.
pub open spec fn lookup<T>(fs: List<(Name, T)>, n: Name) -> Option<T>
    decreases fs,
{
    match fs {
        List::Nil => None,
        List::Cons(hd, tl) => if same_name(hd.0, n) {
            Some(hd.1)
        } else {
            lookup(*tl, n)
        },
    }
}

/// No two entries have the same name, as in a map.
pub open spec fn keys_distinct<T>(fs: List<(Name, T)>) -> bool
    decreases fs,
{
    match fs {
        List::Nil => true,
        List::Cons(hd, tl) => lookup(*tl, hd.0) is None && keys_distinct(*tl),
    }
}

/// The first entry named `n`.
pub fn find<'a, T>(fs: &'a List<(Name, T)>, n: &Name) -> (r: Option<&'a T>)
    ensures
        match lookup(*fs, *n) {
            Some(v) => r == Some(&v),
            None => r is None,
        },
    decreases fs,
{
    match fs {
        List::Nil => None,
        List::Cons(hd, tl) => if hd.0.same(n) {
            Some(&hd.1)
        } else {
            find(tl, n)
        },
    }
}

pub fn clone_lir_ty_fields(fs: &List<(Name, Ty)>) -> (r: List<(Name, Ty)>)
    ensures
        r == *fs,
    decreases fs,
{
    match fs {
        List::Nil => List::Nil,
        List::Cons(hd, tl) => List::Cons((hd.0.clone(), hd.1.clone()), Box::new(clone_lir_ty_fields(tl))),
    }
}

impl Clone for Ty {
    fn clone(&self) -> (r: Ty)
        ensures
            r == *self,
        decreases self,
    {
        match self {
            Ty::U64 => Ty::U64,
            Ty::Ptr(b) => Ty::Ptr(Box::new((**b).clone())),
            Ty::Record(fs) => Ty::Record(Box::new(clone_lir_ty_fields(fs))),
            Ty::UntaggedUnion(fs) => Ty::UntaggedUnion(Box::new(clone_lir_ty_fields(fs))),
            Ty::Recursive(b) => Ty::Recursive(Box::new((**b).clone())),
            Ty::RecurId(k) => Ty::RecurId(*k),
        }
    }
}

impl Clone for Var {
    fn clone(&self) -> (r: Var)
        ensures
            r == *self,
    {
        Var { name: self.name.clone(), ty: self.ty.clone() }
    }
}

pub fn clone_value_fields(fs: &List<(Name, Value)>) -> (r: List<(Name, Value)>)
    ensures
        r == *fs,
    decreases fs,
{
    match fs {
        List::Nil => List::Nil,
        List::Cons(hd, tl) => List::Cons((hd.0.clone(), hd.1.clone()), Box::new(clone_value_fields(tl))),
    }
}

impl Clone for Value {
    fn clone(&self) -> (r: Value)
        ensures
            r == *self,
        decreases self,
    {
        match self {
            Value::U64(n) => Value::U64(*n),
            Value::Record(fs) => Value::Record(Box::new(clone_value_fields(fs))),
            Value::Box(b) => Value::Box(Box::new((**b).clone())),
        }
    }
}

pub fn clone_expr_fields(fs: &List<(Name, Expr)>) -> (r: List<(Name, Expr)>)
    ensures
        r == *fs,
    decreases fs,
{
    match fs {
        List::Nil => List::Nil,
        List::Cons(hd, tl) => List::Cons((hd.0.clone(), hd.1.clone()), Box::new(clone_expr_fields(tl))),
    }
}

pub fn clone_cases(cs: &List<(u64, Expr)>) -> (r: List<(u64, Expr)>)
    ensures
        r == *cs,
    decreases cs,
{
    match cs {
        List::Nil => List::Nil,
        List::Cons(hd, tl) => List::Cons((hd.0, hd.1.clone()), Box::new(clone_cases(tl))),
    }
}

impl Clone for Expr {
    fn clone(&self) -> (r: Expr)
        ensures
            r == *self,
        decreases self,
    {
        match self {
            Expr::Var(v) => Expr::Var(v.clone()),
            Expr::U64(n) => Expr::U64(*n),
            Expr::Record(fs) => Expr::Record(Box::new(clone_expr_fields(fs))),
            Expr::UntaggedUnion { ty, field, value } => Expr::UntaggedUnion {
                ty: ty.clone(),
                field: field.clone(),
                value: Box::new((**value).clone()),
            },
            Expr::Box(b) => Expr::Box(Box::new((**b).clone())),
            Expr::Deref(b) => Expr::Deref(Box::new((**b).clone())),
            Expr::Select { record, field } => Expr::Select {
                record: Box::new((**record).clone()),
                field: field.clone(),
            },
            Expr::Switch { subj, cases, default } => Expr::Switch {
                subj: subj.clone(),
                cases: Box::new(clone_cases(cases)),
                default: match default {
                    Some(d) => Some(Box::new((**d).clone())),
                    None => None,
                },
            },
            Expr::Let { binder, value, body } => Expr::Let {
                binder: binder.clone(),
                value: Box::new((**value).clone()),
                body: Box::new((**body).clone()),
            },
        }
    }
}

/// The type of a low-level expression; `None` where it projects a field that
/// the record type lacks, dereferences a non-pointer, or switches without
/// cases. A switch takes the type of its first case.
pub open spec fn lir_type_of(e: Expr) -> Option<Ty>
    decreases e,
{
    match e {
        Expr::Var(v) => Some(v.ty),
        Expr::U64(_) => Some(Ty::U64),
        Expr::Record(fs) => match lir_types_of(*fs) {
            Some(f) => Some(Ty::Record(Box::new(f))),
            None => None,
        },
        Expr::UntaggedUnion { ty, .. } => Some(ty),
        Expr::Box(b) => match lir_type_of(*b) {
            Some(t) => Some(Ty::Ptr(Box::new(t))),
            None => None,
        },
        Expr::Deref(b) => match lir_type_of(*b) {
            Some(Ty::Ptr(t)) => Some(*t),
            _ => None,
        },
        Expr::Select { record, field } => match lir_type_of(*record) {
            Some(Ty::Record(fts)) => lookup(*fts, field),
            _ => None,
        },
        Expr::Switch { cases, .. } => match *cases {
            List::Nil => None,
            List::Cons(hd, _) => lir_type_of(hd.1),
        },
        Expr::Let { body, .. } => lir_type_of(*body),
    }
}

pub open spec fn lir_types_of(fs: List<(Name, Expr)>) -> Option<List<(Name, Ty)>>
    decreases fs,
{
    match fs {
        List::Nil => Some(List::Nil),
        List::Cons(hd, tl) => match (lir_type_of(hd.1), lir_types_of(*tl)) {
            (Some(t), Some(rest)) => Some(List::Cons((hd.0, t), Box::new(rest))),
            _ => None,
        },
    }
}

impl Expr {
    /// The type of an expression that has one.
    pub fn ty(&self) -> (r: Ty)
        requires
            lir_type_of(*self) is Some,
        ensures
            lir_type_of(*self) == Some(r),
    {
        match self.try_ty() {
            Some(t) => t,
            None => {
                proof {
                    assert(false);
                }
                Ty::U64
            },
        }
    }

    /// The type of the expression, as `lir_type_of` says; `None` where it
    /// has none.
    pub fn try_ty(&self) -> (r: Option<Ty>)
        ensures
            r == lir_type_of(*self),
        decreases self,
    {
        match self {
            Expr::Var(var) => Some(var.ty.clone()),
            Expr::U64(_) => Some(Ty::U64),
            Expr::Record(fs) => match types_of(fs) {
                Some(f) => Some(Ty::Record(Box::new(f))),
                None => None,
            },
            Expr::UntaggedUnion { ty, .. } => Some(ty.clone()),
            Expr::Box(b) => match b.try_ty() {
                Some(t) => Some(Ty::Ptr(Box::new(t))),
                None => None,
            },
            Expr::Deref(b) => match b.try_ty() {
                Some(Ty::Ptr(t)) => Some(*t),
                _ => None,
            },
            Expr::Select { record, field } => match record.try_ty() {
                Some(Ty::Record(fts)) => match find(&fts, field) {
                    Some(t) => Some(t.clone()),
                    None => None,
                },
                _ => None,
            },
            Expr::Switch { cases, .. } => match &**cases {
                List::Nil => None,
                List::Cons(hd, _) => hd.1.try_ty(),
            },
            Expr::Let { body, .. } => body.try_ty(),
        }
    }
}

fn types_of(fs: &List<(Name, Expr)>) -> (r: Option<List<(Name, Ty)>>)
    ensures
        r == lir_types_of(*fs),
    decreases fs,
{
    match fs {
        List::Nil => Some(List::Nil),
        List::Cons(hd, tl) => match (hd.1.try_ty(), types_of(tl)) {
            (Some(t), Some(rest)) => Some(List::Cons((hd.0.clone(), t), Box::new(rest))),
            _ => None,
        },
    }
}

impl Var {
    pub fn new(name: Name, ty: Ty) -> (r: Self)
        ensures
            r == (Var { name, ty }),
    {
        Self { name, ty }
    }

    /// The compiler's temporary number `idx`.
    pub fn temp(idx: u64, ty: Ty) -> (r: Self)
        ensures
            r == (Var { name: Name::Temp(idx), ty }),
    {
        Self { name: Name::Temp(idx), ty }
    }
}

/// Types whose values carry no runtime information.
pub open spec fn lir_ty_is_zst(t: Ty) -> bool
    decreases t,
{
    match t {
        Ty::U64 => false,
        Ty::Ptr(_) => false,
        Ty::Record(fs) => lir_all_zst(*fs),
        Ty::UntaggedUnion(fs) => lir_all_zst(*fs),
        Ty::Recursive(b) => lir_ty_is_zst(*b),
        Ty::RecurId(_) => false,
    }
}

pub open spec fn lir_all_zst(fs: List<(Name, Ty)>) -> bool
    decreases fs,
{
    match fs {
        List::Nil => true,
        List::Cons(hd, tl) => lir_ty_is_zst(hd.1) && lir_all_zst(*tl),
    }
}

impl Ty {
    pub fn is_zst(&self) -> (r: bool)
        ensures
            r == lir_ty_is_zst(*self),
        decreases self,
    {
        match self {
            Ty::U64 => false,
            Ty::Ptr(_) => false,
            Ty::Record(fs) => all_fields_zst(fs),
            Ty::UntaggedUnion(fs) => all_fields_zst(fs),
            Ty::Recursive(body) => body.is_zst(),
            Ty::RecurId(_) => false,
        }
    }
}

fn all_fields_zst(fs: &List<(Name, Ty)>) -> (r: bool)
    ensures
        r == lir_all_zst(*fs),
    decreases fs,
{
    match fs {
        List::Nil => true,
        List::Cons(hd, tl) => hd.1.is_zst() && all_fields_zst(tl),
    }
}

} // verus!
