//! Shifting free indices and substituting for a recursive binder.

use vstd::prelude::*;

use crate::debruijn::Debruijn;
use crate::hir::Ty;
use crate::list::List;
use crate::name::Name;

verus! {

/// A binder depth that is exact up to `u64::MAX` and only marked as larger
/// beyond it; every index lies below such a depth.
pub(crate) struct Depth {
    pub value: u64,
    pub beyond: bool,
}

impl Depth {
    /// `self` stands for the depth `d`.
    pub(crate) open spec fn is(self, d: nat) -> bool {
        if d <= u64::MAX {
            !self.beyond && self.value == d
        } else {
            self.beyond
        }
    }

    pub(crate) fn zero() -> (r: Depth)
        ensures
            r.is(0),
    {
        Depth { value: 0, beyond: false }
    }

    pub(crate) fn from_index(k: Debruijn) -> (r: Depth)
        ensures
            r.is(k.index as nat),
    {
        Depth { value: k.index, beyond: false }
    }

    /// One binder deeper.
    pub(crate) fn next(&self, Ghost(d): Ghost<nat>) -> (r: Depth)
        requires
            self.is(d),
        ensures
            r.is(d + 1),
    {
        if self.beyond || self.value == u64::MAX {
            Depth { value: u64::MAX, beyond: true }
        } else {
            Depth { value: self.value + 1, beyond: false }
        }
    }

    /// Whether index `k` lies below this depth.
    pub(crate) fn above(&self, k: Debruijn, Ghost(d): Ghost<nat>) -> (r: bool)
        requires
            self.is(d),
        ensures
            r == (k.index < d),
    {
        self.beyond || k.index < self.value
    }
}

/// `ty` with every index at or above `cutoff` moved outward by `offset`;
/// `None` where a moved index would not fit in a `u64`.
pub open spec fn shift_spec(ty: Ty, offset: nat, cutoff: nat) -> Option<Ty>
    decreases ty,
{
    match ty {
        Ty::U64 => Some(Ty::U64),
        Ty::Box(b) => match shift_spec(*b, offset, cutoff) {
            Some(t) => Some(Ty::Box(Box::new(t))),
            None => None,
        },
        Ty::Record(fs) => match shift_fields_spec(*fs, offset, cutoff) {
            Some(f) => Some(Ty::Record(Box::new(f))),
            None => None,
        },
        Ty::Variant(fs) => match shift_fields_spec(*fs, offset, cutoff) {
            Some(f) => Some(Ty::Variant(Box::new(f))),
            None => None,
        },
        Ty::Recursive(b) => match shift_spec(*b, offset, cutoff + 1) {
            Some(t) => Some(Ty::Recursive(Box::new(t))),
            None => None,
        },
        Ty::Named(k) => if k.index < cutoff {
            Some(Ty::Named(k))
        } else if k.index + offset <= u64::MAX {
            Some(Ty::Named(Debruijn { index: (k.index + offset) as u64 }))
        } else {
            None
        },
    }
}

pub open spec fn shift_fields_spec(fs: List<(Name, Ty)>, offset: nat, cutoff: nat) -> Option<
    List<(Name, Ty)>,
>
    decreases fs,
{
    match fs {
        List::Nil => Some(List::Nil),
        List::Cons(hd, tl) => match (shift_spec(hd.1, offset, cutoff), shift_fields_spec(*tl, offset, cutoff)) {
            (Some(t), Some(rest)) => Some(List::Cons((hd.0, t), Box::new(rest))),
            _ => None,
        },
    }
}

/// `target` with `Named(j)` replaced by `with`; under a binder `j` and the
/// free indices of `with` move outward by one. `None` where an index would
/// not fit in a `u64`.
pub open spec fn subst_spec(j: nat, with: Ty, target: Ty) -> Option<Ty>
    decreases target,
{
    match target {
        Ty::U64 => Some(Ty::U64),
        Ty::Box(b) => match subst_spec(j, with, *b) {
            Some(t) => Some(Ty::Box(Box::new(t))),
            None => None,
        },
        Ty::Record(fs) => match subst_fields_spec(j, with, *fs) {
            Some(f) => Some(Ty::Record(Box::new(f))),
            None => None,
        },
        Ty::Variant(fs) => match subst_fields_spec(j, with, *fs) {
            Some(f) => Some(Ty::Variant(Box::new(f))),
            None => None,
        },
        Ty::Recursive(b) => if j + 1 > u64::MAX {
            None
        } else {
            match shift_spec(with, 1, 0) {
                Some(w) => match subst_spec(j + 1, w, *b) {
                    Some(t) => Some(Ty::Recursive(Box::new(t))),
                    None => None,
                },
                None => None,
            }
        },
        Ty::Named(k) => if k.index == j {
            Some(with)
        } else {
            Some(Ty::Named(k))
        },
    }
}

pub open spec fn subst_fields_spec(j: nat, with: Ty, fs: List<(Name, Ty)>) -> Option<
    List<(Name, Ty)>,
>
    decreases fs,
{
    match fs {
        List::Nil => Some(List::Nil),
        List::Cons(hd, tl) => match (subst_spec(j, with, hd.1), subst_fields_spec(j, with, *tl)) {
            (Some(t), Some(rest)) => Some(List::Cons((hd.0, t), Box::new(rest))),
            _ => None,
        },
    }
}

/// Replaces `Named(subst.0)` in `target` with `subst.1`, avoiding capture.
/// `None` exactly where an index would overflow.
pub fn subst_ty(subst: (Debruijn, Ty), target: Ty) -> (r: Option<Ty>)
    ensures
        r == subst_spec(subst.0.index as nat, subst.1, target),
    decreases target,
{
    let (j, with) = subst;
    match target {
        Ty::U64 => Some(Ty::U64),
        Ty::Box(b) => match subst_ty((j, with), *b) {
            Some(t) => Some(Ty::Box(Box::new(t))),
            None => None,
        },
        Ty::Record(fs) => match subst_fields((j, with), *fs) {
            Some(f) => Some(Ty::Record(Box::new(f))),
            None => None,
        },
        Ty::Variant(fs) => match subst_fields((j, with), *fs) {
            Some(f) => Some(Ty::Variant(Box::new(f))),
            None => None,
        },
        Ty::Recursive(b) => {
            if j.index == u64::MAX {
                None
            } else {
                match shift_ty(with, 1) {
                    Some(w) => match subst_ty((j.shift_by(1), w), *b) {
                        Some(t) => Some(Ty::Recursive(Box::new(t))),
                        None => None,
                    },
                    None => None,
                }
            }
        },
        Ty::Named(k) => {
            if k.index == j.index {
                Some(with)
            } else {
                Some(Ty::Named(k))
            }
        },
    }
}

fn subst_fields(subst: (Debruijn, Ty), fs: List<(Name, Ty)>) -> (r: Option<List<(Name, Ty)>>)
    ensures
        r == subst_fields_spec(subst.0.index as nat, subst.1, fs),
    decreases fs,
{
    match fs {
        List::Nil => Some(List::Nil),
        List::Cons(hd, tl) => {
            let (n, t) = hd;
            let t2 = subst_ty((subst.0, subst.1.clone()), t);
            let rest = subst_fields(subst, *tl);
            match (t2, rest) {
                (Some(t), Some(rest)) => Some(List::Cons((n, t), Box::new(rest))),
                _ => None,
            }
        },
    }
}

/// Moves every free index of `ty` outward by `offset`.
pub fn shift_ty(ty: Ty, offset: u64) -> (r: Option<Ty>)
    ensures
        r == shift_spec(ty, offset as nat, 0),
{
    shift_ty_inner(ty, offset, &Depth::zero(), Ghost(0))
}

/// Moves every index of `ty` at or above `cutoff` outward by `offset`.
pub(crate) fn shift_ty_inner(ty: Ty, offset: u64, cutoff: &Depth, Ghost(c): Ghost<nat>) -> (r: Option<Ty>)
    requires
        cutoff.is(c),
    ensures
        r == shift_spec(ty, offset as nat, c),
    decreases ty,
{
    match ty {
        Ty::U64 => Some(Ty::U64),
        Ty::Box(b) => match shift_ty_inner(*b, offset, cutoff, Ghost(c)) {
            Some(t) => Some(Ty::Box(Box::new(t))),
            None => None,
        },
        Ty::Record(fs) => match shift_fields(*fs, offset, cutoff, Ghost(c)) {
            Some(f) => Some(Ty::Record(Box::new(f))),
            None => None,
        },
        Ty::Variant(fs) => match shift_fields(*fs, offset, cutoff, Ghost(c)) {
            Some(f) => Some(Ty::Variant(Box::new(f))),
            None => None,
        },
        Ty::Recursive(b) => match shift_ty_inner(*b, offset, &cutoff.next(Ghost(c)), Ghost(c + 1)) {
            Some(t) => Some(Ty::Recursive(Box::new(t))),
            None => None,
        },
        Ty::Named(k) => {
            if cutoff.above(k, Ghost(c)) {
                Some(Ty::Named(k))
            } else if k.index <= u64::MAX - offset {
                Some(Ty::Named(k.shift_by(offset)))
            } else {
                None
            }
        },
    }
}

fn shift_fields(fs: List<(Name, Ty)>, offset: u64, cutoff: &Depth, Ghost(c): Ghost<nat>) -> (r: Option<
    List<(Name, Ty)>,
>)
    requires
        cutoff.is(c),
    ensures
        r == shift_fields_spec(fs, offset as nat, c),
    decreases fs,
{
    match fs {
        List::Nil => Some(List::Nil),
        List::Cons(hd, tl) => {
            let (n, t) = hd;
            let t2 = shift_ty_inner(t, offset, cutoff, Ghost(c));
            let rest = shift_fields(*tl, offset, cutoff, Ghost(c));
            match (t2, rest) {
                (Some(t), Some(rest)) => Some(List::Cons((n, t), Box::new(rest))),
                _ => None,
            }
        },
    }
}

} // verus!
