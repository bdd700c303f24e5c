//! The packed size of a low-level type.

use vstd::prelude::*;

use crate::lir::Ty;
use crate::list::List;
use crate::name::Name;

verus! {

/// A size in bytes.
#[derive(Debug, Copy, Clone, PartialEq, Eq, Structural, PartialOrd, Ord)]
pub struct Size {
    pub bytes: u64,
}

impl Size {
    pub fn from_bytes(bytes: u64) -> (r: Self)
        ensures
            r.bytes == bytes,
    {
        Self { bytes }
    }

    pub fn bytes(self) -> (r: u64)
        ensures
            r == self.bytes,
    {
        self.bytes
    }
}

/// The bytes of a type's data, ignoring padding: 8 for an integer or a
/// pointer, the sum over a record, the largest member of a union (0 when it
/// has none); `None` where a back reference is reached.
pub open spec fn size_spec(t: Ty) -> Option<nat>
    decreases t,
{
    match t {
        Ty::U64 => Some(8),
        Ty::Ptr(_) => Some(8),
        Ty::Record(fs) => sum_spec(*fs),
        Ty::UntaggedUnion(fs) => max_spec(*fs),
        Ty::Recursive(b) => size_spec(*b),
        Ty::RecurId(_) => None,
    }
}

pub open spec fn sum_spec(fs: List<(Name, Ty)>) -> Option<nat>
    decreases fs,
{
    match fs {
        List::Nil => Some(0),
        List::Cons(hd, tl) => match (size_spec(hd.1), sum_spec(*tl)) {
            (Some(a), Some(b)) => Some(a + b),
            _ => None,
        },
    }
}

pub open spec fn max_spec(fs: List<(Name, Ty)>) -> Option<nat>
    decreases fs,
{
    match fs {
        List::Nil => Some(0),
        List::Cons(hd, tl) => match (size_spec(hd.1), max_spec(*tl)) {
            (Some(a), Some(b)) => Some(if a >= b { a } else { b }),
            _ => None,
        },
    }
}

/// `Some` of the size where it is defined and fits in a `u64`.
pub open spec fn fits(o: Option<nat>) -> Option<Size> {
    match o {
        Some(n) => if n <= u64::MAX {
            Some(Size { bytes: n as u64 })
        } else {
            None
        },
        None => None,
    }
}

impl Ty {
    /// The packed size of the type, as `size_spec` says; `None` where that is
    /// undefined or does not fit in a `u64`.
    pub fn packed_size(&self) -> (r: Option<Size>)
        ensures
            r == fits(size_spec(*self)),
        decreases self,
    {
        match self {
            Ty::U64 => Some(Size::from_bytes(8)),
            Ty::Ptr(_) => Some(Size::from_bytes(8)),
            Ty::Record(fs) => sum_sizes(fs),
            Ty::UntaggedUnion(fs) => max_sizes(fs),
            Ty::Recursive(body) => body.packed_size(),
            Ty::RecurId(_) => None,
        }
    }
}

fn sum_sizes(fs: &List<(Name, Ty)>) -> (r: Option<Size>)
    ensures
        r == fits(sum_spec(*fs)),
    decreases fs,
{
    match fs {
        List::Nil => Some(Size::from_bytes(0)),
        List::Cons(hd, tl) => match (hd.1.packed_size(), sum_sizes(tl)) {
            (Some(a), Some(b)) => {
                if a.bytes <= u64::MAX - b.bytes {
                    Some(Size::from_bytes(a.bytes + b.bytes))
                } else {
                    None
                }
            },
            _ => None,
        },
    }
}

fn max_sizes(fs: &List<(Name, Ty)>) -> (r: Option<Size>)
    ensures
        r == fits(max_spec(*fs)),
    decreases fs,
{
    match fs {
        List::Nil => Some(Size::from_bytes(0)),
        List::Cons(hd, tl) => match (hd.1.packed_size(), max_sizes(tl)) {
            (Some(a), Some(b)) => Some(if a.bytes >= b.bytes { a } else { b }),
            _ => None,
        },
    }
}

} // verus!
