//! Layouts: where each part of a value, and the discriminant of each tagged
//! union, lives.

use vstd::prelude::*;

use crate::debruijn::Debruijn;
use crate::list::List;
use crate::name::Name;
use crate::niches::{bounds_without, IntNiches};

pub mod extract;
pub mod laws;
pub mod path;

use self::path::TagPath;

verus! {

/// The layout of a high-level type.
#[derive(Debug, PartialEq, Eq)]
pub enum Layout {
    U64(IntNiches),
    /// Made by `Layout::ptr`, with the null address as its niche.
    Ptr { pointee: Box<Layout>, niches: IntNiches },
    Aggregate { fields: Box<List<(Name, Layout)>> },
    Variant(VariantLayout),
    /// A binder that `RecurId` refers back to.
    Recursive(Box<Layout>),
    RecurId(Debruijn),
}

/// The layout of a variant type.
#[derive(Debug, PartialEq, Eq)]
pub enum VariantLayout {
    /// Exactly one variant: the value is laid out as its field.
    Single { field: Box<Layout> },
    Tagged(TaggedLayout),
}

#[derive(Debug, PartialEq, Eq)]
pub struct TaggedLayout {
    pub tag: TagLayout,
    pub variants: Box<List<(Name, Layout)>>,
}

/// Where the discriminant of a tagged layout lives.
#[derive(Debug, PartialEq, Eq)]
pub enum TagLayout {
    /// A `u64` tag field with a value per variant, and its unused values.
    Direct { values: List<(Name, u64)>, niches: IntNiches },
    /// No tag field: the listed variants are told apart by the value found at
    /// `path` inside the payload; the variant left out is the payload.
    Niche { path: TagPath, values: List<(Name, u64)> },
}

#[derive(Debug, Copy, Clone, PartialEq, Eq, Structural)]
pub enum VariantRepr {
    /// Has a `data` field holding the variant's field.
    Wrapper,
    /// Has the same representation as its field.
    Transparent,
}

impl VariantRepr {
    pub fn descr(self) -> (r: &'static str)
        ensures
            self == VariantRepr::Wrapper ==> r@ == "wrapper"@,
            self == VariantRepr::Transparent ==> r@ == "transparent"@,
    {
        match self {
            VariantRepr::Wrapper => "wrapper",
            VariantRepr::Transparent => "transparent",
        }
    }
}

/// Layouts that carry no runtime information.
pub open spec fn layout_is_zst(l: Layout) -> bool
    decreases l,
{
    match l {
        Layout::U64(_) => false,
        Layout::Ptr { .. } => false,
        Layout::Aggregate { fields } => all_zst(*fields),
        Layout::Variant(VariantLayout::Single { field }) => layout_is_zst(*field),
        Layout::Variant(VariantLayout::Tagged(t)) => t.tag is Niche && all_zst(*t.variants),
        Layout::Recursive(b) => layout_is_zst(*b),
        Layout::RecurId(_) => false,
    }
}

pub open spec fn all_zst(fs: List<(Name, Layout)>) -> bool
    decreases fs,
{
    match fs {
        List::Nil => true,
        List::Cons(hd, tl) => layout_is_zst(hd.1) && all_zst(*tl),
    }
}

/// The unused tag values left after removing each of `vals` in turn from
/// `n`, or `None` where one of them is not in what is left.
pub open spec fn remove_values_spec(n: IntNiches, vals: List<(Name, u64)>) -> Option<IntNiches>
    decreases vals,
{
    match vals {
        List::Nil => Some(n),
        List::Cons(hd, tl) => match n.range {
            Some((lo, hi)) => if lo <= hd.1 <= hi {
                remove_values_spec(
                    IntNiches { range: bounds_without(lo as int, hi as int, hd.1 as int) },
                    *tl,
                )
            } else {
                None
            },
            None => None,
        },
    }
}

/// All `u64` values.
pub open spec fn all_values() -> IntNiches {
    IntNiches { range: Some((0, u64::MAX)) }
}

impl Layout {
    /// A pointer to `pointee`; the null address is its niche.
    pub fn ptr(pointee: Layout) -> (r: Self)
        ensures
            r == (Layout::Ptr { pointee: Box::new(pointee), niches: IntNiches { range: Some((0, 0)) } }),
    {
        Layout::Ptr { pointee: Box::new(pointee), niches: IntNiches { range: Some((0, 0)) } }
    }

    /// The variant layout inside.
    pub fn expect_variant(self) -> (r: VariantLayout)
        requires
            self is Variant,
        ensures
            self == Layout::Variant(r),
    {
        match self {
            Layout::Variant(layout) => layout,
            _ => {
                proof {
                    assert(false);
                }
                VariantLayout::Single { field: Box::new(Layout::RecurId(Debruijn::new(0))) }
            },
        }
    }

    pub fn is_zst(&self) -> (r: bool)
        ensures
            r == layout_is_zst(*self),
        decreases self,
    {
        match self {
            Layout::U64(..) => false,
            Layout::Ptr { .. } => false,
            Layout::Aggregate { fields } => fields_all_zst(fields),
            Layout::Variant(VariantLayout::Single { field }) => field.is_zst(),
            Layout::Variant(VariantLayout::Tagged(t)) => t.tag.is_zst() && fields_all_zst(
                &t.variants,
            ),
            Layout::Recursive(body) => body.is_zst(),
            Layout::RecurId(_) => false,
        }
    }
}

pub(crate) fn fields_all_zst(fs: &List<(Name, Layout)>) -> (r: bool)
    ensures
        r == all_zst(*fs),
    decreases fs,
{
    match fs {
        List::Nil => true,
        List::Cons(hd, tl) => hd.1.is_zst() && fields_all_zst(tl),
    }
}

impl TagLayout {
    /// A direct tag with the given values; its niches are all `u64` values
    /// but those, removed one by one (each removal keeps the upper side).
    pub fn direct(values: List<(Name, u64)>) -> (r: Self)
        requires
            remove_values_spec(all_values(), values) is Some,
        ensures
            r == (TagLayout::Direct {
                values,
                niches: remove_values_spec(all_values(), values).unwrap(),
            }),
    {
        let niches = remove_all(IntNiches { range: Some((0, u64::MAX)) }, &values);
        TagLayout::Direct { values, niches }
    }

    pub fn is_zst(&self) -> (r: bool)
        ensures
            r == (*self is Niche),
    {
        match self {
            TagLayout::Direct { .. } => false,
            TagLayout::Niche { .. } => true,
        }
    }

    /// The unused values of a direct tag; a niche tag has none to spare.
    pub fn niches(&self) -> (r: IntNiches)
        ensures
            match *self {
                TagLayout::Direct { niches, .. } => r == niches,
                TagLayout::Niche { .. } => r.range is None,
            },
    {
        match self {
            TagLayout::Direct { niches, .. } => niches.clone(),
            TagLayout::Niche { .. } => IntNiches::none(),
        }
    }

    /// How a variant of this tag is represented: a direct tag wraps its
    /// fields, a niche tag leaves them as they are.
    pub fn as_variant_repr(&self) -> (r: VariantRepr)
        ensures
            r == tag_repr(*self),
    {
        match self {
            TagLayout::Direct { .. } => VariantRepr::Wrapper,
            TagLayout::Niche { .. } => VariantRepr::Transparent,
        }
    }
}

pub open spec fn tag_repr(t: TagLayout) -> VariantRepr {
    match t {
        TagLayout::Direct { .. } => VariantRepr::Wrapper,
        TagLayout::Niche { .. } => VariantRepr::Transparent,
    }
}

fn remove_all(n: IntNiches, vals: &List<(Name, u64)>) -> (r: IntNiches)
    requires
        remove_values_spec(n, *vals) is Some,
    ensures
        r == remove_values_spec(n, *vals).unwrap(),
    decreases vals,
{
    match vals {
        List::Nil => n,
        List::Cons(hd, tl) => {
            let rest = n.remove_value(hd.1);
            match rest {
                Ok(m) => remove_all(m, tl),
                Err(_) => {
                    proof {
                        assert(false);
                    }
                    IntNiches::none()
                },
            }
        },
    }
}

} // verus!
