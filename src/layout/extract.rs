//! Finding unused values inside a layout to hold a discriminant.

use vstd::prelude::*;

use crate::debruijn::Debruijn;
use crate::layout::path::{TagPath, ValueProj};
use crate::layout::{Layout, TagLayout, TaggedLayout, VariantLayout, VariantRepr};
use crate::list::List;
use crate::name::Name;
use crate::niches::IntNiches;

verus! {

/// Values taken out of a layout, and the path to where they live.
#[derive(Debug, PartialEq, Eq)]
pub struct ExtractedNiche {
    pub path: TagPath,
    pub niche: IntNiches,
}

impl ExtractedNiche {
    /// Values found at the root itself.
    pub fn empty_path(niche: IntNiches) -> (r: Self)
        ensures
            r == (ExtractedNiche { path: TagPath { reversed: List::Nil }, niche }),
    {
        Self { path: TagPath::empty(), niche }
    }
}

/// The step into entry `name`: a field for `None`, a variant otherwise.
pub open spec fn proj_of(repr: Option<VariantRepr>, name: Name) -> ValueProj {
    match repr {
        None => ValueProj::Field(name),
        Some(r) => ValueProj::Variant { repr: r, name },
    }
}

/// `en` reached through the step `proj`.
pub open spec fn under(proj: ValueProj, en: ExtractedNiche) -> ExtractedNiche {
    ExtractedNiche {
        path: TagPath {
            reversed: en.path.reversed.spec_concat(List::Cons(proj, Box::new(List::Nil))),
        },
        niche: en.niche,
    }
}

/// Takes `count` unused values out of `l`: the layout afterwards, and the
/// values taken with their path, or `None` where no part of `l` has enough.
/// Integers and pointers give from their own niches; aggregates and variants
/// try their parts in order; a tag is tried before the variants; a back
/// reference has none.
pub open spec fn extract_spec(l: Layout, count: u64) -> (Layout, Option<ExtractedNiche>)
    decreases l,
{
    match l {
        Layout::U64(n) => match n.shrink_spec(count) {
            Some((rest, taken)) => (
                Layout::U64(rest),
                Some(ExtractedNiche { path: TagPath { reversed: List::Nil }, niche: taken }),
            ),
            None => (l, None),
        },
        Layout::Ptr { pointee, niches } => match niches.shrink_spec(count) {
            Some((rest, taken)) => (
                Layout::Ptr { pointee, niches: rest },
                Some(ExtractedNiche { path: TagPath { reversed: List::Nil }, niche: taken }),
            ),
            None => (l, None),
        },
        Layout::Aggregate { fields } => {
            let (f, r) = extract_many_spec(*fields, count, None);
            (Layout::Aggregate { fields: Box::new(f) }, r)
        },
        Layout::Variant(VariantLayout::Single { field }) => {
            let (f, r) = extract_spec(*field, count);
            (Layout::Variant(VariantLayout::Single { field: Box::new(f) }), r)
        },
        Layout::Variant(VariantLayout::Tagged(t)) => {
            let tag_try = match t.tag {
                TagLayout::Direct { values, niches } => match niches.shrink_spec(count) {
                    Some((rest, taken)) => Some((TagLayout::Direct { values, niches: rest }, taken)),
                    None => None,
                },
                TagLayout::Niche { .. } => None,
            };
            match tag_try {
                Some((tag, taken)) => (
                    Layout::Variant(VariantLayout::Tagged(TaggedLayout { tag, variants: t.variants })),
                    Some(
                        ExtractedNiche {
                            path: TagPath { reversed: List::Cons(ValueProj::Tag, Box::new(List::Nil)) },
                            niche: taken,
                        },
                    ),
                ),
                None => {
                    let repr = match t.tag {
                        TagLayout::Direct { .. } => VariantRepr::Wrapper,
                        TagLayout::Niche { .. } => VariantRepr::Transparent,
                    };
                    let (vs, r) = extract_many_spec(*t.variants, count, Some(repr));
                    (
                        Layout::Variant(
                            VariantLayout::Tagged(TaggedLayout { tag: t.tag, variants: Box::new(vs) }),
                        ),
                        r,
                    )
                },
            }
        },
        Layout::Recursive(b) => {
            let (b2, r) = extract_spec(*b, count);
            (Layout::Recursive(Box::new(b2)), r)
        },
        Layout::RecurId(_) => (l, None),
    }
}

/// Tries the entries of `fs` in order; the first that gives the values wins,
/// with the step into it added to its path.
pub open spec fn extract_many_spec(fs: List<(Name, Layout)>, count: u64, repr: Option<VariantRepr>) -> (
    List<(Name, Layout)>,
    Option<ExtractedNiche>,
)
    decreases fs,
{
    match fs {
        List::Nil => (List::Nil, None),
        List::Cons(hd, tl) => {
            let (l2, r) = extract_spec(hd.1, count);
            match r {
                Some(en) => (List::Cons((hd.0, l2), tl), Some(under(proj_of(repr, hd.0), en))),
                None => {
                    let (t2, r2) = extract_many_spec(*tl, count, repr);
                    (List::Cons((hd.0, l2), Box::new(t2)), r2)
                },
            }
        },
    }
}

/// `Ok` for `Some`, `Err(())` for `None`.
pub open spec fn as_result(o: Option<ExtractedNiche>) -> Result<ExtractedNiche, ()> {
    match o {
        Some(en) => Ok(en),
        None => Err(()),
    }
}

impl Layout {
    /// Takes `count` unused values out of this layout, as `extract_spec` says;
    /// on failure nothing is taken.
    pub fn extract_niche(&mut self, count: u64) -> (r: Result<ExtractedNiche, ()>)
        ensures
            *final(self) == extract_spec(*old(self), count).0,
            r == as_result(extract_spec(*old(self), count).1),
    {
        let mut l = Layout::RecurId(Debruijn::new(0));
        std::mem::swap(&mut l, self);
        let (l2, r) = extract_owned(l, count);
        *self = l2;
        r
    }
}

fn extract_owned(l: Layout, count: u64) -> (r: (Layout, Result<ExtractedNiche, ()>))
    ensures
        r.0 == extract_spec(l, count).0,
        r.1 == as_result(extract_spec(l, count).1),
    decreases l,
{
    match l {
        Layout::U64(mut niches) => {
            let r = niches.remove_some_values_mut(count);
            match r {
                Ok(taken) => (Layout::U64(niches), Ok(ExtractedNiche::empty_path(taken))),
                Err(()) => (Layout::U64(niches), Err(())),
            }
        },
        Layout::Ptr { pointee, mut niches } => {
            let r = niches.remove_some_values_mut(count);
            match r {
                Ok(taken) => (Layout::Ptr { pointee, niches }, Ok(ExtractedNiche::empty_path(taken))),
                Err(()) => (Layout::Ptr { pointee, niches }, Err(())),
            }
        },
        Layout::Aggregate { fields } => {
            let (f, r) = extract_niches_from_many(*fields, count, None);
            (Layout::Aggregate { fields: Box::new(f) }, r)
        },
        Layout::Variant(VariantLayout::Single { field }) => {
            let (f, r) = extract_owned(*field, count);
            (Layout::Variant(VariantLayout::Single { field: Box::new(f) }), r)
        },
        Layout::Variant(VariantLayout::Tagged(TaggedLayout { mut tag, variants })) => {
            match tag.extract_niche(count) {
                Ok(taken) => (
                    Layout::Variant(VariantLayout::Tagged(TaggedLayout { tag, variants })),
                    Ok(ExtractedNiche { path: TagPath::singleton(ValueProj::Tag), niche: taken }),
                ),
                Err(()) => {
                    let repr = tag.as_variant_repr();
                    let (vs, r) = extract_niches_from_many(*variants, count, Some(repr));
                    (
                        Layout::Variant(
                            VariantLayout::Tagged(TaggedLayout { tag, variants: Box::new(vs) }),
                        ),
                        r,
                    )
                },
            }
        },
        Layout::Recursive(b) => {
            let (b2, r) = extract_owned(*b, count);
            (Layout::Recursive(Box::new(b2)), r)
        },
        Layout::RecurId(k) => (Layout::RecurId(k), Err(())),
    }
}

/// The path into a field.
pub fn with_field_proj(field: Name) -> (r: TagPath)
    ensures
        r.reversed == List::Cons(ValueProj::Field(field), Box::new(List::Nil)),
{
    TagPath::singleton(ValueProj::Field(field))
}

/// The path into a variant.
pub fn with_variant_proj(repr: VariantRepr, name: Name) -> (r: TagPath)
    ensures
        r.reversed == List::Cons(ValueProj::Variant { repr, name }, Box::new(List::Nil)),
{
    TagPath::singleton(ValueProj::Variant { repr, name })
}

/// Takes `count` unused values out of the first variant of `variants` that
/// has them, reached through variant steps of the given representation.
pub fn extract_niches_from_variants(
    variants: &mut List<(Name, Layout)>,
    count: u64,
    repr: VariantRepr,
) -> (r: Result<ExtractedNiche, ()>)
    ensures
        *final(variants) == extract_many_spec(*old(variants), count, Some(repr)).0,
        r == as_result(extract_many_spec(*old(variants), count, Some(repr)).1),
{
    let mut vs: List<(Name, Layout)> = List::Nil;
    std::mem::swap(&mut vs, variants);
    let (vs2, r) = extract_niches_from_many(vs, count, Some(repr));
    *variants = vs2;
    r
}

fn extract_niches_from_many(fs: List<(Name, Layout)>, count: u64, repr: Option<VariantRepr>) -> (r: (
    List<(Name, Layout)>,
    Result<ExtractedNiche, ()>,
))
    ensures
        r.0 == extract_many_spec(fs, count, repr).0,
        r.1 == as_result(extract_many_spec(fs, count, repr).1),
    decreases fs,
{
    match fs {
        List::Nil => (List::Nil, Err(())),
        List::Cons(hd, tl) => {
            let (name, l) = hd;
            let (l2, r) = extract_owned(l, count);
            match r {
                Ok(ExtractedNiche { path: inner, niche }) => {
                    let this_path = match repr {
                        None => with_field_proj(name.clone()),
                        Some(rp) => with_variant_proj(rp, name.clone()),
                    };
                    let path = inner.with_outer_path(this_path);
                    (List::Cons((name, l2), tl), Ok(ExtractedNiche { path, niche }))
                },
                Err(()) => {
                    let (t2, r2) = extract_niches_from_many(*tl, count, repr);
                    (List::Cons((name, l2), Box::new(t2)), r2)
                },
            }
        },
    }
}

impl TagLayout {
    /// Takes `count` unused values out of a direct tag; a niche tag has none.
    pub fn extract_niche(&mut self, count: u64) -> (r: Result<IntNiches, ()>)
        ensures
            match *old(self) {
                TagLayout::Direct { values, niches } => match niches.shrink_spec(count) {
                    Some((rest, taken)) => r == Ok::<IntNiches, ()>(taken) && *final(self)
                        == (TagLayout::Direct { values, niches: rest }),
                    None => r is Err && *final(self) == *old(self),
                },
                TagLayout::Niche { .. } => r is Err && *final(self) == *old(self),
            },
    {
        match self {
            TagLayout::Direct { values: _, niches } => niches.remove_some_values_mut(count),
            TagLayout::Niche { .. } => Err(()),
        }
    }
}

/// Taking niches depends on nothing but the layout and the count: two
/// extractions that meet the contract of `Layout::extract_niche` on equal
/// layouts leave equal layouts and give the same path and values.
pub proof fn lemma_extract_deterministic(
    l1: Layout,
    l2: Layout,
    count: u64,
    after1: Layout,
    after2: Layout,
    r1: Result<ExtractedNiche, ()>,
    r2: Result<ExtractedNiche, ()>,
)
    requires
        l1 == l2,
        after1 == extract_spec(l1, count).0,
        r1 == as_result(extract_spec(l1, count).1),
        after2 == extract_spec(l2, count).0,
        r2 == as_result(extract_spec(l2, count).1),
    ensures
        after1 == after2,
        r1 == r2,
{
}

} // verus!
