//! Computing the layout of a high-level type.

use vstd::prelude::*;

use crate::hir::typeck::{ty_valid, validate_ty, TypeError};
use crate::hir::Ty;
use crate::layout::extract::{
    extract_many_spec, extract_niches_from_variants, extract_spec, ExtractedNiche,
};
use crate::layout::{
    all_values, layout_is_zst, remove_values_spec, Layout, TagLayout, TaggedLayout,
    VariantLayout, VariantRepr,
};
use crate::list::List;
use crate::name::Name;
use crate::niches::{norm_bounds, IntNiches};

verus! {

/// The names of the zero-sized entries of `vls`, in order.
pub open spec fn zst_names(vls: List<(Name, Layout)>) -> Seq<Name>
    decreases vls,
{
    match vls {
        List::Nil => Seq::empty(),
        List::Cons(hd, tl) => if layout_is_zst(hd.1) {
            seq![hd.0] + zst_names(*tl)
        } else {
            zst_names(*tl)
        },
    }
}

/// The number of entries of `vls` that are not zero-sized.
pub open spec fn non_zst_count(vls: List<(Name, Layout)>) -> nat
    decreases vls,
{
    match vls {
        List::Nil => 0,
        List::Cons(hd, tl) => if layout_is_zst(hd.1) {
            non_zst_count(*tl)
        } else {
            1 + non_zst_count(*tl)
        },
    }
}

/// The names of `vls`, in order.
pub open spec fn entry_names(vls: List<(Name, Layout)>) -> Seq<Name>
    decreases vls,
{
    match vls {
        List::Nil => Seq::empty(),
        List::Cons(hd, tl) => seq![hd.0] + entry_names(*tl),
    }
}

/// Pairs each name with the next value, counting up from `start`.
pub open spec fn number_from(names: Seq<Name>, start: int) -> List<(Name, u64)>
    decreases names.len(),
{
    if names.len() == 0 {
        List::Nil
    } else {
        List::Cons((names[0], start as u64), Box::new(number_from(names.drop_first(), start + 1)))
    }
}

/// A direct tag over `vls`: values `0, 1, …` in order, and all other values
/// as niches.
pub open spec fn direct_spec(vls: List<(Name, Layout)>) -> TaggedLayout {
    let values = number_from(entry_names(vls), 0);
    TaggedLayout {
        tag: TagLayout::Direct { values, niches: remove_values_spec(all_values(), values).unwrap() },
        variants: Box::new(vls),
    }
}

/// The layout of two or more variants: a niche tag where exactly one variant
/// is not zero-sized and enough unused values are found in it, a direct tag
/// otherwise.
pub open spec fn multi_spec(vls: List<(Name, Layout)>) -> TaggedLayout {
    if non_zst_count(vls) == 1 {
        let nullary = zst_names(vls);
        let (vs2, r) = extract_many_spec(vls, nullary.len() as u64, Some(VariantRepr::Transparent));
        match r {
            Some(en) => TaggedLayout {
                tag: TagLayout::Niche {
                    path: en.path,
                    values: number_from(nullary, en.niche.range.unwrap().0 as int),
                },
                variants: Box::new(vs2),
            },
            None => direct_spec(vs2),
        }
    } else {
        direct_spec(vls)
    }
}

/// The layout of an empty variant type: a zero-sized placeholder.
pub open spec fn empty_layout() -> Layout {
    Layout::Variant(VariantLayout::Single { field: Box::new(Layout::Aggregate { fields: Box::new(List::Nil) }) })
}

/// The layout of a type.
pub open spec fn layout_of_spec(ty: Ty) -> Layout
    decreases ty,
{
    match ty {
        Ty::U64 => Layout::U64(IntNiches { range: None }),
        Ty::Box(b) => Layout::Ptr {
            pointee: Box::new(layout_of_spec(*b)),
            niches: IntNiches { range: Some((0, 0)) },
        },
        Ty::Record(fs) => Layout::Aggregate { fields: Box::new(layouts_spec(*fs)) },
        Ty::Variant(vs) => match *vs {
            List::Nil => empty_layout(),
            List::Cons(hd, tl) => match *tl {
                List::Nil => Layout::Variant(VariantLayout::Single { field: Box::new(layout_of_spec(hd.1)) }),
                _ => Layout::Variant(VariantLayout::Tagged(multi_spec(layouts_spec(*vs)))),
            },
        },
        Ty::Recursive(b) => Layout::Recursive(Box::new(layout_of_spec(*b))),
        Ty::Named(k) => Layout::RecurId(k),
    }
}

pub open spec fn layouts_spec(fs: List<(Name, Ty)>) -> List<(Name, Layout)>
    decreases fs,
{
    match fs {
        List::Nil => List::Nil,
        List::Cons(hd, tl) => List::Cons((hd.0, layout_of_spec(hd.1)), Box::new(layouts_spec(*tl))),
    }
}

/// Removing `0, 1, …` in order from the values at and above `i` leaves the
/// values above the last one removed.
proof fn lemma_remove_numbered(names: Seq<Name>, i: int)
    requires
        0 <= i,
        i + names.len() <= u64::MAX + 1,
    ensures
        remove_values_spec(IntNiches { range: norm_bounds(i, u64::MAX as int) }, number_from(names, i))
            == Some(IntNiches { range: norm_bounds(i + names.len(), u64::MAX as int) }),
    decreases names.len(),
{
    if names.len() > 0 {
        lemma_remove_numbered(names.drop_first(), i + 1);
    }
}

/// The layout of `ty`; `Err(InfiniteType)` exactly when the validator rejects
/// it.
pub fn try_layout_of(ty: Ty) -> (r: Result<Layout, TypeError>)
    ensures
        r is Ok <==> ty_valid(ty, 0),
        r matches Ok(l) ==> l == layout_of_spec(ty),
        r is Err ==> r == Err::<Layout, TypeError>(TypeError::InfiniteType),
{
    match validate_ty(&ty) {
        Ok(()) => Ok(layout_of_valid(ty)),
        Err(e) => Err(e),
    }
}

/// The layout of a type that the validator accepts.
pub fn layout_of(ty: Ty) -> (r: Layout)
    requires
        ty_valid(ty, 0),
    ensures
        r == layout_of_spec(ty),
{
    layout_of_valid(ty)
}

fn layout_of_valid(ty: Ty) -> (r: Layout)
    ensures
        r == layout_of_spec(ty),
    decreases ty, 0nat,
{
    match ty {
        Ty::U64 => Layout::U64(IntNiches::none()),
        Ty::Box(b) => Layout::ptr(layout_of_valid(*b)),
        Ty::Record(fs) => Layout::Aggregate { fields: Box::new(layouts_of(*fs)) },
        Ty::Variant(vs) => {
            let vs = *vs;
            match vs {
                List::Nil => layout_of_empty_type(),
                List::Cons(hd, tl) => {
                    if let List::Nil = *tl {
                        layout_of_singleton_variant(hd.1)
                    } else {
                        assert(tl.spec_len() >= 1);
                        layout_of_multi_variant_type(List::Cons(hd, tl))
                    }
                },
            }
        },
        Ty::Recursive(b) => Layout::Recursive(Box::new(layout_of_valid(*b))),
        Ty::Named(k) => Layout::RecurId(k),
    }
}

fn layouts_of(fs: List<(Name, Ty)>) -> (r: List<(Name, Layout)>)
    ensures
        r == layouts_spec(fs),
    decreases fs, 0nat,
{
    match fs {
        List::Nil => List::Nil,
        List::Cons(hd, tl) => {
            let (n, t) = hd;
            let l = layout_of_valid(t);
            List::Cons((n, l), Box::new(layouts_of(*tl)))
        },
    }
}

fn layout_of_empty_type() -> (r: Layout)
    ensures
        r == empty_layout(),
{
    Layout::Variant(VariantLayout::Single { field: Box::new(Layout::Aggregate { fields: Box::new(List::Nil) }) })
}

fn layout_of_singleton_variant(field_ty: Ty) -> (r: Layout)
    ensures
        r == Layout::Variant(VariantLayout::Single { field: Box::new(layout_of_spec(field_ty)) }),
    decreases field_ty, 1nat,
{
    let field_lyt = layout_of_valid(field_ty);
    Layout::Variant(VariantLayout::Single { field: Box::new(field_lyt) })
}

fn layout_of_multi_variant_type(variants: List<(Name, Ty)>) -> (r: Layout)
    requires
        variants.spec_len() >= 2,
    ensures
        r == Layout::Variant(VariantLayout::Tagged(multi_spec(layouts_spec(variants)))),
    decreases variants, 1nat,
{
    let vls = layouts_of(variants);
    proof {
        lemma_entry_counts(vls);
        lemma_layouts_len(variants);
    }
    let lyt = match is_nicheable(&vls) {
        Nicheable::Yes { field: _, nullary_variants } => layout_of_tagged_niche_type(vls, nullary_variants),
        Nicheable::No => layout_of_tagged_direct_type(vls),
    };
    Layout::Variant(VariantLayout::Tagged(lyt))
}

fn layout_of_tagged_niche_type(variants: List<(Name, Layout)>, nullary_variants: Vec<Name>) -> (r: TaggedLayout)
    requires
        non_zst_count(variants) == 1,
        nullary_variants@ == zst_names(variants),
        nullary_variants@.len() >= 1,
    ensures
        r == multi_spec(variants),
{
    let mut variants = variants;
    let needed_tag_values_count = nullary_variants.len() as u64;
    let ghost vls = variants;
    proof {
        lemma_extracted_many_shape(vls, needed_tag_values_count, Some(VariantRepr::Transparent));
    }
    match extract_niches_from_variants(&mut variants, needed_tag_values_count, VariantRepr::Transparent) {
        Ok(ExtractedNiche { path, niche }) => {
            match niche.range {
                Some((lo, _hi)) => {
                    let values = number_names(&nullary_variants, lo);
                    TaggedLayout { tag: TagLayout::Niche { path, values }, variants: Box::new(variants) }
                },
                None => {
                    proof {
                        assert(false);
                    }
                    layout_of_tagged_direct_type(variants)
                },
            }
        },
        Err(()) => layout_of_tagged_direct_type(variants),
    }
}

fn layout_of_tagged_direct_type(variants: List<(Name, Layout)>) -> (r: TaggedLayout)
    ensures
        r == direct_spec(variants),
{
    let mut names: Vec<Name> = Vec::new();
    collect_names(&variants, &mut names);
    let count = names.len();
    proof {
        assert(count as int == names@.len());
        assert(names@ =~= Seq::<Name>::empty() + entry_names(variants));
        lemma_remove_numbered(names@, 0);
    }
    let values = number_names(&names, 0);
    let tag = TagLayout::direct(values);
    TaggedLayout { tag, variants: Box::new(variants) }
}

/// Appends the names of `vls` to `out`.
fn collect_names(vls: &List<(Name, Layout)>, out: &mut Vec<Name>)
    ensures
        final(out)@ == old(out)@ + entry_names(*vls),
    decreases vls,
{
    match vls {
        List::Nil => {
            assert(old(out)@ + Seq::<Name>::empty() =~= old(out)@);
        },
        List::Cons(hd, tl) => {
            out.push(hd.0.clone());
            collect_names(tl, out);
            assert(old(out)@ + entry_names(*vls) =~= old(out)@.push(hd.0) + entry_names(**tl));
        },
    }
}

/// Pairs `names` with `start, start + 1, …`.
fn number_names(names: &Vec<Name>, start: u64) -> (r: List<(Name, u64)>)
    requires
        start + names@.len() <= u64::MAX + 1,
    ensures
        r == number_from(names@, start as int),
{
    let mut i: usize = names.len();
    let mut acc: List<(Name, u64)> = List::Nil;
    proof {
        assert(names@.subrange(i as int, names@.len() as int).len() == 0);
    }
    while i > 0
        invariant
            i <= names@.len(),
            start + names@.len() <= u64::MAX + 1,
            acc == number_from(names@.subrange(i as int, names@.len() as int), start + i),
        decreases i,
    {
        i = i - 1;
        let ghost s = names@.subrange(i as int, names@.len() as int);
        proof {
            assert(s.drop_first() =~= names@.subrange(i + 1, names@.len() as int));
            assert(s[0] == names@[i as int]);
        }
        acc = List::Cons((names[i].clone(), start + i as u64), Box::new(acc));
    }
    proof {
        assert(names@.subrange(0, names@.len() as int) =~= names@);
    }
    acc
}

/// What `extract_spec` takes out is `count` values from one range.
pub proof fn lemma_extracted_shape(l: Layout, count: u64)
    ensures
        extract_spec(l, count).1 matches Some(en) ==> (if count == 0 {
            en.niche.range is None
        } else {
            en.niche.range matches Some((a, b)) && b == a + count - 1
        }),
    decreases l,
{
    match l {
        Layout::Aggregate { fields } => lemma_extracted_many_shape(*fields, count, None),
        Layout::Variant(VariantLayout::Single { field }) => lemma_extracted_shape(*field, count),
        Layout::Variant(VariantLayout::Tagged(t)) => {
            lemma_extracted_many_shape(*t.variants, count, Some(VariantRepr::Wrapper));
            lemma_extracted_many_shape(*t.variants, count, Some(VariantRepr::Transparent));
        },
        Layout::Recursive(b) => lemma_extracted_shape(*b, count),
        _ => {},
    }
}

pub proof fn lemma_extracted_many_shape(fs: List<(Name, Layout)>, count: u64, repr: Option<VariantRepr>)
    ensures
        extract_many_spec(fs, count, repr).1 matches Some(en) ==> (if count == 0 {
            en.niche.range is None
        } else {
            en.niche.range matches Some((a, b)) && b == a + count - 1
        }),
    decreases fs,
{
    if let List::Cons(hd, tl) = fs {
        lemma_extracted_shape(hd.1, count);
        lemma_extracted_many_shape(*tl, count, repr);
    }
}

pub(crate) proof fn lemma_layouts_len(fs: List<(Name, Ty)>)
    ensures
        layouts_spec(fs).spec_len() == fs.spec_len(),
    decreases fs,
{
    if let List::Cons(_, tl) = fs {
        lemma_layouts_len(*tl);
    }
}

/// Every entry is either zero-sized or not.
pub(crate) proof fn lemma_entry_counts(vls: List<(Name, Layout)>)
    ensures
        vls.spec_len() == zst_names(vls).len() + non_zst_count(vls),
    decreases vls,
{
    if let List::Cons(_, tl) = vls {
        lemma_entry_counts(*tl);
    }
}

/// Whether a variant layout can hide its tag in a niche: exactly one variant
/// is not zero-sized.
pub enum Nicheable<'a> {
    Yes { field: &'a Layout, nullary_variants: Vec<Name> },
    No,
}

impl<'a> Nicheable<'a> {
    /// The variant that is not zero-sized.
    pub fn as_field(self) -> (r: Option<&'a Layout>)
        ensures
            match self {
                Nicheable::Yes { field, .. } => r == Some(field),
                Nicheable::No => r is None,
            },
    {
        match self {
            Nicheable::Yes { field, nullary_variants: _ } => Some(field),
            Nicheable::No => None,
        }
    }
}

/// The one non-zero-sized entry of `vls`, where there is exactly one.
pub open spec fn the_payload(vls: List<(Name, Layout)>) -> Layout
    decreases vls,
{
    match vls {
        List::Nil => Layout::U64(IntNiches { range: None }),
        List::Cons(hd, tl) => if layout_is_zst(hd.1) {
            the_payload(*tl)
        } else {
            hd.1
        },
    }
}

/// `Yes` with the payload and the names of the zero-sized variants exactly
/// when one variant is not zero-sized.
pub fn is_nicheable(variants: &List<(Name, Layout)>) -> (r: Nicheable<'_>)
    ensures
        non_zst_count(*variants) == 1 <==> r is Yes,
        r matches Nicheable::Yes { field, nullary_variants } ==> *field == the_payload(*variants)
            && nullary_variants@ == zst_names(*variants),
{
    let mut nullary_variants: Vec<Name> = Vec::new();
    match scan_variants(variants, &mut nullary_variants) {
        Some(Some(field)) => {
            proof {
                assert(nullary_variants@ =~= zst_names(*variants));
            }
            Nicheable::Yes { field, nullary_variants }
        },
        _ => Nicheable::No,
    }
}

/// `None` where two or more entries are not zero-sized; otherwise the one that
/// is not, if any. The names of the zero-sized entries are appended to
/// `nullary` when the scan completes.
fn scan_variants<'a>(vls: &'a List<(Name, Layout)>, nullary: &mut Vec<Name>) -> (r: Option<Option<&'a Layout>>)
    ensures
        r is None <==> non_zst_count(*vls) >= 2,
        r == Some(None::<&Layout>) <==> non_zst_count(*vls) == 0,
        r matches Some(Some(f)) ==> non_zst_count(*vls) == 1 && *f == the_payload(*vls),
        r is Some ==> final(nullary)@ == old(nullary)@ + zst_names(*vls),
    decreases vls,
{
    match vls {
        List::Nil => {
            assert(old(nullary)@ + Seq::<Name>::empty() =~= old(nullary)@);
            Some(None)
        },
        List::Cons(hd, tl) => {
            if hd.1.is_zst() {
                nullary.push(hd.0.clone());
                let r = scan_variants(tl, nullary);
                assert(old(nullary)@ + zst_names(*vls) =~= old(nullary)@.push(hd.0) + zst_names(**tl));
                r
            } else {
                match scan_variants(tl, nullary) {
                    Some(None) => Some(Some(&hd.1)),
                    _ => None,
                }
            }
        },
    }
}

pub(crate) proof fn lemma_number_from(names: Seq<Name>, start: int, i: int)
    requires
        0 <= i < names.len(),
    ensures
        number_from(names, start).view_seq().len() == names.len(),
        number_from(names, start).view_seq()[i] == (names[i], (start + i) as u64),
    decreases names.len(),
{
    lemma_number_from_len(names, start);
    if i > 0 {
        lemma_number_from(names.drop_first(), start + 1, i - 1);
    }
}

pub(crate) proof fn lemma_number_from_len(names: Seq<Name>, start: int)
    ensures
        number_from(names, start).view_seq().len() == names.len(),
    decreases names.len(),
{
    if names.len() > 0 {
        lemma_number_from_len(names.drop_first(), start + 1);
    }
}

proof fn lemma_entry_names_len(vls: List<(Name, Layout)>)
    ensures
        entry_names(vls).len() == vls.spec_len(),
    decreases vls,
{
    if let List::Cons(_, tl) = vls {
        lemma_entry_names_len(*tl);
    }
}

/// A direct tag numbers the variants `0, 1, …, n - 1` in order, so that the
/// variants and the values correspond one to one, and its niches are exactly
/// the `u64` values that no variant uses.
pub proof fn lemma_direct_tag(vls: List<(Name, Layout)>)
    requires
        vls.spec_len() <= u64::MAX + 1,
    ensures
        direct_spec(vls).tag matches TagLayout::Direct { values, niches } && values.view_seq().len()
            == vls.spec_len() && (forall|i: int|
            0 <= i < vls.spec_len() ==> #[trigger] values.view_seq()[i] == (entry_names(vls)[i], i as u64))
            && (forall|v: u64| niches.contains(v) <==> v >= vls.spec_len()),
{
    lemma_entry_names_len(vls);
    lemma_remove_numbered(entry_names(vls), 0);
    lemma_number_from_len(entry_names(vls), 0);
    assert forall|i: int| 0 <= i < vls.spec_len() implies #[trigger] number_from(entry_names(vls), 0).view_seq()[i]
        == (entry_names(vls)[i], i as u64) by {
        lemma_number_from(entry_names(vls), 0, i);
    }
}

} // verus!
