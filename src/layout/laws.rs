//! What holds of every layout that `layout_of` computes, and of every niche
//! extraction.

use vstd::prelude::*;

use crate::hir::Ty;
use crate::layout::extract::{extract_many_spec, extract_spec};
use crate::layout::{all_zst, layout_is_zst, Layout, TagLayout, VariantLayout, VariantRepr};
use crate::layout_of::{
    direct_spec, entry_names, layout_of_spec, layouts_spec, multi_spec, non_zst_count, zst_names,
};
use crate::list::List;
use crate::name::Name;
use crate::niches::IntNiches;

verus! {

/// Every `Named(k)` refers to one of the `d` binders around `ty` or to a
/// `Recursive` inside it.
pub open spec fn ty_closed(ty: Ty, d: nat) -> bool
    decreases ty,
{
    match ty {
        Ty::U64 => true,
        Ty::Box(b) => ty_closed(*b, d),
        Ty::Record(fs) => ty_fields_closed(*fs, d),
        Ty::Variant(fs) => ty_fields_closed(*fs, d),
        Ty::Recursive(b) => ty_closed(*b, d + 1),
        Ty::Named(k) => k.index < d,
    }
}

pub open spec fn ty_fields_closed(fs: List<(Name, Ty)>, d: nat) -> bool
    decreases fs,
{
    match fs {
        List::Nil => true,
        List::Cons(hd, tl) => ty_closed(hd.1, d) && ty_fields_closed(*tl, d),
    }
}

/// Every record and variant map in `ty`, at any depth, has distinct keys.
pub open spec fn ty_keys_distinct(ty: Ty) -> bool
    decreases ty,
{
    match ty {
        Ty::U64 => true,
        Ty::Box(b) => ty_keys_distinct(*b),
        Ty::Record(fs) => crate::lir::keys_distinct(*fs) && ty_fields_keys_distinct(*fs),
        Ty::Variant(fs) => crate::lir::keys_distinct(*fs) && ty_fields_keys_distinct(*fs),
        Ty::Recursive(b) => ty_keys_distinct(*b),
        Ty::Named(_) => true,
    }
}

pub open spec fn ty_fields_keys_distinct(fs: List<(Name, Ty)>) -> bool
    decreases fs,
{
    match fs {
        List::Nil => true,
        List::Cons(hd, tl) => ty_keys_distinct(hd.1) && ty_fields_keys_distinct(*tl),
    }
}

/// Every `RecurId(k)` refers to one of the `d` binders around `l` or to a
/// `Recursive` inside it.
pub open spec fn layout_closed(l: Layout, d: nat) -> bool
    decreases l,
{
    match l {
        Layout::U64(_) => true,
        Layout::Ptr { pointee, .. } => layout_closed(*pointee, d),
        Layout::Aggregate { fields } => fields_closed(*fields, d),
        Layout::Variant(VariantLayout::Single { field }) => layout_closed(*field, d),
        Layout::Variant(VariantLayout::Tagged(t)) => fields_closed(*t.variants, d),
        Layout::Recursive(b) => layout_closed(*b, d + 1),
        Layout::RecurId(k) => k.index < d,
    }
}

pub open spec fn fields_closed(fs: List<(Name, Layout)>, d: nat) -> bool
    decreases fs,
{
    match fs {
        List::Nil => true,
        List::Cons(hd, tl) => layout_closed(hd.1, d) && fields_closed(*tl, d),
    }
}

/// Every value of `a` is a value of `b`.
pub open spec fn within(a: IntNiches, b: IntNiches) -> bool {
    forall|v: u64| a.contains(v) ==> b.contains(v)
}

/// `new` has the shape of `old`, and each of its niche sets lies within the
/// matching one of `old`.
pub open spec fn shrunk_from(new: Layout, old: Layout) -> bool
    decreases old,
{
    match (new, old) {
        (Layout::U64(a), Layout::U64(b)) => within(a, b),
        (Layout::Ptr { pointee: p, niches: a }, Layout::Ptr { pointee: q, niches: b }) => within(a, b)
            && shrunk_from(*p, *q),
        (Layout::Aggregate { fields: f }, Layout::Aggregate { fields: g }) => fields_shrunk(*f, *g),
        (
            Layout::Variant(VariantLayout::Single { field: f }),
            Layout::Variant(VariantLayout::Single { field: g }),
        ) => shrunk_from(*f, *g),
        (Layout::Variant(VariantLayout::Tagged(s)), Layout::Variant(VariantLayout::Tagged(u))) => match (
            s.tag,
            u.tag,
        ) {
            (TagLayout::Direct { values: v1, niches: a }, TagLayout::Direct { values: v2, niches: b }) => v1
                == v2 && within(a, b) && fields_shrunk(*s.variants, *u.variants),
            (TagLayout::Niche { .. }, TagLayout::Niche { .. }) => s.tag == u.tag && fields_shrunk(
                *s.variants,
                *u.variants,
            ),
            _ => false,
        },
        (Layout::Recursive(a), Layout::Recursive(b)) => shrunk_from(*a, *b),
        (Layout::RecurId(a), Layout::RecurId(b)) => a == b,
        _ => false,
    }
}

pub open spec fn fields_shrunk(new: List<(Name, Layout)>, old: List<(Name, Layout)>) -> bool
    decreases old,
{
    match (new, old) {
        (List::Nil, List::Nil) => true,
        (List::Cons(a, ta), List::Cons(b, tb)) => a.0 == b.0 && shrunk_from(a.1, b.1) && fields_shrunk(*ta, *tb),
        _ => false,
    }
}

/// Every pointer's niches lie within `{0}`.
pub open spec fn ptrs_within_null(l: Layout) -> bool
    decreases l,
{
    match l {
        Layout::U64(_) => true,
        Layout::Ptr { pointee, niches } => within(niches, IntNiches { range: Some((0, 0)) })
            && ptrs_within_null(*pointee),
        Layout::Aggregate { fields } => fields_ptrs_within_null(*fields),
        Layout::Variant(VariantLayout::Single { field }) => ptrs_within_null(*field),
        Layout::Variant(VariantLayout::Tagged(t)) => fields_ptrs_within_null(*t.variants),
        Layout::Recursive(b) => ptrs_within_null(*b),
        Layout::RecurId(_) => true,
    }
}

pub open spec fn fields_ptrs_within_null(fs: List<(Name, Layout)>) -> bool
    decreases fs,
{
    match fs {
        List::Nil => true,
        List::Cons(hd, tl) => ptrs_within_null(hd.1) && fields_ptrs_within_null(*tl),
    }
}

/// Taking niches out of a layout only shrinks its niche sets: the shape,
/// the names, which parts are zero-sized and which back references are closed
/// all stay as they were.
pub proof fn lemma_extract_shrinks(l: Layout, count: u64, d: nat)
    ensures
        shrunk_from(extract_spec(l, count).0, l),
        layout_is_zst(extract_spec(l, count).0) == layout_is_zst(l),
        layout_closed(extract_spec(l, count).0, d) == layout_closed(l, d),
    decreases l,
{
    match l {
        Layout::U64(_) => {},
        Layout::Ptr { pointee, .. } => lemma_shrunk_refl(*pointee),
        Layout::Aggregate { fields } => lemma_extract_many_shrinks(*fields, count, None, d),
        Layout::Variant(VariantLayout::Single { field }) => lemma_extract_shrinks(*field, count, d),
        Layout::Variant(VariantLayout::Tagged(t)) => {
            lemma_fields_shrunk_refl(*t.variants);
            lemma_extract_many_shrinks(*t.variants, count, Some(VariantRepr::Wrapper), d);
            lemma_extract_many_shrinks(*t.variants, count, Some(VariantRepr::Transparent), d);
        },
        Layout::Recursive(b) => lemma_extract_shrinks(*b, count, d + 1),
        Layout::RecurId(_) => {},
    }
}

pub proof fn lemma_extract_many_shrinks(fs: List<(Name, Layout)>, count: u64, repr: Option<VariantRepr>, d: nat)
    ensures
        fields_shrunk(extract_many_spec(fs, count, repr).0, fs),
        all_zst(extract_many_spec(fs, count, repr).0) == all_zst(fs),
        zst_names(extract_many_spec(fs, count, repr).0) == zst_names(fs),
        non_zst_count(extract_many_spec(fs, count, repr).0) == non_zst_count(fs),
        entry_names(extract_many_spec(fs, count, repr).0) == entry_names(fs),
        fields_closed(extract_many_spec(fs, count, repr).0, d) == fields_closed(fs, d),
    decreases fs,
{
    if let List::Cons(hd, tl) = fs {
        lemma_extract_shrinks(hd.1, count, d);
        lemma_extract_many_shrinks(*tl, count, repr, d);
        lemma_fields_shrunk_refl(*tl);
    }
}

pub proof fn lemma_shrunk_refl(l: Layout)
    ensures
        shrunk_from(l, l),
    decreases l,
{
    match l {
        Layout::Ptr { pointee, .. } => lemma_shrunk_refl(*pointee),
        Layout::Aggregate { fields } => lemma_fields_shrunk_refl(*fields),
        Layout::Variant(VariantLayout::Single { field }) => lemma_shrunk_refl(*field),
        Layout::Variant(VariantLayout::Tagged(t)) => lemma_fields_shrunk_refl(*t.variants),
        Layout::Recursive(b) => lemma_shrunk_refl(*b),
        _ => {},
    }
}

pub proof fn lemma_fields_shrunk_refl(fs: List<(Name, Layout)>)
    ensures
        fields_shrunk(fs, fs),
    decreases fs,
{
    if let List::Cons(hd, tl) = fs {
        lemma_shrunk_refl(hd.1);
        lemma_fields_shrunk_refl(*tl);
    }
}

/// Shrinking keeps every pointer's niches within `{0}`.
pub proof fn lemma_shrunk_ptrs(new: Layout, old: Layout)
    requires
        shrunk_from(new, old),
        ptrs_within_null(old),
    ensures
        ptrs_within_null(new),
    decreases old,
{
    match (new, old) {
        (Layout::Ptr { pointee: p, .. }, Layout::Ptr { pointee: q, .. }) => lemma_shrunk_ptrs(*p, *q),
        (Layout::Aggregate { fields: f }, Layout::Aggregate { fields: g }) => lemma_fields_shrunk_ptrs(*f, *g),
        (
            Layout::Variant(VariantLayout::Single { field: f }),
            Layout::Variant(VariantLayout::Single { field: g }),
        ) => lemma_shrunk_ptrs(*f, *g),
        (Layout::Variant(VariantLayout::Tagged(s)), Layout::Variant(VariantLayout::Tagged(u))) => {
            lemma_fields_shrunk_ptrs(*s.variants, *u.variants)
        },
        (Layout::Recursive(a), Layout::Recursive(b)) => lemma_shrunk_ptrs(*a, *b),
        _ => {},
    }
}

pub proof fn lemma_fields_shrunk_ptrs(new: List<(Name, Layout)>, old: List<(Name, Layout)>)
    requires
        fields_shrunk(new, old),
        fields_ptrs_within_null(old),
    ensures
        fields_ptrs_within_null(new),
    decreases old,
{
    if let (List::Cons(a, ta), List::Cons(b, tb)) = (new, old) {
        lemma_shrunk_ptrs(a.1, b.1);
        lemma_fields_shrunk_ptrs(*ta, *tb);
    }
}

/// What `multi_spec` keeps of the variants: the names, which are
/// zero-sized, which back references are closed, and pointer niches within
/// `{0}`.
proof fn lemma_multi_keeps(vls: List<(Name, Layout)>, d: nat)
    ensures
        entry_names(*multi_spec(vls).variants) == entry_names(vls),
        zst_names(*multi_spec(vls).variants) == zst_names(vls),
        fields_closed(*multi_spec(vls).variants, d) == fields_closed(vls, d),
        fields_ptrs_within_null(vls) ==> fields_ptrs_within_null(*multi_spec(vls).variants),
{
    let nullary = zst_names(vls);
    lemma_extract_many_shrinks(vls, nullary.len() as u64, Some(VariantRepr::Transparent), d);
    if fields_ptrs_within_null(vls) {
        lemma_fields_shrunk_ptrs(extract_many_spec(vls, nullary.len() as u64, Some(VariantRepr::Transparent)).0, vls);
    }
}

/// A layout computed for a type whose references are all bound refers back
/// only to `Recursive` layouts around it: no `RecurId` escapes.
pub proof fn lemma_layout_closed(ty: Ty, d: nat)
    requires
        ty_closed(ty, d),
    ensures
        layout_closed(layout_of_spec(ty), d),
    decreases ty,
{
    match ty {
        Ty::Box(b) => lemma_layout_closed(*b, d),
        Ty::Record(fs) => lemma_layouts_closed(*fs, d),
        Ty::Variant(vs) => {
            lemma_layouts_closed(*vs, d);
            lemma_multi_keeps(layouts_spec(*vs), d);
            if let List::Cons(hd, tl) = *vs {
                assert(ty_fields_closed(*vs, d));
                assert(ty_closed(hd.1, d));
                lemma_layout_closed(hd.1, d);
            } else {
                assert(layout_closed(Layout::Aggregate { fields: Box::new(List::Nil) }, d));
            }
        },
        Ty::Recursive(b) => lemma_layout_closed(*b, d + 1),
        _ => {},
    }
}

proof fn lemma_layouts_closed(fs: List<(Name, Ty)>, d: nat)
    requires
        ty_fields_closed(fs, d),
    ensures
        fields_closed(layouts_spec(fs), d),
    decreases fs,
{
    if let List::Cons(hd, tl) = fs {
        lemma_layout_closed(hd.1, d);
        lemma_layouts_closed(*tl, d);
    }
}

/// In every layout that `layout_of` computes, each pointer's niches lie
/// within `{0}`: a pointer starts with the null address as its niche, and
/// taking niches out never adds to a set.
pub proof fn lemma_layout_ptrs(ty: Ty)
    ensures
        ptrs_within_null(layout_of_spec(ty)),
    decreases ty,
{
    match ty {
        Ty::Box(b) => lemma_layout_ptrs(*b),
        Ty::Record(fs) => lemma_layouts_ptrs(*fs),
        Ty::Variant(vs) => {
            lemma_layouts_ptrs(*vs);
            lemma_multi_keeps(layouts_spec(*vs), 0);
            if let List::Cons(hd, tl) = *vs {
                lemma_layout_ptrs(hd.1);
            } else {
                assert(ptrs_within_null(Layout::Aggregate { fields: Box::new(List::Nil) }));
            }
        },
        Ty::Recursive(b) => lemma_layout_ptrs(*b),
        _ => {},
    }
}

proof fn lemma_layouts_ptrs(fs: List<(Name, Ty)>)
    ensures
        fields_ptrs_within_null(layouts_spec(fs)),
    decreases fs,
{
    if let List::Cons(hd, tl) = fs {
        lemma_layout_ptrs(hd.1);
        lemma_layouts_ptrs(*tl);
    }
}

proof fn lemma_zst_names_in_entries(fs: List<(Name, Layout)>)
    ensures
        forall|x: Name| zst_names(fs).contains(x) ==> entry_names(fs).contains(x),
    decreases fs,
{
    if let List::Cons(hd, tl) = fs {
        lemma_zst_names_in_entries(*tl);
        assert forall|x: Name| zst_names(fs).contains(x) implies entry_names(fs).contains(x) by {
            if layout_is_zst(hd.1) && x != hd.0 {
                assert(zst_names(*tl).contains(x)) by {
                    let i = choose|i: int| 0 <= i < zst_names(fs).len() && zst_names(fs)[i] == x;
                    assert(zst_names(fs)[i] == zst_names(*tl)[i - 1]);
                }
            }
            if x == hd.0 {
                assert(entry_names(fs)[0] == x);
            } else {
                assert(zst_names(*tl).contains(x)) by {
                    if layout_is_zst(hd.1) {
                        let i = choose|i: int| 0 <= i < zst_names(fs).len() && zst_names(fs)[i] == x;
                        assert(zst_names(fs)[i] == zst_names(*tl)[i - 1]);
                    }
                }
                let k = choose|k: int| 0 <= k < entry_names(*tl).len() && entry_names(*tl)[k] == x;
                assert(entry_names(fs)[k + 1] == x);
            }
        }
    }
}

/// With distinct names, the name of an entry that is not zero-sized is not
/// among the names of the zero-sized ones.
proof fn lemma_payload_not_nullary(fs: List<(Name, Layout)>, j: int)
    requires
        entry_names(fs).no_duplicates(),
        0 <= j < fs.view_seq().len(),
        !layout_is_zst(fs.view_seq()[j].1),
    ensures
        !zst_names(fs).contains(fs.view_seq()[j].0),
    decreases fs,
{
    if let List::Cons(hd, tl) = fs {
        lemma_zst_names_in_entries(*tl);
        assert(entry_names(*tl) =~= entry_names(fs).drop_first());
        assert forall|k: int| 0 <= k < entry_names(*tl).len() implies entry_names(*tl)[k] != hd.0 by {
            assert(entry_names(fs)[k + 1] == entry_names(*tl)[k]);
            assert(entry_names(fs)[0] == hd.0);
        }
        if j == 0 {
            assert(zst_names(fs) == zst_names(*tl));
        } else {
            assert(fs.view_seq()[j] == tl.view_seq()[j - 1]);
            lemma_payload_not_nullary(*tl, j - 1);
            lemma_entry_in_names(*tl, j - 1);
            if layout_is_zst(hd.1) {
                assert(zst_names(fs) == seq![hd.0] + zst_names(*tl));
                let x = fs.view_seq()[j].0;
                assert(x != hd.0);
                if zst_names(fs).contains(x) {
                    let i = choose|i: int| 0 <= i < zst_names(fs).len() && zst_names(fs)[i] == x;
                    assert(i != 0);
                    assert(zst_names(*tl)[i - 1] == x);
                }
            }
        }
    }
}

proof fn lemma_entry_in_names(fs: List<(Name, Layout)>, j: int)
    requires
        0 <= j < fs.view_seq().len(),
    ensures
        entry_names(fs).len() == fs.view_seq().len(),
        entry_names(fs)[j] == fs.view_seq()[j].0,
    decreases fs,
{
    if let List::Cons(hd, tl) = fs {
        if j > 0 {
            lemma_entry_in_names(*tl, j - 1);
        } else if tl.view_seq().len() > 0 {
            lemma_entry_in_names(*tl, 0);
        } else {
            tl.lemma_view_len();
            lemma_names_len(*tl);
        }
    }
}

proof fn lemma_names_len(fs: List<(Name, Layout)>)
    ensures
        entry_names(fs).len() == fs.view_seq().len(),
    decreases fs,
{
    if let List::Cons(_, tl) = fs {
        lemma_names_len(*tl);
    }
}

/// The variant names are distinct, as the keys of a map are.
pub open spec fn names_distinct(vls: List<(Name, Layout)>) -> bool {
    entry_names(vls).no_duplicates()
}

/// A niche tag that `layout_of` computes, over variants with distinct names,
/// gives a value to each zero-sized variant, in order; exactly one variant is
/// not zero-sized and it has no value; the values are pairwise distinct.
pub proof fn lemma_niche_tag(vls: List<(Name, Layout)>)
    requires
        names_distinct(vls),
        vls.spec_len() <= u64::MAX,
    ensures
        multi_spec(vls).tag matches TagLayout::Niche { values, .. } ==> {
            let vs = *multi_spec(vls).variants;
            &&& names_distinct(vs)
            &&& non_zst_count(vs) == 1
            &&& values.view_seq().len() == zst_names(vs).len()
            &&& values.view_seq().len() + 1 == vs.spec_len()
            &&& forall|i: int| 0 <= i < values.view_seq().len() ==> #[trigger] values.view_seq()[i].0 == zst_names(vs)[i]
            &&& forall|i: int, k: int|
                0 <= i < k < values.view_seq().len() ==> #[trigger] values.view_seq()[i].1 != #[trigger] values.view_seq()[k].1
            &&& forall|j: int, i: int|
                0 <= j < vs.view_seq().len() && !layout_is_zst(vs.view_seq()[j].1) && 0 <= i < values.view_seq().len()
                    ==> #[trigger] values.view_seq()[i].0 != #[trigger] vs.view_seq()[j].0
        },
{
    lemma_multi_keeps(vls, 0);
    if let TagLayout::Niche { values, .. } = multi_spec(vls).tag {
        let vs = *multi_spec(vls).variants;
        let nullary = zst_names(vls);
        let (vs2, r) = extract_many_spec(vls, nullary.len() as u64, Some(VariantRepr::Transparent));
        let lo = r.unwrap().niche.range.unwrap().0 as int;
        assert(values == crate::layout_of::number_from(nullary, lo));
        crate::layout_of::lemma_number_from_len(nullary, lo);
        assert forall|i: int| 0 <= i < values.view_seq().len() implies #[trigger] values.view_seq()[i].0
            == zst_names(vs)[i] by {
            crate::layout_of::lemma_number_from(nullary, lo, i);
        }
        let nv = nullary.len() as u64;
        lemma_extract_many_shrinks(vls, nv, Some(VariantRepr::Transparent), 0);
        lemma_fields_shrunk_len(vs, vls);
        crate::layout_of::lemma_entry_counts(vls);
        assert forall|i: int, k: int| 0 <= i < k < values.view_seq().len() implies #[trigger] values.view_seq()[i].1
            != #[trigger] values.view_seq()[k].1 by {
            crate::layout_of::lemma_number_from(nullary, lo, i);
            crate::layout_of::lemma_number_from(nullary, lo, k);
            crate::layout_of::lemma_extracted_many_shape(vls, nv, Some(VariantRepr::Transparent));
            assert(nv as int == nullary.len());
            let (a, b) = r.unwrap().niche.range.unwrap();
            assert(b == a + nv - 1);
            assert(lo + k <= u64::MAX);
            assert(crate::layout_of::number_from(nullary, lo).view_seq()[i] == (nullary[i], (lo + i) as u64));
            assert(crate::layout_of::number_from(nullary, lo).view_seq()[k] == (nullary[k], (lo + k) as u64));
            assert(values.view_seq()[i].1 == (lo + i) as u64);
            assert(values.view_seq()[k].1 == (lo + k) as u64);
        }
        if entry_names(vls).no_duplicates() {
            assert forall|j: int, i: int|
                0 <= j < vs.view_seq().len() && !layout_is_zst(vs.view_seq()[j].1) && 0 <= i
                    < values.view_seq().len() implies #[trigger] values.view_seq()[i].0 != #[trigger] vs.view_seq()[j].0 by {
                lemma_payload_not_nullary(vs, j);
                crate::layout_of::lemma_number_from(nullary, lo, i);
                assert(zst_names(vs)[i] == values.view_seq()[i].0);
            }
        }
    }
}

/// Where `layout_of` gives a variant type a direct tag, the tag numbers the
/// variants `0, 1, …, n - 1` in order and its niches are exactly the values
/// that no variant uses. (A direct tag nested in a payload may later give
/// niches to an enclosing type, after which its niches are fewer.)
pub proof fn lemma_layout_of_direct_tag(vs: List<(Name, Ty)>)
    requires
        vs.spec_len() <= u64::MAX + 1,
    ensures
        layout_of_spec(Ty::Variant(Box::new(vs))) matches Layout::Variant(VariantLayout::Tagged(tl)) ==> (
        tl.tag matches TagLayout::Direct { values, niches } ==> {
            let n = tl.variants.spec_len();
            &&& n == vs.spec_len()
            &&& values.view_seq().len() == n
            &&& forall|i: int| 0 <= i < n ==> #[trigger] values.view_seq()[i] == (entry_names(*tl.variants)[i], i as u64)
            &&& forall|v: u64| niches.contains(v) <==> v >= n
        }),
{
    let vls = layouts_spec(vs);
    crate::layout_of::lemma_layouts_len(vs);
    let nullary = zst_names(vls);
    lemma_extract_many_shrinks(vls, nullary.len() as u64, Some(VariantRepr::Transparent), 0);
    let vs2 = extract_many_spec(vls, nullary.len() as u64, Some(VariantRepr::Transparent)).0;
    lemma_fields_shrunk_len(vs2, vls);
    crate::layout_of::lemma_direct_tag(vls);
    crate::layout_of::lemma_direct_tag(vs2);
}

proof fn lemma_fields_shrunk_len(new: List<(Name, Layout)>, old: List<(Name, Layout)>)
    requires
        fields_shrunk(new, old),
    ensures
        new.spec_len() == old.spec_len(),
    decreases old,
{
    if let (List::Cons(_, ta), List::Cons(_, tb)) = (new, old) {
        lemma_fields_shrunk_len(*ta, *tb);
    }
}

/// The names that `values` gives values to, in order.
pub open spec fn value_names(values: List<(Name, u64)>) -> Seq<Name>
    decreases values,
{
    match values {
        List::Nil => Seq::empty(),
        List::Cons(hd, tl) => seq![hd.0] + value_names(*tl),
    }
}

/// Every niche tag in `l`, at any depth, has exactly one variant that is not
/// zero-sized, and gives values to exactly the zero-sized ones, in order.
pub open spec fn niche_tags_ok(l: Layout) -> bool
    decreases l,
{
    match l {
        Layout::U64(_) => true,
        Layout::Ptr { pointee, .. } => niche_tags_ok(*pointee),
        Layout::Aggregate { fields } => all_niche_tags_ok(*fields),
        Layout::Variant(VariantLayout::Single { field }) => niche_tags_ok(*field),
        Layout::Variant(VariantLayout::Tagged(t)) => all_niche_tags_ok(*t.variants) && match t.tag {
            TagLayout::Niche { values, .. } => non_zst_count(*t.variants) == 1 && value_names(values) == zst_names(
                *t.variants,
            ),
            TagLayout::Direct { .. } => true,
        },
        Layout::Recursive(b) => niche_tags_ok(*b),
        Layout::RecurId(_) => true,
    }
}

pub open spec fn all_niche_tags_ok(fs: List<(Name, Layout)>) -> bool
    decreases fs,
{
    match fs {
        List::Nil => true,
        List::Cons(hd, tl) => niche_tags_ok(hd.1) && all_niche_tags_ok(*tl),
    }
}

proof fn lemma_value_names(names: Seq<Name>, start: int)
    ensures
        value_names(crate::layout_of::number_from(names, start)) == names,
    decreases names.len(),
{
    if names.len() > 0 {
        lemma_value_names(names.drop_first(), start + 1);
        assert(names =~= seq![names[0]] + names.drop_first());
    } else {
        assert(names =~= Seq::<Name>::empty());
    }
}

/// Taking niches keeps every niche tag as it was.
pub proof fn lemma_extract_keeps_niche_tags(l: Layout, count: u64)
    requires
        niche_tags_ok(l),
    ensures
        niche_tags_ok(extract_spec(l, count).0),
    decreases l,
{
    match l {
        Layout::Aggregate { fields } => lemma_extract_many_keeps_niche_tags(*fields, count, None),
        Layout::Variant(VariantLayout::Single { field }) => lemma_extract_keeps_niche_tags(*field, count),
        Layout::Variant(VariantLayout::Tagged(t)) => {
            lemma_extract_many_keeps_niche_tags(*t.variants, count, Some(VariantRepr::Wrapper));
            lemma_extract_many_keeps_niche_tags(*t.variants, count, Some(VariantRepr::Transparent));
            lemma_extract_many_shrinks(*t.variants, count, Some(VariantRepr::Wrapper), 0);
            lemma_extract_many_shrinks(*t.variants, count, Some(VariantRepr::Transparent), 0);
        },
        Layout::Recursive(b) => lemma_extract_keeps_niche_tags(*b, count),
        _ => {},
    }
}

pub proof fn lemma_extract_many_keeps_niche_tags(fs: List<(Name, Layout)>, count: u64, repr: Option<VariantRepr>)
    requires
        all_niche_tags_ok(fs),
    ensures
        all_niche_tags_ok(extract_many_spec(fs, count, repr).0),
    decreases fs,
{
    if let List::Cons(hd, tl) = fs {
        lemma_extract_keeps_niche_tags(hd.1, count);
        lemma_extract_many_keeps_niche_tags(*tl, count, repr);
    }
}

/// Every niche tag in a layout that `layout_of` computes, at any depth, has
/// exactly one payload and gives values to exactly the zero-sized variants.
pub proof fn lemma_layout_niche_tags(ty: Ty)
    ensures
        niche_tags_ok(layout_of_spec(ty)),
    decreases ty,
{
    match ty {
        Ty::Box(b) => lemma_layout_niche_tags(*b),
        Ty::Record(fs) => lemma_layouts_niche_tags(*fs),
        Ty::Variant(vs) => {
            lemma_layouts_niche_tags(*vs);
            let vls = layouts_spec(*vs);
            let nullary = zst_names(vls);
            let count = nullary.len() as u64;
            lemma_extract_many_keeps_niche_tags(vls, count, Some(VariantRepr::Transparent));
            lemma_extract_many_shrinks(vls, count, Some(VariantRepr::Transparent), 0);
            let r = extract_many_spec(vls, count, Some(VariantRepr::Transparent)).1;
            if r is Some {
                lemma_value_names(nullary, r.unwrap().niche.range.unwrap().0 as int);
            }
            if let List::Cons(hd, tl) = *vs {
                assert(niche_tags_ok(layout_of_spec(hd.1))) by {
                    lemma_layout_niche_tags(hd.1);
                }
            } else {
                assert(niche_tags_ok(Layout::Aggregate { fields: Box::new(List::Nil) }));
            }
        },
        Ty::Recursive(b) => lemma_layout_niche_tags(*b),
        _ => {},
    }
}

proof fn lemma_layouts_niche_tags(fs: List<(Name, Ty)>)
    ensures
        all_niche_tags_ok(layouts_spec(fs)),
    decreases fs,
{
    if let List::Cons(hd, tl) = fs {
        lemma_layout_niche_tags(hd.1);
        lemma_layouts_niche_tags(*tl);
    }
}

/// A layout whose niche tags each have one payload always has a low-level
/// type.
pub proof fn lemma_niche_tags_lower(l: Layout, t: Name, d: Name)
    requires
        niche_tags_ok(l),
    ensures
        crate::lower::lower_layout_spec(l, t, d) is Some,
    decreases l,
{
    match l {
        Layout::Ptr { pointee, .. } => lemma_niche_tags_lower(*pointee, t, d),
        Layout::Aggregate { fields } => lemma_all_niche_tags_lower(*fields, t, d),
        Layout::Variant(VariantLayout::Single { field }) => lemma_niche_tags_lower(*field, t, d),
        Layout::Variant(VariantLayout::Tagged(tl)) => {
            lemma_all_niche_tags_lower(*tl.variants, t, d);
            lemma_payload_lowers(*tl.variants, t, d);
        },
        Layout::Recursive(b) => lemma_niche_tags_lower(*b, t, d),
        _ => {},
    }
}

proof fn lemma_all_niche_tags_lower(fs: List<(Name, Layout)>, t: Name, d: Name)
    requires
        all_niche_tags_ok(fs),
    ensures
        crate::lower::lower_layouts_spec(fs, t, d) is Some,
    decreases fs,
{
    if let List::Cons(hd, tl) = fs {
        lemma_niche_tags_lower(hd.1, t, d);
        lemma_all_niche_tags_lower(*tl, t, d);
    }
}

proof fn lemma_payload_lowers(fs: List<(Name, Layout)>, t: Name, d: Name)
    requires
        all_niche_tags_ok(fs),
    ensures
        non_zst_count(fs) >= 1 ==> crate::lower::lower_payload_spec(fs, t, d) is Some,
    decreases fs,
{
    if let List::Cons(hd, tl) = fs {
        lemma_niche_tags_lower(hd.1, t, d);
        lemma_payload_lowers(*tl, t, d);
    }
}

/// Every layout that `layout_of` computes has a low-level type.
pub proof fn lemma_layout_of_lowers(ty: Ty, t: Name, d: Name)
    ensures
        crate::lower::lower_layout_spec(layout_of_spec(ty), t, d) is Some,
{
    lemma_layout_niche_tags(ty);
    lemma_niche_tags_lower(layout_of_spec(ty), t, d);
}

proof fn lemma_lookup_none_not_in_names(fs: List<(Name, Ty)>, n: Name)
    requires
        crate::lir::lookup(fs, n) is None,
    ensures
        !entry_names(layouts_spec(fs)).contains(n),
    decreases fs,
{
    if let List::Cons(hd, tl) = fs {
        lemma_lookup_none_not_in_names(*tl, n);
        assert(hd.0 != n) by {
            if hd.0 == n {
                assert(crate::name::same_name(n, n));
            }
        }
        assert(entry_names(layouts_spec(fs)) =~= seq![hd.0] + entry_names(layouts_spec(*tl)));
    }
}

/// Distinct keys in a type's map give distinct variant names in its layout.
proof fn lemma_keys_distinct_names(fs: List<(Name, Ty)>)
    requires
        crate::lir::keys_distinct(fs),
    ensures
        names_distinct(layouts_spec(fs)),
    decreases fs,
{
    if let List::Cons(hd, tl) = fs {
        lemma_keys_distinct_names(*tl);
        lemma_lookup_none_not_in_names(*tl, hd.0);
        let rest = entry_names(layouts_spec(*tl));
        let all = entry_names(layouts_spec(fs));
        assert(all =~= seq![hd.0] + rest);
        assert forall|i: int, j: int| 0 <= i < all.len() && 0 <= j < all.len() && i != j implies all[i] != all[j] by {
            if i == 0 {
                assert(all[j] == rest[j - 1]);
            } else if j == 0 {
                assert(all[i] == rest[i - 1]);
            } else {
                assert(all[i] == rest[i - 1] && all[j] == rest[j - 1]);
            }
        }
    }
}

/// The niche tag that `layout_of` gives a variant type whose variant names
/// are distinct (a map's keys) covers exactly the zero-sized variants, in
/// order, with pairwise distinct values, and leaves out the one payload.
pub proof fn lemma_layout_of_niche_tag(vs: List<(Name, Ty)>)
    requires
        crate::lir::keys_distinct(vs),
        vs.spec_len() <= u64::MAX,
    ensures
        layout_of_spec(Ty::Variant(Box::new(vs))) matches Layout::Variant(VariantLayout::Tagged(tl)) ==> (
        tl.tag matches TagLayout::Niche { values, .. } ==> {
            let v = *tl.variants;
            &&& non_zst_count(v) == 1
            &&& values.view_seq().len() + 1 == v.spec_len()
            &&& forall|i: int| 0 <= i < values.view_seq().len() ==> #[trigger] values.view_seq()[i].0 == zst_names(v)[i]
            &&& forall|i: int, k: int|
                0 <= i < k < values.view_seq().len() ==> #[trigger] values.view_seq()[i].1 != #[trigger] values.view_seq()[k].1
            &&& forall|j: int, i: int|
                0 <= j < v.view_seq().len() && !layout_is_zst(v.view_seq()[j].1) && 0 <= i < values.view_seq().len()
                    ==> #[trigger] values.view_seq()[i].0 != #[trigger] v.view_seq()[j].0
        }),
{
    lemma_keys_distinct_names(vs);
    crate::layout_of::lemma_layouts_len(vs);
    lemma_niche_tag(layouts_spec(vs));
}

/// The values of a tag's map are pairwise distinct.
pub open spec fn values_distinct(values: List<(Name, u64)>) -> bool {
    forall|i: int, k: int|
        0 <= i < k < values.view_seq().len() ==> #[trigger] values.view_seq()[i].1 != #[trigger] values.view_seq()[k].1
}

/// Every niche tag in `l`, at any depth, gives pairwise distinct values.
pub open spec fn niche_values_distinct(l: Layout) -> bool
    decreases l,
{
    match l {
        Layout::U64(_) => true,
        Layout::Ptr { pointee, .. } => niche_values_distinct(*pointee),
        Layout::Aggregate { fields } => all_niche_values_distinct(*fields),
        Layout::Variant(VariantLayout::Single { field }) => niche_values_distinct(*field),
        Layout::Variant(VariantLayout::Tagged(t)) => all_niche_values_distinct(*t.variants) && match t.tag {
            TagLayout::Niche { values, .. } => values_distinct(values),
            TagLayout::Direct { .. } => true,
        },
        Layout::Recursive(b) => niche_values_distinct(*b),
        Layout::RecurId(_) => true,
    }
}

pub open spec fn all_niche_values_distinct(fs: List<(Name, Layout)>) -> bool
    decreases fs,
{
    match fs {
        List::Nil => true,
        List::Cons(hd, tl) => niche_values_distinct(hd.1) && all_niche_values_distinct(*tl),
    }
}

/// Every variant type in `ty` has at most `u64::MAX` variants.
pub open spec fn variants_bounded(ty: Ty) -> bool
    decreases ty,
{
    match ty {
        Ty::U64 => true,
        Ty::Box(b) => variants_bounded(*b),
        Ty::Record(fs) => fields_variants_bounded(*fs),
        Ty::Variant(fs) => fs.spec_len() <= u64::MAX && fields_variants_bounded(*fs),
        Ty::Recursive(b) => variants_bounded(*b),
        Ty::Named(_) => true,
    }
}

pub open spec fn fields_variants_bounded(fs: List<(Name, Ty)>) -> bool
    decreases fs,
{
    match fs {
        List::Nil => true,
        List::Cons(hd, tl) => variants_bounded(hd.1) && fields_variants_bounded(*tl),
    }
}

pub proof fn lemma_extract_keeps_niche_values(l: Layout, count: u64)
    requires
        niche_values_distinct(l),
    ensures
        niche_values_distinct(extract_spec(l, count).0),
    decreases l,
{
    match l {
        Layout::Aggregate { fields } => lemma_extract_many_keeps_niche_values(*fields, count, None),
        Layout::Variant(VariantLayout::Single { field }) => lemma_extract_keeps_niche_values(*field, count),
        Layout::Variant(VariantLayout::Tagged(t)) => {
            lemma_extract_many_keeps_niche_values(*t.variants, count, Some(VariantRepr::Wrapper));
            lemma_extract_many_keeps_niche_values(*t.variants, count, Some(VariantRepr::Transparent));
        },
        Layout::Recursive(b) => lemma_extract_keeps_niche_values(*b, count),
        _ => {},
    }
}

pub proof fn lemma_extract_many_keeps_niche_values(fs: List<(Name, Layout)>, count: u64, repr: Option<VariantRepr>)
    requires
        all_niche_values_distinct(fs),
    ensures
        all_niche_values_distinct(extract_many_spec(fs, count, repr).0),
    decreases fs,
{
    if let List::Cons(hd, tl) = fs {
        lemma_extract_keeps_niche_values(hd.1, count);
        lemma_extract_many_keeps_niche_values(*tl, count, repr);
    }
}

/// The niche tag built over at most `u64::MAX` variants gives pairwise
/// distinct values.
proof fn lemma_multi_values_distinct(vls: List<(Name, Layout)>)
    requires
        vls.spec_len() <= u64::MAX,
    ensures
        multi_spec(vls).tag matches TagLayout::Niche { values, .. } ==> values_distinct(values),
{
    if let TagLayout::Niche { values, .. } = multi_spec(vls).tag {
        let nullary = zst_names(vls);
        let nv = nullary.len() as u64;
        let r = extract_many_spec(vls, nv, Some(VariantRepr::Transparent)).1;
        let lo = r.unwrap().niche.range.unwrap().0 as int;
        assert(values == crate::layout_of::number_from(nullary, lo));
        crate::layout_of::lemma_number_from_len(nullary, lo);
        crate::layout_of::lemma_entry_counts(vls);
        assert forall|i: int, k: int| 0 <= i < k < values.view_seq().len() implies #[trigger] values.view_seq()[i].1
            != #[trigger] values.view_seq()[k].1 by {
            crate::layout_of::lemma_number_from(nullary, lo, i);
            crate::layout_of::lemma_number_from(nullary, lo, k);
            crate::layout_of::lemma_extracted_many_shape(vls, nv, Some(VariantRepr::Transparent));
            assert(nv as int == nullary.len());
            let (a, b) = r.unwrap().niche.range.unwrap();
            assert(b == a + nv - 1);
            assert(lo + k <= u64::MAX);
            assert(crate::layout_of::number_from(nullary, lo).view_seq()[i] == (nullary[i], (lo + i) as u64));
            assert(crate::layout_of::number_from(nullary, lo).view_seq()[k] == (nullary[k], (lo + k) as u64));
        }
    }
}

/// Every niche tag in a layout that `layout_of` computes, at any depth,
/// gives pairwise distinct values, where no variant type has more than
/// `u64::MAX` variants.
pub proof fn lemma_layout_niche_values(ty: Ty)
    requires
        variants_bounded(ty),
    ensures
        niche_values_distinct(layout_of_spec(ty)),
    decreases ty,
{
    match ty {
        Ty::Box(b) => lemma_layout_niche_values(*b),
        Ty::Record(fs) => lemma_layouts_niche_values(*fs),
        Ty::Variant(vs) => {
            lemma_layouts_niche_values(*vs);
            let vls = layouts_spec(*vs);
            crate::layout_of::lemma_layouts_len(*vs);
            let count = zst_names(vls).len() as u64;
            lemma_extract_many_keeps_niche_values(vls, count, Some(VariantRepr::Transparent));
            lemma_multi_values_distinct(vls);
            if let List::Cons(hd, tl) = *vs {
                assert(niche_values_distinct(layout_of_spec(hd.1))) by {
                    assert(fields_variants_bounded(*vs));
                    assert(variants_bounded(hd.1));
                    lemma_layout_niche_values(hd.1);
                }
            } else {
                assert(niche_values_distinct(Layout::Aggregate { fields: Box::new(List::Nil) }));
            }
        },
        Ty::Recursive(b) => lemma_layout_niche_values(*b),
        _ => {},
    }
}

proof fn lemma_layouts_niche_values(fs: List<(Name, Ty)>)
    requires
        fields_variants_bounded(fs),
    ensures
        all_niche_values_distinct(layouts_spec(fs)),
    decreases fs,
{
    if let List::Cons(hd, tl) = fs {
        lemma_layout_niche_values(hd.1);
        lemma_layouts_niche_values(*tl);
    }
}

} // verus!
