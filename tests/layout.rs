use niche_lang::debruijn::Debruijn;
use niche_lang::hir;
use niche_lang::hir::typeck::TypeError;
use niche_lang::layout::extract::ExtractedNiche;
use niche_lang::layout::path::{TagPath, ValueProj};
use niche_lang::layout::{Layout, TagLayout, TaggedLayout, VariantLayout, VariantRepr};
use niche_lang::layout_of::{layout_of, try_layout_of};
use niche_lang::lir;
use niche_lang::list::List;
use niche_lang::lower::{lower_layout, try_lower_root_expr};
use niche_lang::name::Name;
use niche_lang::niches::IntNiches;
use niche_lang::pipeline::{parse, parse_ty};

// DISPLAY, with maps in name order

fn show_name(n: &Name) -> String {
    match n {
        Name::User(s) => s.clone(),
        Name::Temp(i) => format!("t#{}", i),
        Name::Tag => String::from("tag"),
        Name::Data => String::from("data"),
    }
}

fn sorted<T>(l: &List<(Name, T)>) -> Vec<&(Name, T)> {
    let mut v = l.iter();
    v.sort_by_key(|e| show_name(&e.0));
    v
}

fn show_map<T>(l: &List<(Name, T)>, f: &dyn Fn(&T) -> String, kv: &str, sep: &str) -> String {
    let entries = sorted(l);
    if entries.is_empty() {
        return String::from("{}");
    }
    let parts: Vec<String> = entries.iter().map(|(n, x)| format!("{}{}{}", show_name(n), kv, f(x))).collect();
    format!("{{ {} }}", parts.join(sep))
}

fn show_niches(n: &IntNiches) -> String {
    match n.as_range() {
        None => String::from("none"),
        Some(r) => format!("{:?}", r),
    }
}

fn show_path(l: &List<ValueProj>) -> String {
    match l {
        List::Nil => String::from("{root}"),
        List::Cons(ValueProj::Field(f), prev) => format!("{}.{}", show_path(prev), show_name(f)),
        List::Cons(ValueProj::Variant { repr, name }, prev) => {
            format!("({} as({}) {})", show_path(prev), repr.descr(), show_name(name))
        }
        List::Cons(ValueProj::Tag, prev) => format!("{}.{{tag}}", show_path(prev)),
    }
}

fn show_tag(t: &TagLayout) -> String {
    match t {
        TagLayout::Direct { values, niches } => format!(
            "Direct(values: {}, niches: {})",
            show_map(values, &|v: &u64| v.to_string(), " => ", ", "),
            show_niches(niches)
        ),
        TagLayout::Niche { path, values } => format!(
            "Niche(path: {}, values: {})",
            show_path(&path.reversed),
            show_map(values, &|v: &u64| v.to_string(), " => ", ", ")
        ),
    }
}

fn show_tagged(t: &TaggedLayout) -> String {
    let mut s = format!("tag: {}, variants:\n", show_tag(&t.tag));
    for (n, l) in sorted(&t.variants) {
        s.push_str(&format!("| {} => {}\n", show_name(n), show_layout(l)));
    }
    s
}

fn show_layout(l: &Layout) -> String {
    match l {
        Layout::U64(n) => format!("U64(niches: {})", show_niches(n)),
        Layout::Ptr { pointee, niches } => {
            format!("Ptr(pointee: {}, niches: {})", show_layout(pointee), show_niches(niches))
        }
        Layout::Aggregate { fields } => format!("Aggregate {}", show_map(fields, &show_layout, " => ", ", ")),
        Layout::Variant(VariantLayout::Single { field }) => format!("Variant(Single(field: {}))", show_layout(field)),
        Layout::Variant(VariantLayout::Tagged(t)) => format!("Variant(Tagged({}))", show_tagged(t)),
        Layout::Recursive(b) => format!("Recursive({})", show_layout(b)),
        Layout::RecurId(k) => format!("recur#{}", k.index()),
    }
}

fn show_lty(t: &lir::Ty) -> String {
    match t {
        lir::Ty::U64 => String::from("U64"),
        lir::Ty::Ptr(p) => format!("Ptr({})", show_lty(p)),
        lir::Ty::Record(fs) => show_map(fs, &show_lty, " : ", ", "),
        lir::Ty::UntaggedUnion(fs) => format!("union {}", show_map(fs, &show_lty, " : ", " | ")),
        lir::Ty::Recursive(b) => format!("µ. {}", show_lty(b)),
        lir::Ty::RecurId(k) => format!("#{}", k.index()),
    }
}

fn show_lexpr(e: &lir::Expr) -> String {
    match e {
        lir::Expr::U64(n) => format!("{}_u64", n),
        lir::Expr::Record(fs) => show_map(fs, &show_lexpr, " = ", ", "),
        other => format!("{:?}", other),
    }
}

// HELPERS

fn map_of(entries: Vec<(&str, hir::Ty)>) -> Box<List<(Name, hir::Ty)>> {
    Box::new(List::from_vec(entries.into_iter().map(|(n, t)| (Name::user(n), t)).collect()))
}

fn unit_ty() -> hir::Ty {
    parse_ty("{}").unwrap()
}

fn pair_of(field0: hir::Ty, field1: hir::Ty) -> hir::Ty {
    hir::Ty::Record(map_of(vec![("0", field0), ("1", field1)]))
}

fn empty_ty() -> hir::Ty {
    parse_ty("<>").unwrap()
}

fn bool_ty() -> hir::Ty {
    parse_ty("<False of {} | True of {}>").unwrap()
}

fn maybe_of(ty: hir::Ty) -> hir::Ty {
    hir::Ty::Variant(map_of(vec![("None", hir::Ty::Record(map_of(vec![]))), ("Some", ty)]))
}

fn maybe_empty_ty() -> hir::Ty {
    maybe_of(empty_ty())
}

fn maybe_bool_ty() -> hir::Ty {
    maybe_of(bool_ty())
}

fn either_of(left: hir::Ty, right: hir::Ty) -> hir::Ty {
    hir::Ty::Variant(map_of(vec![("Left", left), ("Right", right)]))
}

fn list_of(elem: hir::Ty) -> hir::Ty {
    hir::Ty::Recursive(Box::new(hir::Ty::Variant(map_of(vec![
        ("Nil", hir::Ty::Record(map_of(vec![]))),
        (
            "Cons",
            hir::Ty::Record(map_of(vec![
                ("hd", elem),
                ("tl", hir::Ty::Box(Box::new(hir::Ty::Named(Debruijn::new(0))))),
            ])),
        ),
    ]))))
}

fn lyt(ty: hir::Ty) -> String {
    show_layout(&try_layout_of(ty).unwrap())
}

fn lty(ty: hir::Ty) -> String {
    show_lty(&lower_layout(try_layout_of(ty).unwrap()).unwrap())
}

// TESTS

#[test]
fn unit_ty_layout() {
    assert_eq!(lyt(unit_ty()), "Aggregate {}");
}

#[test]
fn unit_ty_lir() {
    assert_eq!(show_lexpr(&try_lower_root_expr(parse("{}").unwrap()).unwrap()), "{}");
}

#[test]
fn empty_variant_layout() {
    assert_eq!(lyt(empty_ty()), "Variant(Single(field: Aggregate {}))");
}

#[test]
fn empty_variant_lty() {
    assert_eq!(lty(empty_ty()), "{}");
}

#[test]
fn bool_layout() {
    assert_eq!(
        lyt(bool_ty()),
        "Variant(Tagged(tag: Direct(values: { False => 0, True => 1 }, niches: 2..=18446744073709551615), variants:
| False => Aggregate {}
| True => Aggregate {}
))"
    );
}

#[test]
fn maybe_empty_layout() {
    assert_eq!(
        lyt(maybe_empty_ty()),
        "Variant(Tagged(tag: Direct(values: { None => 0, Some => 1 }, niches: 2..=18446744073709551615), variants:
| None => Aggregate {}
| Some => Variant(Single(field: Aggregate {}))
))"
    );
}

#[test]
fn maybe_empty_lty() {
    assert_eq!(lty(maybe_empty_ty()), "{ data : union { None : {} | Some : {} }, tag : U64 }");
}

#[test]
fn maybe_bool_layout() {
    assert_eq!(
        lyt(maybe_bool_ty()),
        "Variant(Tagged(tag: Niche(path: ({root} as(transparent) Some).{tag}, values: { None => 2 }), variants:
| None => Aggregate {}
| Some => Variant(Tagged(tag: Direct(values: { False => 0, True => 1 }, niches: 3..=18446744073709551615), variants:
| False => Aggregate {}
| True => Aggregate {}
))
))"
    );
}

#[test]
fn either_unit_unit_layout() {
    assert_eq!(
        lyt(either_of(unit_ty(), unit_ty())),
        "Variant(Tagged(tag: Direct(values: { Left => 0, Right => 1 }, niches: 2..=18446744073709551615), variants:
| Left => Aggregate {}
| Right => Aggregate {}
))"
    );
}

#[test]
fn either_unit_bool_layout() {
    assert_eq!(
        lyt(either_of(unit_ty(), bool_ty())),
        "Variant(Tagged(tag: Niche(path: ({root} as(transparent) Right).{tag}, values: { Left => 2 }), variants:
| Left => Aggregate {}
| Right => Variant(Tagged(tag: Direct(values: { False => 0, True => 1 }, niches: 3..=18446744073709551615), variants:
| False => Aggregate {}
| True => Aggregate {}
))
))"
    );
}

#[test]
fn either_bool_unit_layout() {
    assert_eq!(
        lyt(either_of(bool_ty(), unit_ty())),
        "Variant(Tagged(tag: Niche(path: ({root} as(transparent) Left).{tag}, values: { Right => 2 }), variants:
| Left => Variant(Tagged(tag: Direct(values: { False => 0, True => 1 }, niches: 3..=18446744073709551615), variants:
| False => Aggregate {}
| True => Aggregate {}
))
| Right => Aggregate {}
))"
    );
}

#[test]
fn either_bool_bool_layout() {
    assert_eq!(
        lyt(either_of(bool_ty(), bool_ty())),
        "Variant(Tagged(tag: Direct(values: { Left => 0, Right => 1 }, niches: 2..=18446744073709551615), variants:
| Left => Variant(Tagged(tag: Direct(values: { False => 0, True => 1 }, niches: 2..=18446744073709551615), variants:
| False => Aggregate {}
| True => Aggregate {}
))
| Right => Variant(Tagged(tag: Direct(values: { False => 0, True => 1 }, niches: 2..=18446744073709551615), variants:
| False => Aggregate {}
| True => Aggregate {}
))
))"
    );
}

#[test]
fn either_unit_maybe_bool_layout() {
    assert_eq!(
        lyt(either_of(unit_ty(), maybe_of(bool_ty()))),
        "Variant(Tagged(tag: Niche(path: (({root} as(transparent) Right) as(transparent) Some).{tag}, values: { Left => 3 }), variants:
| Left => Aggregate {}
| Right => Variant(Tagged(tag: Niche(path: ({root} as(transparent) Some).{tag}, values: { None => 2 }), variants:
| None => Aggregate {}
| Some => Variant(Tagged(tag: Direct(values: { False => 0, True => 1 }, niches: 4..=18446744073709551615), variants:
| False => Aggregate {}
| True => Aggregate {}
))
))
))"
    );
}

#[test]
fn maybe_of_pair_of_unit_and_unit_layout() {
    assert_eq!(
        lyt(maybe_of(pair_of(unit_ty(), unit_ty()))),
        "Variant(Tagged(tag: Direct(values: { None => 0, Some => 1 }, niches: 2..=18446744073709551615), variants:
| None => Aggregate {}
| Some => Aggregate { 0 => Aggregate {}, 1 => Aggregate {} }
))"
    );
}

#[test]
fn maybe_of_pair_of_unit_and_bool_layout() {
    assert_eq!(
        lyt(maybe_of(pair_of(unit_ty(), bool_ty()))),
        "Variant(Tagged(tag: Niche(path: ({root} as(transparent) Some).1.{tag}, values: { None => 2 }), variants:
| None => Aggregate {}
| Some => Aggregate { 0 => Aggregate {}, 1 => Variant(Tagged(tag: Direct(values: { False => 0, True => 1 }, niches: 3..=18446744073709551615), variants:
| False => Aggregate {}
| True => Aggregate {}
)) }
))"
    );
}

#[test]
fn maybe_of_pair_of_bool_and_unit_layout() {
    assert_eq!(
        lyt(maybe_of(pair_of(bool_ty(), unit_ty()))),
        "Variant(Tagged(tag: Niche(path: ({root} as(transparent) Some).0.{tag}, values: { None => 2 }), variants:
| None => Aggregate {}
| Some => Aggregate { 0 => Variant(Tagged(tag: Direct(values: { False => 0, True => 1 }, niches: 3..=18446744073709551615), variants:
| False => Aggregate {}
| True => Aggregate {}
)), 1 => Aggregate {} }
))"
    );
}

#[test]
fn maybe_of_pair_of_bool_and_bool_layout() {
    assert_eq!(
        lyt(maybe_of(pair_of(bool_ty(), bool_ty()))),
        "Variant(Tagged(tag: Niche(path: ({root} as(transparent) Some).0.{tag}, values: { None => 2 }), variants:
| None => Aggregate {}
| Some => Aggregate { 0 => Variant(Tagged(tag: Direct(values: { False => 0, True => 1 }, niches: 3..=18446744073709551615), variants:
| False => Aggregate {}
| True => Aggregate {}
)), 1 => Variant(Tagged(tag: Direct(values: { False => 0, True => 1 }, niches: 2..=18446744073709551615), variants:
| False => Aggregate {}
| True => Aggregate {}
)) }
))"
    );
}

#[test]
fn list_of_unit_layout() {
    assert_eq!(
        lyt(list_of(unit_ty())),
        "Recursive(Variant(Tagged(tag: Niche(path: ({root} as(transparent) Cons).tl, values: { Nil => 0 }), variants:
| Cons => Aggregate { hd => Aggregate {}, tl => Ptr(pointee: recur#0, niches: none) }
| Nil => Aggregate {}
)))"
    );
}

#[test]
fn list_of_bool_layout() {
    assert_eq!(
        lyt(list_of(bool_ty())),
        "Recursive(Variant(Tagged(tag: Niche(path: ({root} as(transparent) Cons).hd.{tag}, values: { Nil => 2 }), variants:
| Cons => Aggregate { hd => Variant(Tagged(tag: Direct(values: { False => 0, True => 1 }, niches: 3..=18446744073709551615), variants:
| False => Aggregate {}
| True => Aggregate {}
)), tl => Ptr(pointee: recur#0, niches: 0..=0) }
| Nil => Aggregate {}
)))"
    );
}

#[test]
fn list_of_maybe_unit_layout() {
    assert_eq!(
        lyt(list_of(maybe_of(unit_ty()))),
        "Recursive(Variant(Tagged(tag: Niche(path: ({root} as(transparent) Cons).hd.{tag}, values: { Nil => 2 }), variants:
| Cons => Aggregate { hd => Variant(Tagged(tag: Direct(values: { None => 0, Some => 1 }, niches: 3..=18446744073709551615), variants:
| None => Aggregate {}
| Some => Aggregate {}
)), tl => Ptr(pointee: recur#0, niches: 0..=0) }
| Nil => Aggregate {}
)))"
    );
}

#[test]
fn list_of_maybe_bool_layout() {
    assert_eq!(
        lyt(list_of(maybe_of(bool_ty()))),
        "Recursive(Variant(Tagged(tag: Niche(path: (({root} as(transparent) Cons).hd as(transparent) Some).{tag}, values: { Nil => 3 }), variants:
| Cons => Aggregate { hd => Variant(Tagged(tag: Niche(path: ({root} as(transparent) Some).{tag}, values: { None => 2 }), variants:
| None => Aggregate {}
| Some => Variant(Tagged(tag: Direct(values: { False => 0, True => 1 }, niches: 4..=18446744073709551615), variants:
| False => Aggregate {}
| True => Aggregate {}
))
)), tl => Ptr(pointee: recur#0, niches: 0..=0) }
| Nil => Aggregate {}
)))"
    );
}

// SCENARIOS FROM SOURCE TEXT

#[test]
fn layout_of_bool_source_is_direct() {
    let l = try_layout_of(parse_ty("<False of {} | True of {}>").unwrap()).unwrap();
    match l {
        Layout::Variant(VariantLayout::Tagged(TaggedLayout { tag: TagLayout::Direct { values, niches }, .. })) => {
            assert_eq!(values, List::from_vec(vec![(Name::user("False"), 0), (Name::user("True"), 1)]));
            assert_eq!(niches, IntNiches { range: Some((2, u64::MAX)) });
        }
        other => panic!("unexpected layout {:?}", other),
    }
}

#[test]
fn layout_of_maybe_bool_source_is_niche() {
    let l = try_layout_of(parse_ty("<None of {} | Some of <False of {} | True of {}>>").unwrap()).unwrap();
    assert_eq!(
        show_layout(&l),
        "Variant(Tagged(tag: Niche(path: ({root} as(transparent) Some).{tag}, values: { None => 2 }), variants:
| None => Aggregate {}
| Some => Variant(Tagged(tag: Direct(values: { False => 0, True => 1 }, niches: 3..=18446744073709551615), variants:
| False => Aggregate {}
| True => Aggregate {}
))
))"
    );
}

#[test]
fn layout_of_list_source_uses_null_pointer() {
    let l = try_layout_of(parse_ty("µX. <Nil of {} | Cons of { hd : {}, tl : Box[X] }>").unwrap()).unwrap();
    assert_eq!(
        show_layout(&l),
        "Recursive(Variant(Tagged(tag: Niche(path: ({root} as(transparent) Cons).tl, values: { Nil => 0 }), variants:
| Cons => Aggregate { hd => Aggregate {}, tl => Ptr(pointee: recur#0, niches: none) }
| Nil => Aggregate {}
)))"
    );
}

#[test]
fn layout_of_unguarded_list_is_rejected() {
    let ty = parse_ty("µX. <Nil of {} | Cons of { hd : X, tl : Box[X] }>").unwrap();
    assert_eq!(try_layout_of(ty).err(), Some(TypeError::InfiniteType));
}

#[test]
fn layout_of_u64_has_no_niches() {
    assert_eq!(try_layout_of(hir::Ty::U64).unwrap(), Layout::U64(IntNiches::none()));
}

#[test]
fn pointer_layout_has_null_niche() {
    let p = Layout::ptr(Layout::U64(IntNiches::none()));
    assert_eq!(
        p,
        Layout::Ptr { pointee: Box::new(Layout::U64(IntNiches::none())), niches: IntNiches { range: Some((0, 0)) } }
    );
}

#[test]
fn extract_niche_is_deterministic() {
    let ty = list_of(maybe_of(bool_ty()));
    let mut a = try_layout_of(ty.clone()).unwrap();
    let mut b = try_layout_of(ty).unwrap();
    let ra = a.extract_niche(5);
    let rb = b.extract_niche(5);
    assert_eq!(ra, rb);
    assert_eq!(a, b);
    let ExtractedNiche { path, niche } = ra.unwrap();
    assert_eq!(niche, IntNiches { range: Some((4, 8)) });
    assert_eq!(show_path(&path.reversed), "(({root} as(transparent) Cons).hd as(transparent) Some).{tag}");
}

#[test]
fn extract_niche_from_pointer_takes_null() {
    let mut p = Layout::ptr(Layout::U64(IntNiches::none()));
    let r = p.extract_niche(1).unwrap();
    assert_eq!(r.niche, IntNiches { range: Some((0, 0)) });
    assert_eq!(r.path, TagPath::empty());
    assert_eq!(p.extract_niche(1), Err(()));
}

#[test]
fn extract_niche_from_back_reference_fails() {
    let mut l = Layout::RecurId(Debruijn::new(0));
    assert_eq!(l.extract_niche(1), Err(()));
}

#[test]
fn direct_tag_numbers_and_niches() {
    let t = TagLayout::direct(List::from_vec(vec![(Name::user("A"), 0), (Name::user("B"), 1), (Name::user("C"), 2)]));
    assert_eq!(t.niches(), IntNiches { range: Some((3, u64::MAX)) });
    assert!(!t.is_zst());
    assert_eq!(t.as_variant_repr(), VariantRepr::Wrapper);
}

#[test]
fn niche_tag_is_zero_sized() {
    let t = TagLayout::Niche { path: TagPath::empty(), values: List::Nil };
    assert!(t.is_zst());
    assert_eq!(t.niches(), IntNiches::none());
    assert_eq!(t.as_variant_repr(), VariantRepr::Transparent);
    assert_eq!(VariantRepr::Wrapper.descr(), "wrapper");
}

#[test]
fn layout_zero_sized() {
    assert!(try_layout_of(unit_ty()).unwrap().is_zst());
    assert!(!try_layout_of(bool_ty()).unwrap().is_zst());
    assert!(try_layout_of(empty_ty()).unwrap().is_zst());
    assert!(!Layout::RecurId(Debruijn::new(0)).is_zst());
}

#[test]
fn expect_variant_gives_inner_layout() {
    let v = try_layout_of(empty_ty()).unwrap().expect_variant();
    assert_eq!(v, VariantLayout::Single { field: Box::new(Layout::Aggregate { fields: Box::new(List::Nil) }) });
}

#[test]
fn layout_of_valid_type_directly() {
    assert_eq!(layout_of(unit_ty()), Layout::Aggregate { fields: Box::new(List::Nil) });
}
