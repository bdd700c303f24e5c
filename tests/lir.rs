use niche_lang::lir::size::Size;
use niche_lang::lir::{Expr, Ty, Var};
use niche_lang::list::List;
use niche_lang::name::Name;
use niche_lang::debruijn::Debruijn;

fn rec(fields: Vec<(&str, Ty)>) -> Ty {
    Ty::Record(Box::new(List::from_vec(fields.into_iter().map(|(n, t)| (Name::user(n), t)).collect())))
}

fn union(fields: Vec<(&str, Ty)>) -> Ty {
    Ty::UntaggedUnion(Box::new(List::from_vec(fields.into_iter().map(|(n, t)| (Name::user(n), t)).collect())))
}

#[test]
fn test_is_zst() {
    assert!(rec(vec![]).is_zst());
    assert!(rec(vec![("x", rec(vec![])), ("y", rec(vec![]))]).is_zst());
    assert!(union(vec![]).is_zst());
    assert!(union(vec![("x", rec(vec![])), ("y", rec(vec![]))]).is_zst());

    assert!(!Ty::U64.is_zst());
    assert!(!union(vec![("x", rec(vec![("x", Ty::U64)]))]).is_zst())
}

#[test]
fn packed_sizes() {
    assert_eq!(Ty::U64.packed_size(), Some(Size::from_bytes(8)));
    assert_eq!(Ty::Ptr(Box::new(rec(vec![]))).packed_size(), Some(Size::from_bytes(8)));
    assert_eq!(rec(vec![("a", Ty::U64), ("b", Ty::U64)]).packed_size(), Some(Size::from_bytes(16)));
    assert_eq!(union(vec![]).packed_size(), Some(Size::from_bytes(0)));
    assert_eq!(
        union(vec![("a", Ty::U64), ("b", rec(vec![("x", Ty::U64), ("y", Ty::U64)]))]).packed_size(),
        Some(Size::from_bytes(16))
    );
    assert_eq!(Ty::Recursive(Box::new(Ty::U64)).packed_size(), Some(Size::from_bytes(8)));
    assert_eq!(Ty::RecurId(Debruijn::new(0)).packed_size(), None);
    assert_eq!(Size::from_bytes(24).bytes(), 24);
}

#[test]
fn expr_types() {
    let r = Expr::Record(Box::new(List::from_vec(vec![(Name::user("a"), Expr::U64(1))])));
    assert_eq!(r.try_ty(), Some(rec(vec![("a", Ty::U64)])));
    let sel = Expr::Select { record: Box::new(r), field: Name::user("a") };
    assert_eq!(sel.try_ty(), Some(Ty::U64));
    let bad = Expr::Select { record: Box::new(Expr::U64(3)), field: Name::user("a") };
    assert_eq!(bad.try_ty(), None);
    let boxed = Expr::Box(Box::new(Expr::U64(3)));
    assert_eq!(Expr::Deref(Box::new(boxed)).try_ty(), Some(Ty::U64));
    let v = Var::temp(4, Ty::U64);
    assert_eq!(v.name, Name::Temp(4));
    assert_eq!(Expr::Var(Var::new(Name::user("z"), Ty::U64)).try_ty(), Some(Ty::U64));
}

#[test]
fn select_type_directly() {
    let r = Expr::Record(Box::new(List::from_vec(vec![(Name::user("a"), Expr::U64(1))])));
    assert_eq!(Expr::Select { record: Box::new(r), field: Name::user("a") }.ty(), Ty::U64);
}
