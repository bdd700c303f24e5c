use niche_lang::debruijn::Debruijn;
use niche_lang::hir::ty_subst::{shift_ty, subst_ty};
use niche_lang::hir::typeck::{validate_ty, TypeError};
use niche_lang::hir::{Expr, Ty, Var};
use niche_lang::list::List;
use niche_lang::name::Name;
use niche_lang::pipeline::{parse, parse_ty};

fn t(src: &str) {
    let ty = match parse_ty(src) {
        Ok(ty) => ty,
        Err(_) => panic!("syntax error encountered"),
    };
    if validate_ty(&ty).is_err() {
        panic!("type error: infinite recursive type; insert a Box");
    }
}

#[test]
fn valid_types() {
    t("U64");
    t("Box[U64]");
    t("{x:{}}");
    t("<None of {} | Some of <False of {} | True of {}>>");
    t("µX. <Nil of {} | Cons of { hd : {}, tl : Box[X] }>");
    t("µX. Box[X]");
    t("µX. Box[Box[X]]");
    t("µX. Box[{ x : X, y : µY. Box[Y] }]");
}

#[test]
#[should_panic = "infinite recursive type"]
fn invalid_type_1() {
    t("µX. <Nil of {} | Cons of { hd : {}, tl : X }>");
}

#[test]
#[should_panic = "infinite recursive type"]
fn invalid_type_2() {
    t("µX. X");
}

#[test]
#[should_panic = "infinite recursive type"]
fn invalid_type_3() {
    t("Box[µX. X]");
}

#[test]
#[should_panic = "infinite recursive type"]
fn invalid_type_4() {
    t("µX. Box[{ x : X, y : µY. Y }]");
}

#[test]
#[should_panic = "syntax error encountered"]
fn invalid_type_5() {
    t("X");
}

#[test]
fn validator_error_is_infinite_type() {
    let ty = parse_ty("µX. { x : X }").unwrap();
    assert_eq!(validate_ty(&ty), Err(TypeError::InfiniteType));
    assert_eq!(validate_ty(&parse_ty("µX. Box[{ x : X }]").unwrap()), Ok(()));
}

#[test]
fn type_of_unit_record() {
    let e = parse("{}").unwrap();
    assert_eq!(e.try_ty(), Ok(Ty::Record(Box::new(List::Nil))));
}

#[test]
fn type_of_let() {
    let e = parse("let x : U64 = 7 in x").unwrap();
    assert_eq!(e.try_ty(), Ok(Ty::U64));
}

#[test]
fn type_of_unfold_substitutes_the_recursive_type() {
    // unfold [µX. Box[X]] v has type Box[µX. Box[X]].
    let rec = Ty::Recursive(Box::new(Ty::Box(Box::new(Ty::Named(Debruijn::new(0))))));
    let v = Expr::Var(Var { name: Name::user("v"), ty: rec.clone() });
    let e = Expr::Unfold { ty: rec.clone(), value: Box::new(v) };
    assert_eq!(e.try_ty(), Ok(Ty::Box(Box::new(rec))));
}

#[test]
fn type_of_unfold_needs_recursive_annotation() {
    let e = Expr::Unfold { ty: Ty::U64, value: Box::new(Expr::U64(1)) };
    assert_eq!(e.try_ty(), Err(TypeError::NotRecursive));
}

#[test]
fn type_of_empty_match_is_an_error() {
    let e = Expr::Match { subj: Box::new(Expr::U64(1)), cases: Box::new(List::Nil) };
    assert_eq!(e.try_ty(), Err(TypeError::EmptyMatch));
}

#[test]
fn type_of_rejects_unguarded_recursion() {
    let bad = Ty::Recursive(Box::new(Ty::Named(Debruijn::new(0))));
    let e = Expr::Var(Var { name: Name::user("v"), ty: bad });
    assert_eq!(e.try_ty(), Err(TypeError::InfiniteType));
}

#[test]
fn shift_moves_only_free_indices() {
    // µ. (#0, #1) shifted by 2 gives µ. (#0, #3).
    let pair = |a: u64, b: u64| {
        Ty::Record(Box::new(List::from_vec(vec![
            (Name::user("a"), Ty::Box(Box::new(Ty::Named(Debruijn::new(a))))),
            (Name::user("b"), Ty::Box(Box::new(Ty::Named(Debruijn::new(b))))),
        ])))
    };
    let ty = Ty::Recursive(Box::new(pair(0, 1)));
    assert_eq!(shift_ty(ty, 2), Some(Ty::Recursive(Box::new(pair(0, 3)))));
    assert_eq!(shift_ty(Ty::Named(Debruijn::new(u64::MAX)), 1), None);
}

#[test]
fn subst_replaces_and_shifts_under_binder() {
    // [#0 := #5] (µ. #1) = µ. #6
    let target = Ty::Recursive(Box::new(Ty::Named(Debruijn::new(1))));
    let r = subst_ty((Debruijn::new(0), Ty::Named(Debruijn::new(5))), target);
    assert_eq!(r, Some(Ty::Recursive(Box::new(Ty::Named(Debruijn::new(6))))));
    let r = subst_ty((Debruijn::new(0), Ty::U64), Ty::Named(Debruijn::new(0)));
    assert_eq!(r, Some(Ty::U64));
    let r = subst_ty((Debruijn::new(0), Ty::U64), Ty::Named(Debruijn::new(2)));
    assert_eq!(r, Some(Ty::Named(Debruijn::new(2))));
}

#[test]
fn debruijn_shift() {
    assert_eq!(Debruijn::new(3).shift_by(4).index(), 7);
}

#[test]
fn as_recursive_body() {
    let rec = Ty::Recursive(Box::new(Ty::U64));
    assert_eq!(rec.as_recursive(), Some(&Ty::U64));
    assert_eq!(Ty::U64.as_recursive(), None);
}

#[test]
fn name_kinds() {
    assert_eq!(Name::user("abc").as_user(), Some("abc"));
    assert_eq!(Name::Temp(3).as_user(), None);
    assert!(Name::user("a").same(&Name::from("a".to_string())));
    assert!(!Name::user("a").same(&Name::Temp(0)));
}

#[test]
fn type_of_well_typed_expression_directly() {
    assert_eq!(parse("{ a = 1 }").unwrap().ty(), Ty::Record(Box::new(List::from_vec(vec![(Name::user("a"), Ty::U64)]))));
}
