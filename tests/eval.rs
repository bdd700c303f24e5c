use niche_lang::debruijn::Debruijn;
use niche_lang::eval::{eval_root_expr, try_eval_root_expr, Ctxt, EvalError};
use niche_lang::hir;
use niche_lang::hir::typeck::TypeError;
use niche_lang::layout::path::TagPath;
use niche_lang::layout::{Layout, TagLayout, TaggedLayout, VariantLayout};
use niche_lang::lir::{Expr, Ty, Value, Var};
use niche_lang::list::List;
use niche_lang::lower::{lower_layout, try_lower_root_expr, LowerError};
use niche_lang::name::Name;
use niche_lang::niches::IntNiches;
use niche_lang::parser::SyntaxError;
use niche_lang::pipeline::parse;

/// The name of a field: the reserved `tag` and `data` of a direct tag, or a
/// user field.
fn field_name(n: &str) -> Name {
    match n {
        "tag" => Name::Tag,
        "data" => Name::Data,
        _ => Name::user(n),
    }
}

fn record(entries: Vec<(&str, Expr)>) -> Expr {
    Expr::Record(Box::new(List::from_vec(entries.into_iter().map(|(n, e)| (field_name(n), e)).collect())))
}

fn let_in(name: &str, value: Expr, body: Expr) -> Expr {
    Expr::Let { binder: Var::new(Name::user(name), Ty::U64), value: Box::new(value), body: Box::new(body) }
}

fn switch(subj: &str, cases: Vec<(u64, Expr)>, default: Option<Expr>) -> Expr {
    Expr::Switch {
        subj: Var::new(Name::user(subj), Ty::U64),
        cases: Box::new(List::from_vec(cases)),
        default: default.map(Box::new),
    }
}

#[test]
fn eval_context_starts_empty() {
    assert_eq!(Ctxt::empty().vars, List::Nil);
}

#[test]
fn eval_select_and_deref() {
    let e = Expr::Deref(Box::new(Expr::Select {
        record: Box::new(record(vec![("p", Expr::Box(Box::new(Expr::U64(5))))])),
        field: Name::user("p"),
    }));
    assert_eq!(try_eval_root_expr(e), Ok(Value::U64(5)));
}

#[test]
fn eval_switch_picks_case_then_default() {
    let cases = || vec![(1, Expr::U64(10)), (2, Expr::U64(20))];
    assert_eq!(try_eval_root_expr(let_in("y", Expr::U64(2), switch("y", cases(), None))), Ok(Value::U64(20)));
    assert_eq!(
        try_eval_root_expr(let_in("y", Expr::U64(7), switch("y", cases(), Some(Expr::U64(99))))),
        Ok(Value::U64(99))
    );
    assert_eq!(
        try_eval_root_expr(let_in("y", Expr::U64(7), switch("y", cases(), None))),
        Err(EvalError::NoMatchingCase)
    );
}

#[test]
fn eval_switch_on_pointer_takes_default() {
    let e = let_in("y", Expr::Box(Box::new(Expr::U64(1))), switch("y", vec![(0, Expr::U64(0))], Some(Expr::U64(1))));
    assert_eq!(try_eval_root_expr(e), Ok(Value::U64(1)));
}

#[test]
fn eval_later_binding_shadows_earlier() {
    let v = |n: &str| Expr::Var(Var::new(Name::user(n), Ty::U64));
    let e = let_in("x", Expr::U64(1), let_in("x", Expr::U64(2), v("x")));
    assert_eq!(try_eval_root_expr(e), Ok(Value::U64(2)));
}

#[test]
fn eval_errors() {
    assert_eq!(try_eval_root_expr(Expr::Deref(Box::new(Expr::U64(1)))), Err(EvalError::NotABox));
    let sel = |r: Expr| Expr::Select { record: Box::new(r), field: Name::user("a") };
    assert_eq!(try_eval_root_expr(sel(Expr::U64(1))), Err(EvalError::NotARecord));
    assert_eq!(try_eval_root_expr(sel(record(vec![("b", Expr::U64(1))]))), Err(EvalError::MissingField));
    assert_eq!(
        try_eval_root_expr(let_in("y", record(vec![]), switch("y", vec![], None))),
        Err(EvalError::NotAnInteger)
    );
    assert_eq!(try_eval_root_expr(switch("y", vec![], None)), Err(EvalError::UnboundVar));
}

#[test]
fn eval_union_is_its_field() {
    let e = Expr::UntaggedUnion {
        ty: Ty::UntaggedUnion(Box::new(List::Nil)),
        field: Name::user("A"),
        value: Box::new(Expr::U64(3)),
    };
    assert_eq!(try_eval_root_expr(e), Ok(Value::U64(3)));
}

#[test]
fn type_of_index_overflow() {
    // unfold [µ. µ. Box[#0]] v, where v : Box[#MAX]: substituting under the
    // inner binder shifts #MAX past u64::MAX.
    let body = hir::Ty::Recursive(Box::new(hir::Ty::Box(Box::new(hir::Ty::Named(Debruijn::new(0))))));
    let ty = hir::Ty::Recursive(Box::new(body));
    let vt = hir::Ty::Box(Box::new(hir::Ty::Named(Debruijn::new(u64::MAX))));
    let v = hir::Expr::Var(hir::Var { name: Name::user("v"), ty: vt });
    let e = hir::Expr::Unfold { ty, value: Box::new(v) };
    assert_eq!(e.try_ty(), Err(TypeError::IndexOverflow));
}

#[test]
fn lowering_reports_type_errors() {
    let e = hir::Expr::Match { subj: Box::new(hir::Expr::U64(1)), cases: Box::new(List::Nil) };
    assert_eq!(try_lower_root_expr(e), Err(LowerError::Type(TypeError::EmptyMatch)));
}

#[test]
fn variant_of_non_variant_type() {
    assert_eq!(try_lower_root_expr(parse("<A = 1> as U64").unwrap()), Err(LowerError::NotAVariant));
}

#[test]
fn niche_tag_without_single_payload_has_no_type() {
    let two = List::from_vec(vec![
        (Name::user("A"), Layout::U64(IntNiches::none())),
        (Name::user("B"), Layout::U64(IntNiches::none())),
    ]);
    let l = Layout::Variant(VariantLayout::Tagged(TaggedLayout {
        tag: TagLayout::Niche { path: TagPath::empty(), values: List::Nil },
        variants: Box::new(two),
    }));
    assert_eq!(lower_layout(l), None);
}

#[test]
fn unexpected_token() {
    assert_eq!(parse(")").err(), Some(SyntaxError::UnexpectedToken));
}

#[test]
fn eval_root_expr_of_well_formed_program() {
    let e = let_in("x", Expr::U64(4), Expr::Var(Var::new(Name::user("x"), Ty::U64)));
    assert_eq!(eval_root_expr(e), Value::U64(4));
}
