use niche_lang::eval::EvalError;
use niche_lang::hir;
use niche_lang::lir;
use niche_lang::list::List;
use niche_lang::name::Name;
use niche_lang::parser::SyntaxError;
use niche_lang::pipeline::{parse, parse_and_eval, parse_ty, Error};

#[test]
fn type_of_unit_is_unit() {
    assert_eq!(parse("{}").unwrap().try_ty(), Ok(hir::Ty::Record(Box::new(List::Nil))));
}

#[test]
fn eval_let_binding() {
    assert_eq!(parse_and_eval("let x : U64 = 7 in x"), Ok(lir::Value::U64(7)));
}

#[test]
fn eval_match_on_niche_encoded_some_false() {
    let bool_ty = "<False of {} | True of {}>";
    let maybe = "<None of {} | Some of <False of {} | True of {}>>";
    let src = format!(
        "match <Some = <False = {{}}> as {bool_ty}> as {maybe} {{ <Some = b : {bool_ty}> as {maybe} => b, <None = u : {{}}> as {maybe} => <True = {{}}> as {bool_ty} }}"
    );
    let expected = lir::Value::Record(Box::new(List::from_vec(vec![
        (Name::Tag, lir::Value::U64(0)),
        (Name::Data, lir::Value::Record(Box::new(List::Nil))),
    ])));
    assert_eq!(parse_and_eval(&src), Ok(expected));
}

#[test]
fn eval_record_and_box() {
    let v = parse_and_eval("{ a = 1, b = box(2) }").unwrap();
    let expected = lir::Value::Record(Box::new(List::from_vec(vec![
        (Name::user("a"), lir::Value::U64(1)),
        (Name::user("b"), lir::Value::Box(Box::new(lir::Value::U64(2)))),
    ])));
    assert_eq!(v, expected);
}

#[test]
fn eval_with_alias_and_comment() {
    let src = "alias B = <F of {} | T of {}> in -- a two-valued type\n match <T = {}> as B { <F = x : {}> as B => 0, <T = y : {}> as B => 1 }";
    assert_eq!(parse_and_eval(src), Ok(lir::Value::U64(1)));
}

#[test]
fn unbound_variable_fails_to_evaluate() {
    assert_eq!(parse_and_eval("x : U64"), Err(Error::Eval(EvalError::UnboundVar)));
}

#[test]
fn syntax_errors() {
    assert_eq!(parse_ty("X").err(), Some(SyntaxError::NameNotFound));
    assert_eq!(parse("{ a = 1").err(), Some(SyntaxError::UnexpectedEnd));
    assert_eq!(parse("1 2").err(), Some(SyntaxError::ExpectedEnd));
    assert_eq!(parse("#").err(), Some(SyntaxError::UnexpectedChar));
    assert_eq!(parse("99999999999999999999").err(), Some(SyntaxError::InvalidNumber));
    assert_eq!(parse_and_eval("let"), Err(Error::Syntax(SyntaxError::UnexpectedEnd)));
}

#[test]
fn parse_recursive_type_uses_de_bruijn_indices() {
    let ty = parse_ty("µX. µY. Box[{ a : X, b : Y }]").unwrap();
    let inner = hir::Ty::Box(Box::new(hir::Ty::Record(Box::new(List::from_vec(vec![
        (Name::user("a"), hir::Ty::Named(niche_lang::debruijn::Debruijn::new(1))),
        (Name::user("b"), hir::Ty::Named(niche_lang::debruijn::Debruijn::new(0))),
    ])))));
    assert_eq!(ty, hir::Ty::Recursive(Box::new(hir::Ty::Recursive(Box::new(inner)))));
}

#[test]
fn parse_largest_number() {
    assert_eq!(parse("18446744073709551615").unwrap(), hir::Expr::U64(u64::MAX));
}

#[test]
fn later_field_of_same_name_replaces_earlier() {
    let expected = lir::Value::Record(Box::new(List::from_vec(vec![(Name::user("a"), lir::Value::U64(2))])));
    assert_eq!(parse_and_eval("{ a = 1, a = 2 }"), Ok(expected));
    let ty = parse_ty("{ x : U64, x : {} }").unwrap();
    assert_eq!(ty, hir::Ty::Record(Box::new(List::from_vec(vec![(Name::user("x"), hir::Ty::Record(Box::new(List::Nil)))]))));
}
