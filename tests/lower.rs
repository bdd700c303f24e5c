use niche_lang::eval::{eval_root_expr, try_eval_root_expr};
use niche_lang::hir;
use niche_lang::layout::path::{TagPath, ValueProj};
use niche_lang::layout::VariantRepr;
use niche_lang::lir;
use niche_lang::list::List;
use niche_lang::lower::{
    construct_niche_nullary_variant, lower_root_expr, try_lower_root_expr, select_value_at_path, Ctxt, LowerError,
};
use niche_lang::name::Name;
use niche_lang::pipeline::parse;

/// The name of a field: the reserved `tag` and `data` of a direct tag, or a
/// user field.
fn field_name(n: &str) -> Name {
    match n {
        "tag" => Name::Tag,
        "data" => Name::Data,
        _ => Name::user(n),
    }
}

fn record(entries: Vec<(&str, lir::Expr)>) -> lir::Expr {
    lir::Expr::Record(Box::new(List::from_vec(entries.into_iter().map(|(n, e)| (field_name(n), e)).collect())))
}

fn value_record(entries: Vec<(&str, lir::Value)>) -> lir::Value {
    lir::Value::Record(Box::new(List::from_vec(entries.into_iter().map(|(n, e)| (field_name(n), e)).collect())))
}

fn select(e: lir::Expr, field: &str) -> lir::Expr {
    lir::Expr::Select { record: Box::new(e), field: field_name(field) }
}

#[test]
fn test_construct_niche_nullary_variant() {
    fn c(p: TagPath, t: u64) -> lir::Expr {
        construct_niche_nullary_variant(p, t)
    }

    assert_eq!(c(TagPath::empty(), 123), lir::Expr::U64(123));
    assert_eq!(c(TagPath::singleton(ValueProj::Tag), 123), record(vec![("tag", lir::Expr::U64(123))]));
    assert_eq!(
        c(
            TagPath::singleton(ValueProj::Tag).with_outer_path(TagPath::singleton(ValueProj::Variant {
                repr: VariantRepr::Transparent,
                name: Name::user("Some"),
            })),
            123
        ),
        record(vec![("tag", lir::Expr::U64(123))])
    );
    assert_eq!(
        c(
            TagPath::singleton(ValueProj::Tag).with_outer_path(TagPath::singleton(ValueProj::Variant {
                repr: VariantRepr::Wrapper,
                name: Name::user("Some"),
            })),
            123
        ),
        record(vec![("data", record(vec![("tag", lir::Expr::U64(123))]))])
    );
}

#[test]
fn select_value_at_path_goes_from_the_root_inward() {
    // The path `(root as(transparent) Cons).hd.{tag}`.
    let path = TagPath::singleton(ValueProj::Tag)
        .with_outer_path(TagPath::singleton(ValueProj::Field(Name::user("hd"))))
        .with_outer_path(TagPath::singleton(ValueProj::Variant {
            repr: VariantRepr::Transparent,
            name: Name::user("Cons"),
        }));
    let root = lir::Expr::Var(lir::Var::temp(0, lir::Ty::U64));
    assert_eq!(select_value_at_path(root.clone(), path), select(select(root, "hd"), "tag"));
}

#[test]
fn select_through_wrapper_reads_data() {
    let path = TagPath::singleton(ValueProj::Tag).with_outer_path(TagPath::singleton(ValueProj::Variant {
        repr: VariantRepr::Wrapper,
        name: Name::user("Some"),
    }));
    let root = lir::Expr::U64(0);
    assert_eq!(select_value_at_path(root.clone(), path), select(select(root, "data"), "tag"));
}

#[test]
fn construct_then_select_reads_the_tag() {
    let path = || {
        TagPath::singleton(ValueProj::Tag)
            .with_outer_path(TagPath::singleton(ValueProj::Field(Name::user("hd"))))
            .with_outer_path(TagPath::singleton(ValueProj::Variant {
                repr: VariantRepr::Wrapper,
                name: Name::user("Cons"),
            }))
    };
    let built = construct_niche_nullary_variant(path(), 42);
    let read = select_value_at_path(built, path());
    assert_eq!(try_eval_root_expr(read), Ok(lir::Value::U64(42)));
}

#[test]
fn lower_let_of_integer() {
    let e = try_lower_root_expr(parse("let x : U64 = 7 in x").unwrap()).unwrap();
    assert_eq!(
        e,
        lir::Expr::Let {
            binder: lir::Var::new(Name::user("x"), lir::Ty::U64),
            value: Box::new(lir::Expr::U64(7)),
            body: Box::new(lir::Expr::Var(lir::Var::new(Name::user("x"), lir::Ty::U64))),
        }
    );
}

#[test]
fn lower_direct_variant_is_tag_and_data() {
    let e = try_lower_root_expr(parse("<True = {}> as <False of {} | True of {}>").unwrap()).unwrap();
    let union_ty = lir::Ty::UntaggedUnion(Box::new(List::from_vec(vec![
        (Name::user("False"), lir::Ty::Record(Box::new(List::Nil))),
        (Name::user("True"), lir::Ty::Record(Box::new(List::Nil))),
    ])));
    assert_eq!(
        e,
        record(vec![
            ("tag", lir::Expr::U64(1)),
            (
                "data",
                lir::Expr::UntaggedUnion {
                    ty: union_ty,
                    field: Name::user("True"),
                    value: Box::new(record(vec![])),
                }
            ),
        ])
    );
}

#[test]
fn lower_niche_nullary_variant_stores_tag_value() {
    let src = "<None = {}> as <None of {} | Some of <False of {} | True of {}>>";
    let e = try_lower_root_expr(parse(src).unwrap()).unwrap();
    assert_eq!(e, record(vec![("tag", lir::Expr::U64(2))]));
}

#[test]
fn lower_niche_payload_is_unchanged() {
    let src = "<Some = <False = {}> as <False of {} | True of {}>> as <None of {} | Some of <False of {} | True of {}>>";
    let inner = try_lower_root_expr(parse("<False = {}> as <False of {} | True of {}>").unwrap()).unwrap();
    assert_eq!(try_lower_root_expr(parse(src).unwrap()).unwrap(), inner);
}

const MAYBE_BOOL: &str = "<None of {} | Some of <False of {} | True of {}>>";
const BOOL: &str = "<False of {} | True of {}>";

fn match_some_or_none(subj: &str) -> String {
    format!(
        "match {subj} {{ <Some = b : {BOOL}> as {MAYBE_BOOL} => b, <None = u : {{}}> as {MAYBE_BOOL} => <True = {{}}> as {BOOL} }}"
    )
}

#[test]
fn match_on_niche_encoded_some_false() {
    let subj = format!("<Some = <False = {{}}> as {BOOL}> as {MAYBE_BOOL}");
    let v = try_eval_root_expr(try_lower_root_expr(parse(&match_some_or_none(&subj)).unwrap()).unwrap());
    assert_eq!(v, Ok(value_record(vec![("tag", lir::Value::U64(0)), ("data", value_record(vec![]))])));
}

#[test]
fn match_on_niche_encoded_none() {
    let subj = format!("<None = {{}}> as {MAYBE_BOOL}");
    let v = try_eval_root_expr(try_lower_root_expr(parse(&match_some_or_none(&subj)).unwrap()).unwrap());
    assert_eq!(v, Ok(value_record(vec![("tag", lir::Value::U64(1)), ("data", value_record(vec![]))])));
}

#[test]
fn match_on_direct_tag_round_trip() {
    let src = format!(
        "match <True = {{}}> as {BOOL} {{ <False = a : {{}}> as {BOOL} => 10, <True = b : {{}}> as {BOOL} => 20 }}"
    );
    let v = try_eval_root_expr(try_lower_root_expr(parse(&src).unwrap()).unwrap());
    assert_eq!(v, Ok(lir::Value::U64(20)));
}

#[test]
fn match_on_list_cons_round_trip() {
    let list = "µX. <Nil of {} | Cons of { hd : U64, tl : Box[X] }>";
    let body = "<Nil of {} | Cons of { hd : U64, tl : Box[µX. <Nil of {} | Cons of { hd : U64, tl : Box[X] }>] }>";
    let nil = format!("fold [{list}] <Nil = {{}}> as {body}");
    let cons = format!("fold [{list}] <Cons = {{ hd = 5, tl = box({nil}) }}> as {body}");
    let src = format!(
        "match unfold [{list}] {cons} {{ <Cons = c : {{ hd : U64, tl : Box[{list}] }}> as {body} => c, <Nil = n : {{}}> as {body} => {{ hd = 0, tl = box({nil}) }} }}"
    );
    let v = try_eval_root_expr(try_lower_root_expr(parse(&src).unwrap()).unwrap()).unwrap();
    match v {
        lir::Value::Record(fs) => {
            let first = fs.iter()[0];
            assert_eq!(first.0, Name::user("hd"));
            assert_eq!(first.1, lir::Value::U64(5));
        }
        other => panic!("unexpected value {:?}", other),
    }
}

#[test]
fn single_variant_match_binds_subject() {
    let src = "match <Only = 9> as <Only of U64> { <Only = x : U64> as <Only of U64> => x }";
    let v = try_eval_root_expr(try_lower_root_expr(parse(src).unwrap()).unwrap());
    assert_eq!(v, Ok(lir::Value::U64(9)));
}

#[test]
fn match_on_integer_is_unsupported() {
    let src = "match 3 { <A = x : U64> as <A of U64 | B of {}> => x }";
    assert_eq!(try_lower_root_expr(parse(src).unwrap()), Err(LowerError::UnsupportedMatch));
}

#[test]
fn unknown_variant_is_an_error() {
    let src = format!("<Maybe = {{}}> as {BOOL}");
    assert_eq!(try_lower_root_expr(parse(&src).unwrap()), Err(LowerError::UnknownVariant));
}

#[test]
fn single_variant_match_needs_one_case() {
    let src = "match <Only = 9> as <Only of U64> { <Only = x : U64> as <Only of U64> => x, <Only = y : U64> as <Only of U64> => y }";
    assert_eq!(try_lower_root_expr(parse(src).unwrap()), Err(LowerError::CaseCount));
}

#[test]
fn two_payload_cases_are_a_duplicate_default() {
    let src = format!(
        "match <None = {{}}> as {MAYBE_BOOL} {{ <Some = b : {BOOL}> as {MAYBE_BOOL} => b, <Some = c : {BOOL}> as {MAYBE_BOOL} => c }}"
    );
    assert_eq!(try_lower_root_expr(parse(&src).unwrap()), Err(LowerError::DuplicateDefault));
}

#[test]
fn temporaries_start_at_zero() {
    let cx = Ctxt::new();
    assert_eq!(cx.next_temp_var, 0);
    assert_eq!(cx.tag, Name::Tag);
    assert_eq!(cx.data, Name::Data);
}

#[test]
fn lowered_match_binds_fresh_temporaries() {
    let src = "match <Only = 9> as <Only of U64> { <Only = x : U64> as <Only of U64> => x }";
    match try_lower_root_expr(parse(src).unwrap()).unwrap() {
        lir::Expr::Let { binder, .. } => assert_eq!(binder.name, Name::Temp(0)),
        other => panic!("unexpected {:?}", other),
    }
    let _ = hir::Ty::U64;
}

#[test]
fn rfold_visits_innermost_step_first() {
    let path = TagPath::singleton(ValueProj::Tag)
        .with_outer_path(TagPath::singleton(ValueProj::Field(Name::user("hd"))))
        .with_outer_path(TagPath::singleton(ValueProj::Variant {
            repr: VariantRepr::Transparent,
            name: Name::user("Cons"),
        }));
    let steps = path.rfold(Vec::new(), |mut acc: Vec<String>, p| {
        acc.push(match p {
            ValueProj::Field(n) => format!("field {}", n.as_user().unwrap()),
            ValueProj::Variant { name, .. } => format!("variant {}", name.as_user().unwrap()),
            ValueProj::Tag => String::from("tag"),
        });
        acc
    });
    assert_eq!(steps, vec!["tag", "field hd", "variant Cons"]);
}

#[test]
fn nullary_niche_case_binds_encoded_subject() {
    // The binder of a zero-sized variant under a niche tag is the subject
    // itself, which holds the tag value at the niche's path.
    let src = format!(
        "match <None = {{}}> as {MAYBE_BOOL} {{ <None = u : {{}}> as {MAYBE_BOOL} => u, <Some = b : {BOOL}> as {MAYBE_BOOL} => {{}} }}"
    );
    let v = try_eval_root_expr(try_lower_root_expr(parse(&src).unwrap()).unwrap());
    assert_eq!(v, Ok(value_record(vec![("tag", lir::Value::U64(2))])));
}

#[test]
fn lower_and_eval_well_formed_program() {
    let m = lower_root_expr(parse("let x : U64 = 7 in { a = x, b = box(x) }").unwrap());
    assert_eq!(
        eval_root_expr(m),
        value_record(vec![("a", lir::Value::U64(7)), ("b", lir::Value::Box(Box::new(lir::Value::U64(7))))])
    );
}

#[test]
fn user_field_named_tag_is_not_the_tag_field() {
    assert!(!Name::user("tag").same(&Name::Tag));
    assert!(!Name::user("data").same(&Name::Data));
    let e = try_lower_root_expr(parse("{ tag = 1, data = 2 }").unwrap()).unwrap();
    let expected = lir::Expr::Record(Box::new(List::from_vec(vec![
        (Name::user("tag"), lir::Expr::U64(1)),
        (Name::user("data"), lir::Expr::U64(2)),
    ])));
    assert_eq!(e, expected);
}
