//! An evaluator for the low-level IR.

use vstd::prelude::*;

use crate::lir::{clone_value_fields, find, lookup, Expr, Value};
use crate::list::List;
use crate::name::Name;

verus! {

/// Why evaluation stopped.
#[derive(Debug, Clone, Copy, PartialEq, Eq, Structural)]
pub enum EvalError {
    UnboundVar,
    NotABox,
    NotARecord,
    MissingField,
    NotAnInteger,
    NoMatchingCase,
}

/// The variables in scope, the latest binding first.
#[derive(Debug)]
pub struct Ctxt {
    pub vars: List<(Name, Value)>,
}

impl Ctxt {
    pub fn empty() -> (r: Self)
        ensures
            r.vars == List::<(Name, Value)>::Nil,
    {
        Self { vars: List::Nil }
    }
}

/// The value of `e` where each variable has its latest binding in `env`. A
/// union evaluates its one field; a switch takes the first case whose key is
/// the value of its subject, else its default. A pointer is never null, so a
/// switch on one takes its default.
pub open spec fn eval_spec(env: List<(Name, Value)>, e: Expr) -> Result<Value, EvalError>
    decreases e, 1nat,
{
    match e {
        Expr::Var(v) => match lookup(env, v.name) {
            Some(x) => Ok(x),
            None => Err(EvalError::UnboundVar),
        },
        Expr::U64(n) => Ok(Value::U64(n)),
        Expr::Record(fs) => match eval_fields_spec(env, *fs) {
            Ok(f) => Ok(Value::Record(Box::new(f))),
            Err(x) => Err(x),
        },
        Expr::UntaggedUnion { value, .. } => eval_spec(env, *value),
        Expr::Box(b) => match eval_spec(env, *b) {
            Ok(v) => Ok(Value::Box(Box::new(v))),
            Err(x) => Err(x),
        },
        Expr::Deref(p) => match eval_spec(env, *p) {
            Ok(Value::Box(v)) => Ok(*v),
            Ok(_) => Err(EvalError::NotABox),
            Err(x) => Err(x),
        },
        Expr::Select { record, field } => match eval_spec(env, *record) {
            Ok(Value::Record(fs)) => match lookup(*fs, field) {
                Some(v) => Ok(v),
                None => Err(EvalError::MissingField),
            },
            Ok(_) => Err(EvalError::NotARecord),
            Err(x) => Err(x),
        },
        Expr::Switch { subj, cases, default } => match lookup(env, subj.name) {
            Some(Value::U64(k)) => match eval_case_spec(env, *cases, k) {
                Some(r) => r,
                None => match default {
                    Some(b) => eval_spec(env, *b),
                    None => Err(EvalError::NoMatchingCase),
                },
            },
            Some(Value::Box(_)) => match default {
                Some(b) => eval_spec(env, *b),
                None => Err(EvalError::NoMatchingCase),
            },
            Some(_) => Err(EvalError::NotAnInteger),
            None => Err(EvalError::UnboundVar),
        },
        Expr::Let { binder, value, body } => match eval_spec(env, *value) {
            Ok(v) => eval_spec(List::Cons((binder.name, v), Box::new(env)), *body),
            Err(x) => Err(x),
        },
    }
}

pub open spec fn eval_fields_spec(env: List<(Name, Value)>, fs: List<(Name, Expr)>) -> Result<
    List<(Name, Value)>,
    EvalError,
>
    decreases fs, 0nat,
{
    match fs {
        List::Nil => Ok(List::Nil),
        List::Cons(hd, tl) => match eval_spec(env, hd.1) {
            Ok(v) => match eval_fields_spec(env, *tl) {
                Ok(rest) => Ok(List::Cons((hd.0, v), Box::new(rest))),
                Err(x) => Err(x),
            },
            Err(x) => Err(x),
        },
    }
}

/// The value of the first case keyed `k`, or `None` where there is none.
pub open spec fn eval_case_spec(env: List<(Name, Value)>, cases: List<(u64, Expr)>, k: u64) -> Option<
    Result<Value, EvalError>,
>
    decreases cases, 0nat,
{
    match cases {
        List::Nil => None,
        List::Cons(hd, tl) => if hd.0 == k {
            Some(eval_spec(env, hd.1))
        } else {
            eval_case_spec(env, *tl, k)
        },
    }
}

/// Evaluates a closed expression that evaluates without error (a
/// well-formed program).
pub fn eval_root_expr(expr: Expr) -> (r: Value)
    requires
        eval_spec(List::Nil, expr) is Ok,
    ensures
        eval_spec(List::Nil, expr) == Ok::<Value, EvalError>(r),
{
    let cx = Ctxt::empty();
    eval_expr(&cx, &expr)
}

fn eval_expr(cx: &Ctxt, expr: &Expr) -> (r: Value)
    requires
        eval_spec(cx.vars, *expr) is Ok,
    ensures
        eval_spec(cx.vars, *expr) == Ok::<Value, EvalError>(r),
    decreases expr, 1nat,
{
    match expr {
        Expr::Var(var) => match find(&cx.vars, &var.name) {
            Some(v) => v.clone(),
            None => {
                proof {
                    assert(false);
                }
                Value::U64(0)
            },
        },
        Expr::U64(n) => Value::U64(*n),
        Expr::Record(fields) => Value::Record(Box::new(eval_fields(cx, fields))),
        Expr::UntaggedUnion { ty: _, field: _, value } => eval_expr(cx, value),
        Expr::Box(val) => Value::Box(Box::new(eval_expr(cx, val))),
        Expr::Deref(ptr) => match eval_expr(cx, ptr) {
            Value::Box(v) => *v,
            _ => {
                proof {
                    assert(false);
                }
                Value::U64(0)
            },
        },
        Expr::Select { record, field } => match eval_expr(cx, record) {
            Value::Record(fs) => match find(&fs, field) {
                Some(v) => v.clone(),
                None => {
                proof {
                    assert(false);
                }
                Value::U64(0)
            },
            },
            _ => {
                proof {
                    assert(false);
                }
                Value::U64(0)
            },
        },
        Expr::Switch { subj, cases, default } => match find(&cx.vars, &subj.name) {
            Some(Value::U64(k)) => match eval_case(cx, cases, *k) {
                Some(v) => v,
                None => match default {
                    Some(b) => eval_expr(cx, b),
                    None => {
                proof {
                    assert(false);
                }
                Value::U64(0)
            },
                },
            },
            Some(Value::Box(_)) => match default {
                Some(b) => eval_expr(cx, b),
                None => {
                proof {
                    assert(false);
                }
                Value::U64(0)
            },
            },
            _ => {
                proof {
                    assert(false);
                }
                Value::U64(0)
            },
        },
        Expr::Let { binder, value, body } => {
            let v = eval_expr(cx, value);
            let inner = Ctxt {
                vars: List::Cons((binder.name.clone(), v), Box::new(clone_value_fields(&cx.vars))),
            };
            eval_expr(&inner, body)
        },
    }
}

fn eval_fields(cx: &Ctxt, fs: &List<(Name, Expr)>) -> (r: List<(Name, Value)>)
    requires
        eval_fields_spec(cx.vars, *fs) is Ok,
    ensures
        eval_fields_spec(cx.vars, *fs) == Ok::<List<(Name, Value)>, EvalError>(r),
    decreases fs, 0nat,
{
    match fs {
        List::Nil => List::Nil,
        List::Cons(hd, tl) => {
            let v = eval_expr(cx, &hd.1);
            List::Cons((hd.0.clone(), v), Box::new(eval_fields(cx, tl)))
        },
    }
}

/// The value of the first case keyed `k`, `None` where there is none.
fn eval_case(cx: &Ctxt, cases: &List<(u64, Expr)>, k: u64) -> (r: Option<Value>)
    requires
        !(eval_case_spec(cx.vars, *cases, k) matches Some(Err(_))),
    ensures
        match eval_case_spec(cx.vars, *cases, k) {
            Some(x) => x == Ok::<Value, EvalError>(r.unwrap()) && r is Some,
            None => r is None,
        },
    decreases cases, 0nat,
{
    match cases {
        List::Nil => None,
        List::Cons(hd, tl) => {
            if hd.0 == k {
                Some(eval_expr(cx, &hd.1))
            } else {
                eval_case(cx, tl, k)
            }
        },
    }
}

/// Evaluates a closed expression, or names the error that `eval_spec` gives.
pub fn try_eval_root_expr(expr: Expr) -> (r: Result<Value, EvalError>)
    ensures
        r == eval_spec(List::Nil, expr),
{
    let cx = Ctxt::empty();
    eval_expr_checked(&cx, &expr)
}

fn eval_expr_checked(cx: &Ctxt, expr: &Expr) -> (r: Result<Value, EvalError>)
    ensures
        r == eval_spec(cx.vars, *expr),
    decreases expr, 1nat,
{
    match expr {
        Expr::Var(var) => match find(&cx.vars, &var.name) {
            Some(v) => Ok(v.clone()),
            None => Err(EvalError::UnboundVar),
        },
        Expr::U64(n) => Ok(Value::U64(*n)),
        Expr::Record(fields) => match eval_fields_checked(cx, fields) {
            Ok(f) => Ok(Value::Record(Box::new(f))),
            Err(x) => Err(x),
        },
        Expr::UntaggedUnion { ty: _, field: _, value } => eval_expr_checked(cx, value),
        Expr::Box(val) => match eval_expr_checked(cx, val) {
            Ok(v) => Ok(Value::Box(Box::new(v))),
            Err(x) => Err(x),
        },
        Expr::Deref(ptr) => match eval_expr_checked(cx, ptr) {
            Ok(Value::Box(v)) => Ok(*v),
            Ok(_) => Err(EvalError::NotABox),
            Err(x) => Err(x),
        },
        Expr::Select { record, field } => match eval_expr_checked(cx, record) {
            Ok(Value::Record(fs)) => match find(&fs, field) {
                Some(v) => Ok(v.clone()),
                None => Err(EvalError::MissingField),
            },
            Ok(_) => Err(EvalError::NotARecord),
            Err(x) => Err(x),
        },
        Expr::Switch { subj, cases, default } => match find(&cx.vars, &subj.name) {
            Some(Value::U64(k)) => match eval_case_checked(cx, cases, *k) {
                Some(r) => r,
                None => match default {
                    Some(b) => eval_expr_checked(cx, b),
                    None => Err(EvalError::NoMatchingCase),
                },
            },
            Some(Value::Box(_)) => match default {
                Some(b) => eval_expr_checked(cx, b),
                None => Err(EvalError::NoMatchingCase),
            },
            Some(_) => Err(EvalError::NotAnInteger),
            None => Err(EvalError::UnboundVar),
        },
        Expr::Let { binder, value, body } => match eval_expr_checked(cx, value) {
            Ok(v) => {
                let inner = Ctxt {
                    vars: List::Cons((binder.name.clone(), v), Box::new(clone_value_fields(&cx.vars))),
                };
                eval_expr_checked(&inner, body)
            },
            Err(x) => Err(x),
        },
    }
}

fn eval_fields_checked(cx: &Ctxt, fs: &List<(Name, Expr)>) -> (r: Result<List<(Name, Value)>, EvalError>)
    ensures
        r == eval_fields_spec(cx.vars, *fs),
    decreases fs, 0nat,
{
    match fs {
        List::Nil => Ok(List::Nil),
        List::Cons(hd, tl) => match eval_expr_checked(cx, &hd.1) {
            Ok(v) => match eval_fields_checked(cx, tl) {
                Ok(rest) => Ok(List::Cons((hd.0.clone(), v), Box::new(rest))),
                Err(x) => Err(x),
            },
            Err(x) => Err(x),
        },
    }
}

fn eval_case_checked(cx: &Ctxt, cases: &List<(u64, Expr)>, k: u64) -> (r: Option<Result<Value, EvalError>>)
    ensures
        r == eval_case_spec(cx.vars, *cases, k),
    decreases cases, 0nat,
{
    match cases {
        List::Nil => None,
        List::Cons(hd, tl) => {
            if hd.0 == k {
                Some(eval_expr_checked(cx, &hd.1))
            } else {
                eval_case_checked(cx, tl, k)
            }
        },
    }
}

} // verus!
