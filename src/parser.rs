//! The surface syntax: a tokenizer and a recursive-descent parser.

use vstd::prelude::*;

use crate::debruijn::Debruijn;
use crate::hir::{Expr, Pat, Ty, Var};
use crate::layout::laws::{ty_closed, ty_fields_closed, ty_fields_keys_distinct, ty_keys_distinct};
use crate::list::List;
use crate::lir::lookup;
use crate::name::{same_name, Name};

pub mod lexer;

pub use self::lexer::{SyntaxError, Sym, Token};
use self::lexer::lex_spec;
use self::lexer::Tokenizer;

verus! {

// ----- Parsing -----

/// Every type annotation in `e` is closed.
pub open spec fn expr_closed(e: Expr) -> bool
    decreases e,
{
    match e {
        Expr::Var(v) => ty_closed(v.ty, 0),
        Expr::U64(_) => true,
        Expr::Box(b) => expr_closed(*b),
        Expr::Record(fs) => expr_fields_closed(*fs),
        Expr::Variant { ty, field, .. } => ty_closed(ty, 0) && expr_closed(*field),
        Expr::Fold { ty, value } => ty_closed(ty, 0) && expr_closed(*value),
        Expr::Unfold { ty, value } => ty_closed(ty, 0) && expr_closed(*value),
        Expr::Let { binder, value, body } => ty_closed(binder.ty, 0) && expr_closed(*value) && expr_closed(*body),
        Expr::Match { subj, cases } => expr_closed(*subj) && cases_closed(*cases),
    }
}

pub open spec fn expr_fields_closed(fs: List<(Name, Expr)>) -> bool
    decreases fs,
{
    match fs {
        List::Nil => true,
        List::Cons(hd, tl) => expr_closed(hd.1) && expr_fields_closed(*tl),
    }
}

pub open spec fn cases_closed(cs: List<(Pat, Expr)>) -> bool
    decreases cs,
{
    match cs {
        List::Nil => true,
        List::Cons(hd, tl) => pat_closed(hd.0) && expr_closed(hd.1) && cases_closed(*tl),
    }
}

pub open spec fn pat_closed(p: Pat) -> bool {
    match p {
        Pat::Variant { ty, field, .. } => ty_closed(ty, 0) && ty_closed(field.ty, 0),
    }
}

/// Every alias stands for a closed type.
pub open spec fn aliases_closed(a: List<(Name, Ty)>) -> bool
    decreases a,
{
    match a {
        List::Nil => true,
        List::Cons(hd, tl) => ty_closed(hd.1, 0) && ty_keys_distinct(hd.1) && aliases_closed(*tl),
    }
}

proof fn lemma_alias_closed(a: List<(Name, Ty)>, n: Name)
    requires
        aliases_closed(a),
    ensures
        crate::lir::lookup(a, n) matches Some(t) ==> ty_closed(t, 0) && ty_keys_distinct(t),
    decreases a,
{
    if let List::Cons(_, tl) = a {
        lemma_alias_closed(*tl, n);
    }
}

/// A type closed under `d` binders is closed under more.
pub proof fn lemma_closed_mono(t: Ty, d: nat, e: nat)
    requires
        ty_closed(t, d),
        d <= e,
    ensures
        ty_closed(t, e),
    decreases t,
{
    match t {
        Ty::Box(b) => lemma_closed_mono(*b, d, e),
        Ty::Record(fs) => lemma_fields_closed_mono(*fs, d, e),
        Ty::Variant(fs) => lemma_fields_closed_mono(*fs, d, e),
        Ty::Recursive(b) => lemma_closed_mono(*b, d + 1, e + 1),
        _ => {},
    }
}

proof fn lemma_fields_closed_mono(fs: List<(Name, Ty)>, d: nat, e: nat)
    requires
        ty_fields_closed(fs, d),
        d <= e,
    ensures
        ty_fields_closed(fs, e),
    decreases fs,
{
    if let List::Cons(hd, tl) = fs {
        lemma_closed_mono(hd.1, d, e);
        lemma_fields_closed_mono(*tl, d, e);
    }
}

// ----- Grammar -----

/// A parse of something from a position: the result and where it ends.
pub type Parsed<T> = Result<(T, int), SyntaxError>;

/// A parse of part of an expression: the result, where it ends, and the
/// aliases defined by then.
pub type ParsedExpr<T> = Result<(T, int, List<(Name, Ty)>), SyntaxError>;

/// Takes the symbol `s` at `i`.
pub open spec fn eat_spec(toks: Seq<Token>, i: int, s: Sym) -> Result<int, SyntaxError> {
    if 0 <= i < toks.len() {
        match toks[i] {
            Token::Sym(t) => if t == s {
                Ok(i + 1)
            } else {
                Err(SyntaxError::UnexpectedToken)
            },
            _ => Err(SyntaxError::UnexpectedToken),
        }
    } else {
        Err(SyntaxError::UnexpectedEnd)
    }
}

/// The token at `i` is the symbol `s`.
pub open spec fn check_spec(toks: Seq<Token>, i: int, s: Sym) -> bool {
    0 <= i < toks.len() && (toks[i] matches Token::Sym(t) && t == s)
}

/// The identifier at `i`, as a name.
pub open spec fn name_spec(toks: Seq<Token>, i: int) -> Parsed<Name> {
    if 0 <= i < toks.len() {
        match toks[i] {
            Token::Ident(s) => Ok((Name::User(s), i + 1)),
            _ => Err(SyntaxError::UnexpectedToken),
        }
    } else {
        Err(SyntaxError::UnexpectedEnd)
    }
}

/// The De Bruijn index of the innermost binder named `n` (the last of `sc`).
pub open spec fn scope_lookup(sc: Seq<Name>, n: Name) -> Option<nat>
    decreases sc.len(),
{
    if sc.len() == 0 {
        None
    } else if same_name(sc.last(), n) {
        Some(0)
    } else {
        match scope_lookup(sc.drop_last(), n) {
            Some(k) => Some(k + 1),
            None => None,
        }
    }
}

/// A type at `p`: `Box[τ]`, `{ n : τ, … }`, `< n of τ | … >`, `µX. τ`, or a
/// name: an alias, a binder around it, or `U64`.
pub open spec fn ty_spec(toks: Seq<Token>, p: int, al: List<(Name, Ty)>, sc: Seq<Name>) -> Parsed<Ty>
    decreases toks.len() - p, 2nat,
{
    if !(0 <= p < toks.len()) {
        Err(SyntaxError::UnexpectedEnd)
    } else {
        match toks[p] {
            Token::Sym(Sym::KwBoxTy) => ty_box_spec(toks, p + 1, al, sc),
            Token::Sym(Sym::LBrace) => match ty_fields_spec(toks, p + 1, al, sc, Sym::Comma, Sym::Colon, Sym::RBrace) {
                Ok((fs, q)) => Ok((Ty::Record(Box::new(fs)), q)),
                Err(e) => Err(e),
            },
            Token::Sym(Sym::LAngle) => match ty_fields_spec(toks, p + 1, al, sc, Sym::VertPipe, Sym::KwOf, Sym::RAngle) {
                Ok((fs, q)) => Ok((Ty::Variant(Box::new(fs)), q)),
                Err(e) => Err(e),
            },
            Token::Sym(Sym::KwMu) => ty_recur_spec(toks, p + 1, al, sc),
            Token::Ident(s) => match lookup(al, Name::User(s)) {
                Some(t) => Ok((t, p + 1)),
                None => match scope_lookup(sc, Name::User(s)) {
                    Some(k) => Ok((Ty::Named(Debruijn { index: k as u64 }), p + 1)),
                    None => if s@ == "U64"@ {
                        Ok((Ty::U64, p + 1))
                    } else {
                        Err(SyntaxError::NameNotFound)
                    },
                },
            },
            _ => Err(SyntaxError::UnexpectedToken),
        }
    }
}

/// `[τ]`, after `Box`.
pub open spec fn ty_box_spec(toks: Seq<Token>, p: int, al: List<(Name, Ty)>, sc: Seq<Name>) -> Parsed<Ty>
    decreases toks.len() - p, 1nat,
{
    match eat_spec(toks, p, Sym::LBracket) {
        Err(e) => Err(e),
        Ok(p1) => if !(p < p1 <= toks.len()) {
            Err(SyntaxError::UnexpectedEnd)
        } else {
            match ty_spec(toks, p1, al, sc) {
                Err(e) => Err(e),
                Ok((t, p2)) => match eat_spec(toks, p2, Sym::RBracket) {
                    Err(e) => Err(e),
                    Ok(p3) => Ok((Ty::Box(Box::new(t)), p3)),
                },
            }
        },
    }
}

/// `n kw τ` entries separated by `sep`, up to and including `end`; a later
/// entry of the same name replaces an earlier one.
pub open spec fn ty_fields_spec(
    toks: Seq<Token>,
    p: int,
    al: List<(Name, Ty)>,
    sc: Seq<Name>,
    sep: Sym,
    kw: Sym,
    end: Sym,
) -> Parsed<List<(Name, Ty)>>
    decreases toks.len() - p, 1nat,
{
    if check_spec(toks, p, end) {
        Ok((List::Nil, p + 1))
    } else {
        match name_spec(toks, p) {
            Err(e) => Err(e),
            Ok((name, p1)) => match eat_spec(toks, p1, kw) {
                Err(e) => Err(e),
                Ok(p2) => if !(p < p2 <= toks.len()) {
                    Err(SyntaxError::UnexpectedEnd)
                } else {
                    match ty_spec(toks, p2, al, sc) {
                        Err(e) => Err(e),
                        Ok((t, p3)) => match (if check_spec(toks, p3, end) {
                            Ok(p3)
                        } else {
                            eat_spec(toks, p3, sep)
                        }) {
                            Err(e) => Err(e),
                            Ok(p4) => if !(p < p4 <= toks.len()) {
                                Err(SyntaxError::UnexpectedEnd)
                            } else {
                                match ty_fields_spec(toks, p4, al, sc, sep, kw, end) {
                                    Err(e) => Err(e),
                                    Ok((rest, p5)) => Ok(
                                        (
                                            if lookup(rest, name) is Some {
                                                rest
                                            } else {
                                                List::Cons((name, t), Box::new(rest))
                                            },
                                            p5,
                                        ),
                                    ),
                                }
                            },
                        },
                    }
                },
            },
        }
    }
}

/// `X. τ`, after `µ`: `X` is bound in `τ`.
pub open spec fn ty_recur_spec(toks: Seq<Token>, p: int, al: List<(Name, Ty)>, sc: Seq<Name>) -> Parsed<Ty>
    decreases toks.len() - p, 1nat,
{
    match name_spec(toks, p) {
        Err(e) => Err(e),
        Ok((b, p1)) => match eat_spec(toks, p1, Sym::Dot) {
            Err(e) => Err(e),
            Ok(p2) => if !(p < p2 <= toks.len()) {
                Err(SyntaxError::UnexpectedEnd)
            } else {
                match ty_spec(toks, p2, al, sc.push(b)) {
                    Err(e) => Err(e),
                    Ok((body, p3)) => Ok((Ty::Recursive(Box::new(body)), p3)),
                }
            },
        },
    }
}

/// `: τ`, after a variable's name.
pub open spec fn var_after_name_spec(toks: Seq<Token>, p: int, al: List<(Name, Ty)>, name: Name) -> Parsed<Var> {
    match eat_spec(toks, p, Sym::Colon) {
        Err(e) => Err(e),
        Ok(p1) => match ty_spec(toks, p1, al, Seq::empty()) {
            Err(e) => Err(e),
            Ok((ty, p2)) => Ok((Var { name, ty }, p2)),
        },
    }
}

/// `v : τ`.
pub open spec fn var_spec(toks: Seq<Token>, p: int, al: List<(Name, Ty)>) -> Parsed<Var> {
    match name_spec(toks, p) {
        Err(e) => Err(e),
        Ok((name, p1)) => var_after_name_spec(toks, p1, al, name),
    }
}

/// `N = τ in`, after `alias`: the aliases with `N` added, and where it ends.
pub open spec fn alias_spec(toks: Seq<Token>, p: int, al: List<(Name, Ty)>) -> Result<(List<(Name, Ty)>, int), SyntaxError> {
    match name_spec(toks, p) {
        Err(e) => Err(e),
        Ok((name, p1)) => match eat_spec(toks, p1, Sym::Eq) {
            Err(e) => Err(e),
            Ok(p2) => match ty_spec(toks, p2, al, Seq::empty()) {
                Err(e) => Err(e),
                Ok((defn, p3)) => match eat_spec(toks, p3, Sym::KwIn) {
                    Err(e) => Err(e),
                    Ok(p4) => Ok((List::Cons((name, defn), Box::new(al)), p4)),
                },
            },
        },
    }
}

/// `<n = v : τ> as τ`.
pub open spec fn pat_spec(toks: Seq<Token>, p: int, al: List<(Name, Ty)>) -> Parsed<Pat> {
    match eat_spec(toks, p, Sym::LAngle) {
        Err(e) => Err(e),
        Ok(p1) => match name_spec(toks, p1) {
            Err(e) => Err(e),
            Ok((variant, p2)) => match eat_spec(toks, p2, Sym::Eq) {
                Err(e) => Err(e),
                Ok(p3) => match var_spec(toks, p3, al) {
                    Err(e) => Err(e),
                    Ok((field, p4)) => match eat_spec(toks, p4, Sym::RAngle) {
                        Err(e) => Err(e),
                        Ok(p5) => match eat_spec(toks, p5, Sym::KwAs) {
                            Err(e) => Err(e),
                            Ok(p6) => match ty_spec(toks, p6, al, Seq::empty()) {
                                Err(e) => Err(e),
                                Ok((ty, p7)) => Ok((Pat::Variant { ty, variant, field }, p7)),
                            },
                        },
                    },
                },
            },
        },
    }
}

/// An expression at `p`, with the aliases `al` and the variables `vars` in
/// scope; a variable without an annotation takes its binder's type.
pub open spec fn expr_spec(toks: Seq<Token>, p: int, al: List<(Name, Ty)>, vars: List<(Name, Ty)>) -> ParsedExpr<Expr>
    decreases toks.len() - p, 5nat,
{
    if !(0 <= p < toks.len()) {
        Err(SyntaxError::UnexpectedEnd)
    } else {
        match toks[p] {
            Token::Sym(Sym::LParen) => grouping_spec(toks, p + 1, al, vars),
            Token::Sym(Sym::LBrace) => match expr_fields_spec(toks, p + 1, al, vars) {
                Ok((fs, q, al2)) => Ok((Expr::Record(Box::new(fs)), q, al2)),
                Err(e) => Err(e),
            },
            Token::Sym(Sym::LAngle) => variant_spec(toks, p + 1, al, vars),
            Token::Sym(Sym::KwFold) => match bracketed_spec(toks, p + 1, al, vars) {
                Ok(((ty, v), q, al2)) => Ok((Expr::Fold { ty, value: Box::new(v) }, q, al2)),
                Err(e) => Err(e),
            },
            Token::Sym(Sym::KwUnfold) => match bracketed_spec(toks, p + 1, al, vars) {
                Ok(((ty, v), q, al2)) => Ok((Expr::Unfold { ty, value: Box::new(v) }, q, al2)),
                Err(e) => Err(e),
            },
            Token::Sym(Sym::KwBoxOp) => box_spec(toks, p + 1, al, vars),
            Token::Sym(Sym::KwLet) => let_spec(toks, p + 1, al, vars),
            Token::Sym(Sym::KwAlias) => match alias_spec(toks, p + 1, al) {
                Err(e) => Err(e),
                Ok((al2, q)) => if !(p < q <= toks.len()) {
                    Err(SyntaxError::UnexpectedEnd)
                } else {
                    expr_spec(toks, q, al2, vars)
                },
            },
            Token::Sym(Sym::KwMatch) => match_spec(toks, p + 1, al, vars),
            Token::Number(n) => Ok((Expr::U64(n), p + 1, al)),
            Token::Ident(s) => if check_spec(toks, p + 1, Sym::Colon) {
                match var_after_name_spec(toks, p + 1, al, Name::User(s)) {
                    Ok((v, q)) => Ok((Expr::Var(v), q, al)),
                    Err(e) => Err(e),
                }
            } else {
                match lookup(vars, Name::User(s)) {
                    Some(t) => Ok((Expr::Var(Var { name: Name::User(s), ty: t }), p + 1, al)),
                    None => Err(SyntaxError::NameNotFound),
                }
            },
            _ => Err(SyntaxError::UnexpectedToken),
        }
    }
}

/// `e )`, after `(`.
pub open spec fn grouping_spec(toks: Seq<Token>, p: int, al: List<(Name, Ty)>, vars: List<(Name, Ty)>) -> ParsedExpr<Expr>
    decreases toks.len() - p, 6nat,
{
    match expr_spec(toks, p, al, vars) {
        Err(e) => Err(e),
        Ok((e, p1, al2)) => match eat_spec(toks, p1, Sym::RParen) {
            Err(x) => Err(x),
            Ok(p2) => Ok((e, p2, al2)),
        },
    }
}

/// `n = e> as τ`, after `<`.
pub open spec fn variant_spec(toks: Seq<Token>, p: int, al: List<(Name, Ty)>, vars: List<(Name, Ty)>) -> ParsedExpr<Expr>
    decreases toks.len() - p, 6nat,
{
    match name_spec(toks, p) {
        Err(e) => Err(e),
        Ok((variant, p1)) => match eat_spec(toks, p1, Sym::Eq) {
            Err(e) => Err(e),
            Ok(p2) => if !(p < p2 <= toks.len()) {
                Err(SyntaxError::UnexpectedEnd)
            } else {
                match expr_spec(toks, p2, al, vars) {
                    Err(e) => Err(e),
                    Ok((field, p3, al2)) => match eat_spec(toks, p3, Sym::RAngle) {
                        Err(e) => Err(e),
                        Ok(p4) => match eat_spec(toks, p4, Sym::KwAs) {
                            Err(e) => Err(e),
                            Ok(p5) => match ty_spec(toks, p5, al2, Seq::empty()) {
                                Err(e) => Err(e),
                                Ok((ty, p6)) => Ok((Expr::Variant { ty, variant, field: Box::new(field) }, p6, al2)),
                            },
                        },
                    },
                }
            },
        },
    }
}

/// `[τ] e`, after `fold` or `unfold`.
pub open spec fn bracketed_spec(toks: Seq<Token>, p: int, al: List<(Name, Ty)>, vars: List<(Name, Ty)>) -> ParsedExpr<
    (Ty, Expr),
>
    decreases toks.len() - p, 4nat,
{
    match eat_spec(toks, p, Sym::LBracket) {
        Err(e) => Err(e),
        Ok(p1) => match ty_spec(toks, p1, al, Seq::empty()) {
            Err(e) => Err(e),
            Ok((ty, p2)) => match eat_spec(toks, p2, Sym::RBracket) {
                Err(e) => Err(e),
                Ok(p3) => if !(p < p3 <= toks.len()) {
                    Err(SyntaxError::UnexpectedEnd)
                } else {
                    match expr_spec(toks, p3, al, vars) {
                        Err(e) => Err(e),
                        Ok((v, p4, al2)) => Ok(((ty, v), p4, al2)),
                    }
                },
            },
        },
    }
}

/// `(e)`, after `box`.
pub open spec fn box_spec(toks: Seq<Token>, p: int, al: List<(Name, Ty)>, vars: List<(Name, Ty)>) -> ParsedExpr<Expr>
    decreases toks.len() - p, 6nat,
{
    match eat_spec(toks, p, Sym::LParen) {
        Err(e) => Err(e),
        Ok(p1) => if !(p < p1 <= toks.len()) {
            Err(SyntaxError::UnexpectedEnd)
        } else {
            match expr_spec(toks, p1, al, vars) {
                Err(e) => Err(e),
                Ok((b, p2, al2)) => match eat_spec(toks, p2, Sym::RParen) {
                    Err(e) => Err(e),
                    Ok(p3) => Ok((Expr::Box(Box::new(b)), p3, al2)),
                },
            }
        },
    }
}

/// `v : τ = e in e`, after `let`; `v` is in scope in the body only.
pub open spec fn let_spec(toks: Seq<Token>, p: int, al: List<(Name, Ty)>, vars: List<(Name, Ty)>) -> ParsedExpr<Expr>
    decreases toks.len() - p, 6nat,
{
    match var_spec(toks, p, al) {
        Err(e) => Err(e),
        Ok((binder, p1)) => match eat_spec(toks, p1, Sym::Eq) {
            Err(e) => Err(e),
            Ok(p2) => if !(p < p2 <= toks.len()) {
                Err(SyntaxError::UnexpectedEnd)
            } else {
                match expr_spec(toks, p2, al, vars) {
                    Err(e) => Err(e),
                    Ok((value, p3, al2)) => match eat_spec(toks, p3, Sym::KwIn) {
                        Err(e) => Err(e),
                        Ok(p4) => if !(p < p4 <= toks.len()) {
                            Err(SyntaxError::UnexpectedEnd)
                        } else {
                            match expr_spec(toks, p4, al2, List::Cons((binder.name, binder.ty), Box::new(vars))) {
                                Err(e) => Err(e),
                                Ok((body, p5, al3)) => Ok(
                                    (Expr::Let { binder, value: Box::new(value), body: Box::new(body) }, p5, al3),
                                ),
                            }
                        },
                    },
                }
            },
        },
    }
}

/// `e { pat => e, … }`, after `match`.
pub open spec fn match_spec(toks: Seq<Token>, p: int, al: List<(Name, Ty)>, vars: List<(Name, Ty)>) -> ParsedExpr<Expr>
    decreases toks.len() - p, 6nat,
{
    match expr_spec(toks, p, al, vars) {
        Err(e) => Err(e),
        Ok((subj, p1, al2)) => match eat_spec(toks, p1, Sym::LBrace) {
            Err(e) => Err(e),
            Ok(p2) => if !(p < p2 <= toks.len()) {
                Err(SyntaxError::UnexpectedEnd)
            } else {
                match cases_spec(toks, p2, al2, vars) {
                    Err(e) => Err(e),
                    Ok((cases, p3, al3)) => Ok((Expr::Match { subj: Box::new(subj), cases: Box::new(cases) }, p3, al3)),
                }
            },
        },
    }
}

/// `n = e` entries separated by `,`, up to and including `}`; a later field
/// of the same name replaces an earlier one.
pub open spec fn expr_fields_spec(toks: Seq<Token>, p: int, al: List<(Name, Ty)>, vars: List<(Name, Ty)>) -> ParsedExpr<
    List<(Name, Expr)>,
>
    decreases toks.len() - p, 4nat,
{
    if check_spec(toks, p, Sym::RBrace) {
        Ok((List::Nil, p + 1, al))
    } else {
        match name_spec(toks, p) {
            Err(e) => Err(e),
            Ok((name, p1)) => match eat_spec(toks, p1, Sym::Eq) {
                Err(e) => Err(e),
                Ok(p2) => if !(p < p2 <= toks.len()) {
                    Err(SyntaxError::UnexpectedEnd)
                } else {
                    match expr_spec(toks, p2, al, vars) {
                        Err(e) => Err(e),
                        Ok((value, p3, al2)) => match (if check_spec(toks, p3, Sym::RBrace) {
                            Ok(p3)
                        } else {
                            eat_spec(toks, p3, Sym::Comma)
                        }) {
                            Err(e) => Err(e),
                            Ok(p4) => if !(p < p4 <= toks.len()) {
                                Err(SyntaxError::UnexpectedEnd)
                            } else {
                                match expr_fields_spec(toks, p4, al2, vars) {
                                    Err(e) => Err(e),
                                    Ok((rest, p5, al3)) => Ok(
                                        (
                                            if lookup(rest, name) is Some {
                                                rest
                                            } else {
                                                List::Cons((name, value), Box::new(rest))
                                            },
                                            p5,
                                            al3,
                                        ),
                                    ),
                                }
                            },
                        },
                    }
                },
            },
        }
    }
}

/// The variables in scope in a case's body.
pub open spec fn case_vars(pat: Pat, vars: List<(Name, Ty)>) -> List<(Name, Ty)> {
    match pat {
        Pat::Variant { field, .. } => List::Cons((field.name, field.ty), Box::new(vars)),
    }
}

/// `pat => e` cases separated by `,`, up to and including `}`.
pub open spec fn cases_spec(toks: Seq<Token>, p: int, al: List<(Name, Ty)>, vars: List<(Name, Ty)>) -> ParsedExpr<
    List<(Pat, Expr)>,
>
    decreases toks.len() - p, 4nat,
{
    if check_spec(toks, p, Sym::RBrace) {
        Ok((List::Nil, p + 1, al))
    } else {
        match pat_spec(toks, p, al) {
            Err(e) => Err(e),
            Ok((pat, p1)) => match eat_spec(toks, p1, Sym::WideArrow) {
                Err(e) => Err(e),
                Ok(p2) => if !(p < p2 <= toks.len()) {
                    Err(SyntaxError::UnexpectedEnd)
                } else {
                    match expr_spec(toks, p2, al, case_vars(pat, vars)) {
                        Err(e) => Err(e),
                        Ok((body, p3, al2)) => match (if check_spec(toks, p3, Sym::RBrace) {
                            Ok(p3)
                        } else {
                            eat_spec(toks, p3, Sym::Comma)
                        }) {
                            Err(e) => Err(e),
                            Ok(p4) => if !(p < p4 <= toks.len()) {
                                Err(SyntaxError::UnexpectedEnd)
                            } else {
                                match cases_spec(toks, p4, al2, vars) {
                                    Err(e) => Err(e),
                                    Ok((rest, p5, al3)) => Ok((List::Cons((pat, body), Box::new(rest)), p5, al3)),
                                }
                            },
                        },
                    }
                },
            },
        }
    }
}

/// An expression that makes up all of `toks`.
pub open spec fn parse_tokens_spec(toks: Seq<Token>) -> Result<Expr, SyntaxError> {
    match expr_spec(toks, 0, List::Nil, List::Nil) {
        Err(e) => Err(e),
        Ok((e, q, _)) => if q < toks.len() {
            Err(SyntaxError::ExpectedEnd)
        } else {
            Ok(e)
        },
    }
}

/// A type that makes up all of `toks`.
pub open spec fn parse_ty_tokens_spec(toks: Seq<Token>) -> Result<Ty, SyntaxError> {
    match ty_spec(toks, 0, List::Nil, Seq::empty()) {
        Err(e) => Err(e),
        Ok((t, q)) => if q < toks.len() {
            Err(SyntaxError::ExpectedEnd)
        } else {
            Ok(t)
        },
    }
}

/// `r` is what `s` gives, and the parser stands where `s` ends.
pub open spec fn parsed_as<T>(r: Result<T, SyntaxError>, new: Parser, s: Parsed<T>) -> bool {
    match s {
        Ok((x, q)) => r == Ok::<T, SyntaxError>(x) && new.pos == q,
        Err(e) => r == Err::<T, SyntaxError>(e),
    }
}

/// `r` is what `s` gives, and the parser stands where `s` ends, with the
/// aliases that `s` gives.
pub open spec fn parsed_expr_as<T>(r: Result<T, SyntaxError>, new: Parser, s: ParsedExpr<T>) -> bool {
    match s {
        Ok((x, q, al)) => r == Ok::<T, SyntaxError>(x) && new.pos == q && new.aliases == al,
        Err(e) => r == Err::<T, SyntaxError>(e),
    }
}

proof fn lemma_scope_lookup_bound(sc: Seq<Name>, n: Name)
    ensures
        scope_lookup(sc, n) matches Some(k) ==> k < sc.len(),
    decreases sc.len(),
{
    if sc.len() > 0 {
        lemma_scope_lookup_bound(sc.drop_last(), n);
    }
}

/// The index of the innermost binder named `n` among the first `k` of `sc`.
fn lookup_in(sc: &Vec<Name>, k: usize, n: &Name) -> (r: Option<u64>)
    requires
        k <= sc@.len(),
    ensures
        r matches Some(j) ==> j < k,
        match scope_lookup(sc@.subrange(0, k as int), *n) {
            Some(j) => r == Some(j as u64),
            None => r is None,
        },
    decreases k,
{
    let ghost pre = sc@.subrange(0, k as int);
    if k == 0 {
        proof {
            assert(pre.len() == 0);
            assert(scope_lookup(pre, *n) is None);
        }
        return None;
    }
    proof {
        assert(pre.drop_last() =~= sc@.subrange(0, k - 1));
        assert(pre.last() == sc@[k - 1]);
    }
    if sc[k - 1].same(n) {
        proof {
            assert(same_name(pre.last(), *n));
            assert(scope_lookup(pre, *n) == Some(0nat));
        }
        Some(0)
    } else {
        proof {
            assert(!same_name(pre.last(), *n));
            assert(scope_lookup(pre, *n) == match scope_lookup(sc@.subrange(0, k - 1), *n) {
                Some(j) => Some(j + 1),
                None => None::<nat>,
            });
        }
        let inner = lookup_in(sc, k - 1, n);
        match inner {
            Some(j) => {
                proof {
                    let jj = scope_lookup(sc@.subrange(0, k - 1), *n).unwrap();
                    lemma_scope_lookup_bound(sc@.subrange(0, k - 1), *n);
                    assert(j == jj as u64);
                    assert(jj < k - 1);
                    assert(scope_lookup(pre, *n) == Some(jj + 1));
                    assert((jj + 1) as u64 == j + 1);
                }
                Some(j + 1)
            },
            None => None,
        }
    }
}

/// A parser over the tokens of one input: the aliases defined so far, the
/// variables bound around the current position with their types, and the
/// names of the recursive binders around it.
pub struct Parser {
    pub tokens: Vec<Token>,
    pub pos: usize,
    pub aliases: List<(Name, Ty)>,
    pub vars: List<(Name, Ty)>,
    pub ty_scopes: Vec<Name>,
}

/// `new` continues `old` on the same tokens, no further back.
pub open spec fn advanced(new: Parser, old: Parser) -> bool {
    &&& new.tokens@ == old.tokens@
    &&& old.pos <= new.pos <= new.tokens@.len()
    &&& aliases_closed(new.aliases)
    &&& aliases_closed(new.vars)
}

/// `new` continues `old` past at least one token, with the binders restored.
pub open spec fn progressed(new: Parser, old: Parser) -> bool {
    &&& old.pos < new.pos
    &&& new.ty_scopes@ == old.ty_scopes@
}

impl Parser {
    pub open spec fn wf(self) -> bool {
        self.pos <= self.tokens@.len() && aliases_closed(self.aliases) && aliases_closed(self.vars)
    }

    /// Parses an expression that makes up the whole of `src`: the tokens of
    /// `src` parsed as `parse_tokens_spec` says. Its type annotations are
    /// closed.
    pub fn parse(src: String) -> (r: Result<Expr, SyntaxError>)
        ensures
            match lex_spec(src@, 0) {
                Err(x) => r == Err::<Expr, SyntaxError>(x),
                Ok(tv) => exists|toks: Seq<Token>|
                    toks.map_values(|t: Token| t@) == tv && r == parse_tokens_spec(toks),
            },
            r matches Ok(e) ==> expr_closed(e),
    {
        let mut parser = match Self::new(src) {
            Ok(p) => p,
            Err(e) => return Err(e),
        };
        let ghost toks = parser.tokens@;
        let r = match parser.parse_expr() {
            Ok(e) => match parser.expect_end() {
                Ok(()) => Ok(e),
                Err(x) => Err(x),
            },
            Err(x) => Err(x),
        };
        proof {
            assert(toks.map_values(|t: Token| t@) == lex_spec(src@, 0).unwrap() && r == parse_tokens_spec(toks));
        }
        r
    }

    /// Parses a type that makes up the whole of `src`: the tokens of `src`
    /// parsed as `parse_ty_tokens_spec` says. It is closed.
    pub fn parse_ty_toplevel(src: String) -> (r: Result<Ty, SyntaxError>)
        ensures
            match lex_spec(src@, 0) {
                Err(x) => r == Err::<Ty, SyntaxError>(x),
                Ok(tv) => exists|toks: Seq<Token>|
                    toks.map_values(|t: Token| t@) == tv && r == parse_ty_tokens_spec(toks),
            },
            r matches Ok(t) ==> ty_closed(t, 0) && ty_keys_distinct(t),
    {
        let mut parser = match Self::new(src) {
            Ok(p) => p,
            Err(e) => return Err(e),
        };
        let ghost toks = parser.tokens@;
        let r = match parser.parse_ty() {
            Ok(t) => match parser.expect_end() {
                Ok(()) => Ok(t),
                Err(x) => Err(x),
            },
            Err(x) => Err(x),
        };
        proof {
            assert(toks.map_values(|t: Token| t@) == lex_spec(src@, 0).unwrap() && r == parse_ty_tokens_spec(toks));
        }
        r
    }

    fn new(src: String) -> (r: Result<Self, SyntaxError>)
        ensures
            r matches Ok(p) ==> p.wf() && p.ty_scopes@ == Seq::<Name>::empty() && p.pos == 0
                && p.aliases == List::<(Name, Ty)>::Nil && p.vars == List::<(Name, Ty)>::Nil,
            match lex_spec(src@, 0) {
                Err(x) => r == Err::<Parser, SyntaxError>(x),
                Ok(tv) => r matches Ok(p) && p.tokens@.map_values(|t: Token| t@) == tv,
            },
    {
        let mut tz = Tokenizer::new(src.as_str());
        match tz.tokens() {
            Ok(tokens) => Ok(Parser { tokens, pos: 0, aliases: List::Nil, vars: List::Nil, ty_scopes: Vec::new() }),
            Err(e) => Err(e),
        }
    }

    fn expect_end(&self) -> (r: Result<(), SyntaxError>)
        ensures
            self.pos < self.tokens@.len() ==> r == Err::<(), SyntaxError>(SyntaxError::ExpectedEnd),
            self.pos >= self.tokens@.len() ==> r is Ok,
    {
        if self.pos < self.tokens.len() {
            Err(SyntaxError::ExpectedEnd)
        } else {
            Ok(())
        }
    }

    /// Whether the next token is the symbol `s`.
    fn check(&self, s: Sym) -> (r: bool)
        requires
            self.wf(),
        ensures
            r ==> self.pos < self.tokens@.len(),
            r == check_spec(self.tokens@, self.pos as int, s),
    {
        if self.pos < self.tokens.len() {
            match &self.tokens[self.pos] {
                Token::Sym(t) => *t == s,
                _ => false,
            }
        } else {
            false
        }
    }

    /// Takes the next token.
    fn bump(&mut self) -> (r: Result<Token, SyntaxError>)
        requires
            old(self).wf(),
        ensures
            advanced(*final(self), *old(self)),
            final(self).ty_scopes == old(self).ty_scopes,
            r is Ok ==> final(self).pos == old(self).pos + 1,
            final(self).aliases == old(self).aliases && final(self).vars == old(self).vars,
            old(self).pos < old(self).tokens@.len() ==> r == Ok::<Token, SyntaxError>(old(self).tokens@[old(self).pos as int]),
            old(self).pos >= old(self).tokens@.len() ==> r == Err::<Token, SyntaxError>(SyntaxError::UnexpectedEnd),
    {
        if self.pos >= self.tokens.len() {
            return Err(SyntaxError::UnexpectedEnd);
        }
        let t = match &self.tokens[self.pos] {
            Token::Sym(s) => Token::Sym(*s),
            Token::Number(n) => Token::Number(*n),
            Token::Ident(s) => Token::Ident(s.clone()),
        };
        self.pos = self.pos + 1;
        Ok(t)
    }

    /// Takes the next token, which must be the symbol `s`.
    fn eat(&mut self, s: Sym) -> (r: Result<(), SyntaxError>)
        requires
            old(self).wf(),
        ensures
            advanced(*final(self), *old(self)),
            final(self).ty_scopes == old(self).ty_scopes,
            r is Ok ==> final(self).pos == old(self).pos + 1,
            final(self).aliases == old(self).aliases && final(self).vars == old(self).vars,
            match eat_spec(old(self).tokens@, old(self).pos as int, s) {
                Ok(q) => r is Ok && final(self).pos == q,
                Err(e) => r == Err::<(), SyntaxError>(e),
            },
    {
        match self.bump() {
            Ok(Token::Sym(t)) => if t == s {
                Ok(())
            } else {
                Err(SyntaxError::UnexpectedToken)
            },
            Ok(_) => Err(SyntaxError::UnexpectedToken),
            Err(e) => Err(e),
        }
    }

    fn parse_name(&mut self) -> (r: Result<Name, SyntaxError>)
        requires
            old(self).wf(),
        ensures
            advanced(*final(self), *old(self)),
            final(self).ty_scopes == old(self).ty_scopes,
            r is Ok ==> final(self).pos == old(self).pos + 1,
            final(self).aliases == old(self).aliases && final(self).vars == old(self).vars,
            parsed_as(r, *final(self), name_spec(old(self).tokens@, old(self).pos as int)),
    {
        match self.bump() {
            Ok(Token::Ident(s)) => Ok(Name::User(s)),
            Ok(_) => Err(SyntaxError::UnexpectedToken),
            Err(e) => Err(e),
        }
    }

    /// The index of the innermost binder named `n`.
    fn lookup_scope(&self, n: &Name) -> (r: Option<u64>)
        ensures
            r matches Some(k) ==> k < self.ty_scopes@.len(),
            match scope_lookup(self.ty_scopes@, *n) {
                Some(k) => r == Some(k as u64),
                None => r is None,
            },
    {
        let r = lookup_in(&self.ty_scopes, self.ty_scopes.len(), n);
        proof {
            assert(self.ty_scopes@.subrange(0, self.ty_scopes@.len() as int) =~= self.ty_scopes@);
        }
        r
    }

    /// A type; a name is an alias, a recursive binder around it, or `U64`.
    fn parse_ty(&mut self) -> (r: Result<Ty, SyntaxError>)
        requires
            old(self).wf(),
        ensures
            advanced(*final(self), *old(self)),
            r matches Ok(t) ==> progressed(*final(self), *old(self)) && ty_closed(t, old(self).ty_scopes@.len())
                && ty_keys_distinct(t),
            r is Ok ==> final(self).aliases == old(self).aliases && final(self).vars == old(self).vars,
            parsed_as(r, *final(self), ty_spec(old(self).tokens@, old(self).pos as int, old(self).aliases, old(self).ty_scopes@)),
        decreases old(self).tokens@.len() - old(self).pos, 2nat,
    {
        let d = self.ty_scopes.len();
        match self.bump() {
            Ok(Token::Sym(Sym::KwBoxTy)) => self.parse_ty_box(),
            Ok(Token::Sym(Sym::LBrace)) => match self.parse_ty_fields(Sym::Comma, Sym::Colon, Sym::RBrace) {
                Ok(fs) => Ok(Ty::Record(Box::new(fs))),
                Err(e) => Err(e),
            },
            Ok(Token::Sym(Sym::LAngle)) => match self.parse_ty_fields(Sym::VertPipe, Sym::KwOf, Sym::RAngle) {
                Ok(fs) => Ok(Ty::Variant(Box::new(fs))),
                Err(e) => Err(e),
            },
            Ok(Token::Sym(Sym::KwMu)) => self.parse_ty_recur(),
            Ok(Token::Ident(s)) => {
                let is_u64 = s == "U64".to_owned();
                let name = Name::User(s);
                proof {
                    lemma_alias_closed(self.aliases, name);
                }
                match crate::lir::find(&self.aliases, &name) {
                    Some(t) => {
                        proof {
                            lemma_closed_mono(*t, 0, d as nat);
                        }
                        Ok(t.clone())
                    },
                    None => match self.lookup_scope(&name) {
                        Some(k) => Ok(Ty::Named(Debruijn::new(k))),
                        None => if is_u64 {
                            Ok(Ty::U64)
                        } else {
                            Err(SyntaxError::NameNotFound)
                        },
                    },
                }
            },
            Ok(_) => Err(SyntaxError::UnexpectedToken),
            Err(e) => Err(e),
        }
    }

    fn parse_ty_box(&mut self) -> (r: Result<Ty, SyntaxError>)
        requires
            old(self).wf(),
        ensures
            advanced(*final(self), *old(self)),
            r matches Ok(t) ==> progressed(*final(self), *old(self)) && ty_closed(t, old(self).ty_scopes@.len())
                && ty_keys_distinct(t),
            r is Ok ==> final(self).aliases == old(self).aliases && final(self).vars == old(self).vars,
            parsed_as(r, *final(self), ty_box_spec(old(self).tokens@, old(self).pos as int, old(self).aliases, old(self).ty_scopes@)),
        decreases old(self).tokens@.len() - old(self).pos, 1nat,
    {
        match self.eat(Sym::LBracket) {
            Ok(()) => {},
            Err(e) => return Err(e),
        }
        let boxed = match self.parse_ty() {
            Ok(t) => t,
            Err(e) => return Err(e),
        };
        match self.eat(Sym::RBracket) {
            Ok(()) => Ok(Ty::Box(Box::new(boxed))),
            Err(e) => Err(e),
        }
    }

    /// `name kw τ` entries separated by `sep`, up to and including `end`.
    fn parse_ty_fields(&mut self, sep: Sym, kw: Sym, end: Sym) -> (r: Result<List<(Name, Ty)>, SyntaxError>)
        requires
            old(self).wf(),
        ensures
            advanced(*final(self), *old(self)),
            r matches Ok(fs) ==> progressed(*final(self), *old(self)) && ty_fields_closed(
                fs,
                old(self).ty_scopes@.len(),
            ) && crate::lir::keys_distinct(fs) && ty_fields_keys_distinct(fs),
            r is Ok ==> final(self).aliases == old(self).aliases && final(self).vars == old(self).vars,
            parsed_as(r, *final(self), ty_fields_spec(old(self).tokens@, old(self).pos as int, old(self).aliases, old(self).ty_scopes@, sep, kw, end)),
        decreases old(self).tokens@.len() - old(self).pos, 1nat,
    {
        if self.check(end) {
            return match self.bump() {
                Ok(_) => Ok(List::Nil),
                Err(e) => Err(e),
            };
        }
        let name = match self.parse_name() {
            Ok(n) => n,
            Err(e) => return Err(e),
        };
        match self.eat(kw) {
            Ok(()) => {},
            Err(e) => return Err(e),
        }
        let ty = match self.parse_ty() {
            Ok(t) => t,
            Err(e) => return Err(e),
        };
        if !self.check(end) {
            match self.eat(sep) {
                Ok(()) => {},
                Err(e) => return Err(e),
            }
        }
        match self.parse_ty_fields(sep, kw, end) {
            Ok(rest) => {
                // A later entry of the same name replaces this one.
                if crate::lir::find(&rest, &name).is_some() {
                    Ok(rest)
                } else {
                    Ok(List::Cons((name, ty), Box::new(rest)))
                }
            },
            Err(e) => Err(e),
        }
    }

    fn parse_ty_recur(&mut self) -> (r: Result<Ty, SyntaxError>)
        requires
            old(self).wf(),
        ensures
            advanced(*final(self), *old(self)),
            r matches Ok(t) ==> progressed(*final(self), *old(self)) && ty_closed(t, old(self).ty_scopes@.len())
                && ty_keys_distinct(t),
            r is Ok ==> final(self).aliases == old(self).aliases && final(self).vars == old(self).vars,
            parsed_as(r, *final(self), ty_recur_spec(old(self).tokens@, old(self).pos as int, old(self).aliases, old(self).ty_scopes@)),
        decreases old(self).tokens@.len() - old(self).pos, 1nat,
    {
        let binding = match self.parse_name() {
            Ok(n) => n,
            Err(e) => return Err(e),
        };
        let ghost scopes = self.ty_scopes@;
        self.push_type_scope(binding);
        match self.eat(Sym::Dot) {
            Ok(()) => {},
            Err(e) => return Err(e),
        }
        let body = match self.parse_ty() {
            Ok(t) => t,
            Err(e) => return Err(e),
        };
        self.pop_type_scope();
        proof {
            assert(self.ty_scopes@ =~= scopes);
        }
        Ok(Ty::Recursive(Box::new(body)))
    }

    fn push_type_scope(&mut self, binding: Name)
        ensures
            final(self).ty_scopes@ == old(self).ty_scopes@.push(binding),
            final(self).tokens == old(self).tokens,
            final(self).pos == old(self).pos,
            final(self).aliases == old(self).aliases,
            final(self).vars == old(self).vars,
    {
        self.ty_scopes.push(binding);
    }

    fn pop_type_scope(&mut self)
        requires
            old(self).ty_scopes@.len() > 0,
        ensures
            final(self).ty_scopes@ == old(self).ty_scopes@.drop_last(),
            final(self).tokens == old(self).tokens,
            final(self).pos == old(self).pos,
            final(self).aliases == old(self).aliases,
            final(self).vars == old(self).vars,
    {
        self.ty_scopes.pop();
    }

    fn parse_var_after_name(&mut self, name: Name) -> (r: Result<Var, SyntaxError>)
        requires
            old(self).wf(),
            old(self).ty_scopes@ == Seq::<Name>::empty(),
        ensures
            advanced(*final(self), *old(self)),
            r matches Ok(v) ==> progressed(*final(self), *old(self)) && ty_closed(v.ty, old(self).ty_scopes@.len())
                && ty_keys_distinct(v.ty),
            r is Ok ==> final(self).aliases == old(self).aliases && final(self).vars == old(self).vars,
            parsed_as(r, *final(self), var_after_name_spec(old(self).tokens@, old(self).pos as int, old(self).aliases, name)),
        decreases old(self).tokens@.len() - old(self).pos, 3nat,
    {
        match self.eat(Sym::Colon) {
            Ok(()) => {},
            Err(e) => return Err(e),
        }
        match self.parse_ty() {
            Ok(ty) => Ok(Var { name, ty }),
            Err(e) => Err(e),
        }
    }

    fn parse_var(&mut self) -> (r: Result<Var, SyntaxError>)
        requires
            old(self).wf(),
            old(self).ty_scopes@ == Seq::<Name>::empty(),
        ensures
            advanced(*final(self), *old(self)),
            r matches Ok(v) ==> progressed(*final(self), *old(self)) && ty_closed(v.ty, old(self).ty_scopes@.len())
                && ty_keys_distinct(v.ty),
            r is Ok ==> final(self).aliases == old(self).aliases && final(self).vars == old(self).vars,
            parsed_as(r, *final(self), var_spec(old(self).tokens@, old(self).pos as int, old(self).aliases)),
        decreases old(self).tokens@.len() - old(self).pos, 4nat,
    {
        let name = match self.parse_name() {
            Ok(n) => n,
            Err(e) => return Err(e),
        };
        self.parse_var_after_name(name)
    }

    /// An expression; a variable without a type annotation takes the type of
    /// its binder.
    fn parse_expr(&mut self) -> (r: Result<Expr, SyntaxError>)
        requires
            old(self).wf(),
            old(self).ty_scopes@ == Seq::<Name>::empty(),
        ensures
            advanced(*final(self), *old(self)),
            r matches Ok(e) ==> progressed(*final(self), *old(self)) && expr_closed(e),
            r is Ok ==> final(self).vars == old(self).vars,
            parsed_expr_as(r, *final(self), expr_spec(old(self).tokens@, old(self).pos as int, old(self).aliases, old(self).vars)),
        decreases old(self).tokens@.len() - old(self).pos, 5nat,
    {
        match self.bump() {
            Ok(Token::Sym(Sym::LParen)) => self.parse_expr_grouping(),
            Ok(Token::Sym(Sym::LBrace)) => match self.parse_expr_fields() {
                Ok(fs) => Ok(Expr::Record(Box::new(fs))),
                Err(x) => Err(x),
            },
            Ok(Token::Sym(Sym::LAngle)) => self.parse_expr_variant(),
            Ok(Token::Sym(Sym::KwFold)) => match self.parse_bracketed_ty_and_expr() {
                Ok((ty, value)) => Ok(Expr::Fold { ty, value: Box::new(value) }),
                Err(x) => Err(x),
            },
            Ok(Token::Sym(Sym::KwUnfold)) => match self.parse_bracketed_ty_and_expr() {
                Ok((ty, value)) => Ok(Expr::Unfold { ty, value: Box::new(value) }),
                Err(x) => Err(x),
            },
            Ok(Token::Sym(Sym::KwBoxOp)) => self.parse_expr_box(),
            Ok(Token::Sym(Sym::KwLet)) => self.parse_expr_let(),
            Ok(Token::Sym(Sym::KwAlias)) => {
                match self.parse_alias() {
                    Ok(()) => {},
                    Err(x) => return Err(x),
                }
                self.parse_expr()
            },
            Ok(Token::Sym(Sym::KwMatch)) => self.parse_expr_match(),
            Ok(Token::Number(n)) => Ok(Expr::U64(n)),
            Ok(Token::Ident(s)) => {
                let name = Name::User(s);
                if self.check(Sym::Colon) {
                    match self.parse_var_after_name(name) {
                        Ok(v) => Ok(Expr::Var(v)),
                        Err(x) => Err(x),
                    }
                } else {
                    proof {
                        lemma_alias_closed(self.vars, name);
                    }
                    match crate::lir::find(&self.vars, &name) {
                        Some(t) => Ok(Expr::Var(Var { name, ty: t.clone() })),
                        None => Err(SyntaxError::NameNotFound),
                    }
                }
            },
            Ok(_) => Err(SyntaxError::UnexpectedToken),
            Err(x) => Err(x),
        }
    }

    /// Brings `v` into scope for what follows; returns the variables that
    /// were in scope before.
    fn bind_var(&mut self, v: &Var) -> (r: List<(Name, Ty)>)
        requires
            old(self).wf(),
            ty_closed(v.ty, 0),
            ty_keys_distinct(v.ty),
        ensures
            final(self).wf(),
            r == old(self).vars,
            final(self).vars == List::Cons((v.name, v.ty), Box::new(old(self).vars)),
            final(self).tokens == old(self).tokens,
            final(self).pos == old(self).pos,
            final(self).aliases == old(self).aliases,
            final(self).ty_scopes == old(self).ty_scopes,
    {
        let saved = crate::hir::clone_ty_fields(&self.vars);
        let inner = crate::hir::clone_ty_fields(&self.vars);
        self.vars = List::Cons((v.name.clone(), v.ty.clone()), Box::new(inner));
        saved
    }

    /// `( e )`, after the opening parenthesis.
    fn parse_expr_grouping(&mut self) -> (r: Result<Expr, SyntaxError>)
        requires
            old(self).wf(),
            old(self).ty_scopes@ == Seq::<Name>::empty(),
        ensures
            advanced(*final(self), *old(self)),
            r matches Ok(e) ==> progressed(*final(self), *old(self)) && expr_closed(e),
            r is Ok ==> final(self).vars == old(self).vars,
            parsed_expr_as(r, *final(self), grouping_spec(old(self).tokens@, old(self).pos as int, old(self).aliases, old(self).vars)),
        decreases old(self).tokens@.len() - old(self).pos, 6nat,
    {
        let e = match self.parse_expr() {
            Ok(e) => e,
            Err(x) => return Err(x),
        };
        match self.eat(Sym::RParen) {
            Ok(()) => Ok(e),
            Err(x) => Err(x),
        }
    }

    /// `<variant = e> as τ`, after the opening angle bracket.
    fn parse_expr_variant(&mut self) -> (r: Result<Expr, SyntaxError>)
        requires
            old(self).wf(),
            old(self).ty_scopes@ == Seq::<Name>::empty(),
        ensures
            advanced(*final(self), *old(self)),
            r matches Ok(e) ==> progressed(*final(self), *old(self)) && expr_closed(e),
            r is Ok ==> final(self).vars == old(self).vars,
            parsed_expr_as(r, *final(self), variant_spec(old(self).tokens@, old(self).pos as int, old(self).aliases, old(self).vars)),
        decreases old(self).tokens@.len() - old(self).pos, 6nat,
    {
        let variant = match self.parse_name() {
            Ok(n) => n,
            Err(x) => return Err(x),
        };
        match self.eat(Sym::Eq) {
            Ok(()) => {},
            Err(x) => return Err(x),
        }
        let field = match self.parse_expr() {
            Ok(e) => e,
            Err(x) => return Err(x),
        };
        match self.eat(Sym::RAngle) {
            Ok(()) => {},
            Err(x) => return Err(x),
        }
        match self.eat(Sym::KwAs) {
            Ok(()) => {},
            Err(x) => return Err(x),
        }
        match self.parse_ty() {
            Ok(ty) => Ok(Expr::Variant { ty, variant, field: Box::new(field) }),
            Err(x) => Err(x),
        }
    }

    /// `box(e)`, after `box`.
    fn parse_expr_box(&mut self) -> (r: Result<Expr, SyntaxError>)
        requires
            old(self).wf(),
            old(self).ty_scopes@ == Seq::<Name>::empty(),
        ensures
            advanced(*final(self), *old(self)),
            r matches Ok(e) ==> progressed(*final(self), *old(self)) && expr_closed(e),
            r is Ok ==> final(self).vars == old(self).vars,
            parsed_expr_as(r, *final(self), box_spec(old(self).tokens@, old(self).pos as int, old(self).aliases, old(self).vars)),
        decreases old(self).tokens@.len() - old(self).pos, 6nat,
    {
        match self.eat(Sym::LParen) {
            Ok(()) => {},
            Err(x) => return Err(x),
        }
        let boxed = match self.parse_expr() {
            Ok(e) => e,
            Err(x) => return Err(x),
        };
        match self.eat(Sym::RParen) {
            Ok(()) => Ok(Expr::Box(Box::new(boxed))),
            Err(x) => Err(x),
        }
    }

    /// `let v : τ = e in e`, after `let`; `v` is in scope in the body.
    fn parse_expr_let(&mut self) -> (r: Result<Expr, SyntaxError>)
        requires
            old(self).wf(),
            old(self).ty_scopes@ == Seq::<Name>::empty(),
        ensures
            advanced(*final(self), *old(self)),
            r matches Ok(e) ==> progressed(*final(self), *old(self)) && expr_closed(e),
            r is Ok ==> final(self).vars == old(self).vars,
            parsed_expr_as(r, *final(self), let_spec(old(self).tokens@, old(self).pos as int, old(self).aliases, old(self).vars)),
        decreases old(self).tokens@.len() - old(self).pos, 6nat,
    {
        let binder = match self.parse_var() {
            Ok(v) => v,
            Err(x) => return Err(x),
        };
        match self.eat(Sym::Eq) {
            Ok(()) => {},
            Err(x) => return Err(x),
        }
        let value = match self.parse_expr() {
            Ok(e) => e,
            Err(x) => return Err(x),
        };
        match self.eat(Sym::KwIn) {
            Ok(()) => {},
            Err(x) => return Err(x),
        }
        let saved = self.bind_var(&binder);
        let body = self.parse_expr();
        self.vars = saved;
        match body {
            Ok(body) => Ok(Expr::Let { binder, value: Box::new(value), body: Box::new(body) }),
            Err(x) => Err(x),
        }
    }

    /// `match e { pat => e, … }`, after `match`.
    fn parse_expr_match(&mut self) -> (r: Result<Expr, SyntaxError>)
        requires
            old(self).wf(),
            old(self).ty_scopes@ == Seq::<Name>::empty(),
        ensures
            advanced(*final(self), *old(self)),
            r matches Ok(e) ==> progressed(*final(self), *old(self)) && expr_closed(e),
            r is Ok ==> final(self).vars == old(self).vars,
            parsed_expr_as(r, *final(self), match_spec(old(self).tokens@, old(self).pos as int, old(self).aliases, old(self).vars)),
        decreases old(self).tokens@.len() - old(self).pos, 6nat,
    {
        let subj = match self.parse_expr() {
            Ok(e) => e,
            Err(x) => return Err(x),
        };
        match self.eat(Sym::LBrace) {
            Ok(()) => {},
            Err(x) => return Err(x),
        }
        match self.parse_cases() {
            Ok(cases) => Ok(Expr::Match { subj: Box::new(subj), cases: Box::new(cases) }),
            Err(x) => Err(x),
        }
    }

    /// `[τ] e`, as after `fold` or `unfold`.
    fn parse_bracketed_ty_and_expr(&mut self) -> (r: Result<(Ty, Expr), SyntaxError>)
        requires
            old(self).wf(),
            old(self).ty_scopes@ == Seq::<Name>::empty(),
        ensures
            advanced(*final(self), *old(self)),
            r matches Ok((t, e)) ==> progressed(*final(self), *old(self)) && ty_closed(t, 0) && expr_closed(e),
            r is Ok ==> final(self).vars == old(self).vars,
            parsed_expr_as(r, *final(self), bracketed_spec(old(self).tokens@, old(self).pos as int, old(self).aliases, old(self).vars)),
        decreases old(self).tokens@.len() - old(self).pos, 4nat,
    {
        match self.eat(Sym::LBracket) {
            Ok(()) => {},
            Err(x) => return Err(x),
        }
        let ty = match self.parse_ty() {
            Ok(t) => t,
            Err(x) => return Err(x),
        };
        match self.eat(Sym::RBracket) {
            Ok(()) => {},
            Err(x) => return Err(x),
        }
        match self.parse_expr() {
            Ok(e) => Ok((ty, e)),
            Err(x) => Err(x),
        }
    }

    /// `alias N = τ in`: later types may name `τ` as `N`.
    fn parse_alias(&mut self) -> (r: Result<(), SyntaxError>)
        requires
            old(self).wf(),
            old(self).ty_scopes@ == Seq::<Name>::empty(),
        ensures
            advanced(*final(self), *old(self)),
            r is Ok ==> progressed(*final(self), *old(self)),
            match alias_spec(old(self).tokens@, old(self).pos as int, old(self).aliases) {
                Ok((al, q)) => r is Ok && final(self).pos == q && final(self).aliases == al && final(self).vars == old(self).vars,
                Err(e) => r == Err::<(), SyntaxError>(e),
            },
    {
        let name = match self.parse_name() {
            Ok(n) => n,
            Err(x) => return Err(x),
        };
        match self.eat(Sym::Eq) {
            Ok(()) => {},
            Err(x) => return Err(x),
        }
        let defn = match self.parse_ty() {
            Ok(t) => t,
            Err(x) => return Err(x),
        };
        let mut aliases = List::Nil;
        std::mem::swap(&mut aliases, &mut self.aliases);
        self.aliases = List::Cons((name, defn), Box::new(aliases));
        self.eat(Sym::KwIn)
    }

    /// `name = e` entries separated by `,`, up to and including `}`.
    fn parse_expr_fields(&mut self) -> (r: Result<List<(Name, Expr)>, SyntaxError>)
        requires
            old(self).wf(),
            old(self).ty_scopes@ == Seq::<Name>::empty(),
        ensures
            advanced(*final(self), *old(self)),
            r matches Ok(fs) ==> progressed(*final(self), *old(self)) && expr_fields_closed(fs)
                && crate::lir::keys_distinct(fs),
            r is Ok ==> final(self).vars == old(self).vars,
            parsed_expr_as(r, *final(self), expr_fields_spec(old(self).tokens@, old(self).pos as int, old(self).aliases, old(self).vars)),
        decreases old(self).tokens@.len() - old(self).pos, 4nat,
    {
        if self.check(Sym::RBrace) {
            return match self.bump() {
                Ok(_) => Ok(List::Nil),
                Err(x) => Err(x),
            };
        }
        let name = match self.parse_name() {
            Ok(n) => n,
            Err(x) => return Err(x),
        };
        match self.eat(Sym::Eq) {
            Ok(()) => {},
            Err(x) => return Err(x),
        }
        let value = match self.parse_expr() {
            Ok(e) => e,
            Err(x) => return Err(x),
        };
        if !self.check(Sym::RBrace) {
            match self.eat(Sym::Comma) {
                Ok(()) => {},
                Err(x) => return Err(x),
            }
        }
        match self.parse_expr_fields() {
            Ok(rest) => {
                // A later field of the same name replaces this one.
                if crate::lir::find(&rest, &name).is_some() {
                    Ok(rest)
                } else {
                    Ok(List::Cons((name, value), Box::new(rest)))
                }
            },
            Err(x) => Err(x),
        }
    }

    /// `pat => e` cases separated by `,`, up to and including `}`.
    #[verifier::rlimit(50)]
    fn parse_cases(&mut self) -> (r: Result<List<(Pat, Expr)>, SyntaxError>)
        requires
            old(self).wf(),
            old(self).ty_scopes@ == Seq::<Name>::empty(),
        ensures
            advanced(*final(self), *old(self)),
            r matches Ok(cs) ==> progressed(*final(self), *old(self)) && cases_closed(cs),
            r is Ok ==> final(self).vars == old(self).vars,
            parsed_expr_as(r, *final(self), cases_spec(old(self).tokens@, old(self).pos as int, old(self).aliases, old(self).vars)),
        decreases old(self).tokens@.len() - old(self).pos, 4nat,
    {
        if self.check(Sym::RBrace) {
            return match self.bump() {
                Ok(_) => Ok(List::Nil),
                Err(x) => Err(x),
            };
        }
        let pat = match self.parse_pat() {
            Ok(p) => p,
            Err(x) => return Err(x),
        };
        match self.eat(Sym::WideArrow) {
            Ok(()) => {},
            Err(x) => return Err(x),
        }
        let saved = match &pat {
            Pat::Variant { field, .. } => self.bind_var(field),
        };
        let body = self.parse_expr();
        self.vars = saved;
        let body = match body {
            Ok(e) => e,
            Err(x) => return Err(x),
        };
        if !self.check(Sym::RBrace) {
            match self.eat(Sym::Comma) {
                Ok(()) => {},
                Err(x) => return Err(x),
            }
        }
        match self.parse_cases() {
            Ok(rest) => Ok(List::Cons((pat, body), Box::new(rest))),
            Err(x) => Err(x),
        }
    }

    /// `<variant = field : τ> as τ`.
    fn parse_pat(&mut self) -> (r: Result<Pat, SyntaxError>)
        requires
            old(self).wf(),
            old(self).ty_scopes@ == Seq::<Name>::empty(),
        ensures
            advanced(*final(self), *old(self)),
            r matches Ok(p) ==> progressed(*final(self), *old(self)) && pat_closed(p) && (p matches Pat::Variant {
                field,
                ..
            } ==> ty_keys_distinct(field.ty)),
            r is Ok ==> final(self).aliases == old(self).aliases && final(self).vars == old(self).vars,
            parsed_as(r, *final(self), pat_spec(old(self).tokens@, old(self).pos as int, old(self).aliases)),
        decreases old(self).tokens@.len() - old(self).pos, 5nat,
    {
        match self.eat(Sym::LAngle) {
            Ok(()) => {},
            Err(x) => return Err(x),
        }
        let variant = match self.parse_name() {
            Ok(n) => n,
            Err(x) => return Err(x),
        };
        match self.eat(Sym::Eq) {
            Ok(()) => {},
            Err(x) => return Err(x),
        }
        let field = match self.parse_var() {
            Ok(v) => v,
            Err(x) => return Err(x),
        };
        match self.eat(Sym::RAngle) {
            Ok(()) => {},
            Err(x) => return Err(x),
        }
        match self.eat(Sym::KwAs) {
            Ok(()) => {},
            Err(x) => return Err(x),
        }
        match self.parse_ty() {
            Ok(ty) => Ok(Pat::Variant { ty, variant, field }),
            Err(x) => Err(x),
        }
    }
}

} // verus!
