//! The whole pipeline: source text to a value.

use vstd::prelude::*;

use crate::eval::{eval_spec, try_eval_root_expr, EvalError};
use crate::hir;
use crate::layout::laws::{ty_closed, ty_keys_distinct};
use crate::lir;
use crate::list::List;
use crate::lower::{lower_spec, try_lower_root_expr, LowerError};
use crate::name::Name;
use crate::parser::lexer::{lex_spec, Token};
use crate::parser::{expr_closed, parse_tokens_spec, parse_ty_tokens_spec, Parser, SyntaxError};

verus! {

/// Why a line of source could not be run.
#[derive(Debug, Clone, Copy, PartialEq, Eq, Structural)]
pub enum Error {
    Syntax(SyntaxError),
    Lower(LowerError),
    Eval(EvalError),
}

/// Parses an expression: the tokens of `src` parsed as
/// `parse_tokens_spec` says.
pub fn parse(src: &str) -> (r: Result<hir::Expr, SyntaxError>)
    ensures
        match lex_spec(src@, 0) {
            Err(x) => r == Err::<hir::Expr, SyntaxError>(x),
            Ok(tv) => exists|toks: Seq<Token>| toks.map_values(|t: Token| t@) == tv && r == parse_tokens_spec(toks),
        },
        r matches Ok(e) ==> expr_closed(e),
{
    Parser::parse(src.to_owned())
}

/// Parses a type: the tokens of `src` parsed as `parse_ty_tokens_spec`
/// says.
pub fn parse_ty(src: &str) -> (r: Result<hir::Ty, SyntaxError>)
    ensures
        match lex_spec(src@, 0) {
            Err(x) => r == Err::<hir::Ty, SyntaxError>(x),
            Ok(tv) => exists|toks: Seq<Token>| toks.map_values(|t: Token| t@) == tv && r == parse_ty_tokens_spec(toks),
        },
        r matches Ok(t) ==> ty_closed(t, 0) && ty_keys_distinct(t),
{
    Parser::parse_ty_toplevel(src.to_owned())
}

/// Lowers and evaluates the result of a parse, or passes its error on.
pub open spec fn run_spec(parsed: Result<hir::Expr, SyntaxError>) -> Result<lir::Value, Error> {
    match parsed {
        Err(x) => Err(Error::Syntax(x)),
        Ok(e) => match lower_spec(e, 0, Name::Tag, Name::Data) {
            Err(x) => Err(Error::Lower(x)),
            Ok((m, _)) => match eval_spec(List::Nil, m) {
                Ok(v) => Ok(v),
                Err(x) => Err(Error::Eval(x)),
            },
        },
    }
}

/// Parses, lowers and evaluates an expression: `run_spec` of the parse of
/// the tokens of `src`.
pub fn parse_and_eval(src: &str) -> (r: Result<lir::Value, Error>)
    ensures
        match lex_spec(src@, 0) {
            Err(x) => r == Err::<lir::Value, Error>(Error::Syntax(x)),
            Ok(tv) => exists|toks: Seq<Token>|
                toks.map_values(|t: Token| t@) == tv && r == run_spec(parse_tokens_spec(toks)),
        },
{
    let parsed = parse(src);
    let ghost p0 = parsed;
    let r = match parsed {
        Err(x) => Err(Error::Syntax(x)),
        Ok(hir_expr) => match try_lower_root_expr(hir_expr) {
            Err(x) => Err(Error::Lower(x)),
            Ok(lir_expr) => match try_eval_root_expr(lir_expr) {
                Ok(v) => Ok(v),
                Err(x) => Err(Error::Eval(x)),
            },
        },
    };
    proof {
        assert(r == run_spec(p0));
        if lex_spec(src@, 0) is Ok {
            let tv = lex_spec(src@, 0).unwrap();
            let toks = choose|toks: Seq<Token>| toks.map_values(|t: Token| t@) == tv && p0 == parse_tokens_spec(toks);
            assert(toks.map_values(|t: Token| t@) == tv && r == run_spec(parse_tokens_spec(toks)));
        }
    }
    r
}

} // verus!
