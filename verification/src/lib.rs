//! A tree-walking evaluator for a small arithmetic and boolean expression
//! language, with a serializer for its results.
//!
//! The caller builds an expression as a tree ([`ExprC`]). [`interp`] reduces
//! it to a [`Value`], [`serialize`] gives the text form of a value, and
//! [`top_eval`] does one after the other. Nothing is kept between calls.
//!
//! An evaluation can fail, and a failure ends the whole evaluation: the
//! functions then return the reason as an [`EvalError`], and no part of a
//! result.

use vstd::prelude::*;

pub mod decimal;
pub mod expr;
pub mod interp;
pub mod laws;
pub mod operator;
pub mod semantics;
pub mod serialize;
pub mod value;

pub use crate::expr::{ExprC, SpecExpr};
pub use crate::interp::{apply_operator, binop_Value, interp};
pub use crate::operator::{parse_operator, Operator};
pub use crate::semantics::EvalError;
pub use crate::serialize::serialize;
pub use crate::value::{SpecValue, Value};

verus! {

/// The text that evaluating `e` ends in, or the reason why it fails.
pub open spec fn top_eval_spec(e: SpecExpr) -> Result<Seq<char>, EvalError> {
    match crate::semantics::eval(e) {
        Ok(v) => Ok(crate::serialize::render(v)),
        Err(err) => Err(err),
    }
}

/// The model of what [`top_eval`] returned.
pub open spec fn text_of(res: Result<String, EvalError>) -> Result<Seq<char>, EvalError> {
    match res {
        Ok(text) => Ok(text@),
        Err(err) => Err(err),
    }
}

/// Evaluates an expression and gives the text form of its value.
pub fn top_eval(e: ExprC) -> (res: Result<String, EvalError>)
    ensures
        text_of(res) == top_eval_spec(e@),
{
    match interp(e) {
        Ok(v) => Ok(serialize(v)),
        Err(err) => Err(err),
    }
}

} // verus!
