//! The evaluator: a recursive walk over the expression tree.

use vstd::prelude::*;
use crate::expr::{ExprC, SpecExpr};
use crate::operator::{parse_operator, Operator};
use crate::semantics::{apply, eval, EvalError, Outcome};
use crate::value::Value;

verus! {

/// The model of what an evaluation returned.
pub open spec fn outcome_of(res: Result<Value, EvalError>) -> Outcome {
    match res {
        Ok(v) => Ok(v@),
        Err(err) => Err(err),
    }
}

/// Applies the operation with the tag `tag` to two values.
///
/// Two numbers take any of the six operations, two truth values take
/// equality only, and a number beside a truth value is a mismatch. A
/// procedure on either side gives `false` and no failure.
pub fn apply_operator(tag: &str, left: Value, right: Value) -> (res: Result<Value, EvalError>)
    ensures
        outcome_of(res) == apply(tag@, left@, right@),
{
    match (left, right) {
        (Value::NumV { n: a }, Value::NumV { n: b }) => match parse_operator(tag) {
            Operator::Add => match a.checked_add(b) {
                Some(n) => Ok(Value::NumV { n }),
                None => Err(EvalError::Overflow),
            },
            Operator::Sub => match a.checked_sub(b) {
                Some(n) => Ok(Value::NumV { n }),
                None => Err(EvalError::Overflow),
            },
            Operator::Mul => match a.checked_mul(b) {
                Some(n) => Ok(Value::NumV { n }),
                None => Err(EvalError::Overflow),
            },
            Operator::Div => match a.checked_div(b) {
                Some(n) => Ok(Value::NumV { n }),
                None => if b == 0 {
                    Err(EvalError::DivisionByZero)
                } else {
                    Err(EvalError::Overflow)
                },
            },
            Operator::Le => Ok(Value::BoolV { b: a <= b }),
            Operator::Equal => Ok(Value::BoolV { b: a == b }),
            Operator::Unknown => Err(EvalError::UnknownOperator),
        },
        (Value::BoolV { b: a }, Value::BoolV { b }) => match parse_operator(tag) {
            Operator::Equal => Ok(Value::BoolV { b: a == b }),
            _ => Err(EvalError::UnknownOperator),
        },
        (Value::NumV { .. }, Value::BoolV { .. }) => Err(EvalError::TypeMismatch),
        (Value::BoolV { .. }, Value::NumV { .. }) => Err(EvalError::TypeMismatch),
        _ => Ok(Value::BoolV { b: false }),
    }
}

/// Evaluates a binary operation: the left operand, then the right operand,
/// then the operation on the two values.
#[allow(non_snake_case)]
pub fn binop_Value(s: String, l: Box<ExprC>, r: Box<ExprC>) -> (res: Result<Value, EvalError>)
    ensures
        outcome_of(res) == eval(
            SpecExpr::Binop { tag: s@, left: Box::new(l@), right: Box::new(r@) },
        ),
    decreases (ExprC::BinopC { s, l, r }), 0int,
{
    proof {
        // Each operand is a part of the operation, so evaluating it is a
        // step down.
        let whole = ExprC::BinopC { s, l, r };
        assert(whole->l == l && whole->r == r);
    }
    let left = match interp(*l) {
        Ok(v) => v,
        Err(err) => { return Err(err); },
    };
    let right = match interp(*r) {
        Ok(v) => v,
        Err(err) => { return Err(err); },
    };
    apply_operator(s.as_str(), left, right)
}

/// Evaluates an expression to its value, or to the reason why it has none.
pub fn interp(e: ExprC) -> (res: Result<Value, EvalError>)
    ensures
        outcome_of(res) == eval(e@),
    decreases e, 1int,
{
    match e {
        ExprC::IdC { s } => Err(EvalError::UnboundIdentifier),
        ExprC::NumC { n } => Ok(Value::NumV { n }),
        ExprC::BoolC { b } => Ok(Value::BoolV { b }),
        ExprC::LamC { args, body } => Ok(Value::ClosV { args, body }),
        ExprC::BinopC { s, l, r } => binop_Value(s, l, r),
        ExprC::IfC { c, t, f } => match interp(*c) {
            Ok(Value::BoolV { b }) => if b {
                interp(*t)
            } else {
                interp(*f)
            },
            Ok(_) => Err(EvalError::NonBooleanCondition),
            Err(err) => Err(err),
        },
    }
}

} // verus!
