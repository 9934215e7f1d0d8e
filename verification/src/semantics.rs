//! What evaluation means, stated over the models of expressions and values.

use vstd::prelude::*;
use crate::expr::SpecExpr;
use crate::operator::{operator_of, Operator};
use crate::value::SpecValue;

verus! {

/// Why an evaluation failed. A failure ends the whole evaluation: nothing
/// recovers from it.
#[derive(Debug, Clone, Copy, PartialEq, Eq, Structural)]
pub enum EvalError {
    /// An identifier was evaluated. Nothing binds identifiers, so each of
    /// them is unbound.
    UnboundIdentifier,
    /// The condition of a conditional evaluated to something other than a
    /// truth value.
    NonBooleanCondition,
    /// A binary operation met a number on one side and a truth value on the
    /// other.
    TypeMismatch,
    /// The operator tag names no operation on operands of the kind given.
    UnknownOperator,
    /// A division by zero.
    DivisionByZero,
    /// The result of an arithmetic operation does not fit the numeric type.
    Overflow,
}

/// The outcome of an evaluation: a value, or the reason for the failure.
pub type Outcome = Result<SpecValue, EvalError>;

/// The quotient of `a` by `b`, rounded toward zero.
pub open spec fn quotient(a: int, b: int) -> int
    recommends
        b != 0,
{
    if a >= 0 && b > 0 {
        a / b
    } else if a >= 0 {
        -(a / (-b))
    } else if b > 0 {
        -((-a) / b)
    } else {
        (-a) / (-b)
    }
}

/// What is left of `a` when `quotient(a, b)` times `b` is taken from it.
pub open spec fn remainder(a: int, b: int) -> int
    recommends
        b != 0,
{
    a - quotient(a, b) * b
}

/// The quotient rounds toward zero: what it leaves of `a` is nearer to zero
/// than `b` and lies on the side of zero where `a` lies.
pub proof fn lemma_quotient_rounds_toward_zero(a: int, b: int)
    requires
        b != 0,
    ensures
        -b < remainder(a, b) < b || b < remainder(a, b) < -b,
        a >= 0 ==> remainder(a, b) >= 0,
        a <= 0 ==> remainder(a, b) <= 0,
{
    let x = if a < 0 {
        -a
    } else {
        a
    };
    let d = if b < 0 {
        -b
    } else {
        b
    };
    vstd::arithmetic::div_mod::lemma_fundamental_div_mod(x, d);
    vstd::arithmetic::div_mod::lemma_mod_bound(x, d);
    let q = x / d;
    assert(d * q == q * d) by (nonlinear_arith);
    assert((-q) * b == -(q * b)) by (nonlinear_arith);
    assert(q * (-b) == -(q * b)) by (nonlinear_arith);
}

/// Only the quotient rounds toward zero: an integer `q` that leaves of `a`
/// something nearer to zero than `b`, on the side of zero where `a` lies, is
/// the quotient.
pub proof fn lemma_quotient_unique(a: int, b: int, q: int)
    requires
        b != 0,
        -b < a - q * b < b || b < a - q * b < -b,
        a >= 0 ==> a - q * b >= 0,
        a <= 0 ==> a - q * b <= 0,
    ensures
        q == quotient(a, b),
{
    lemma_quotient_rounds_toward_zero(a, b);
    let p = quotient(a, b);
    let r = a - q * b;
    let s = a - p * b;
    assert((p - q) * b == r - s) by (nonlinear_arith)
        requires
            r == a - q * b,
            s == a - p * b,
    ;
    assert(p == q) by (nonlinear_arith)
        requires
            b != 0,
            (p - q) * b == r - s,
            -b < r - s < b || b < r - s < -b,
    ;
}

/// The number `n` as the result of an arithmetic operation: a value where it
/// fits the numeric type, a failure where it does not.
pub open spec fn numeric(n: int) -> Outcome {
    if i32::MIN <= n <= i32::MAX {
        Ok(SpecValue::Num { n })
    } else {
        Err(EvalError::Overflow)
    }
}

/// The operation `op` applied to the numbers `a` and `b`.
pub open spec fn apply_numeric(op: Operator, a: int, b: int) -> Outcome {
    match op {
        Operator::Add => numeric(a + b),
        Operator::Sub => numeric(a - b),
        Operator::Mul => numeric(a * b),
        Operator::Div => if b == 0 {
            Err(EvalError::DivisionByZero)
        } else {
            numeric(quotient(a, b))
        },
        Operator::Le => Ok(SpecValue::Bool { b: a <= b }),
        Operator::Equal => Ok(SpecValue::Bool { b: a == b }),
        Operator::Unknown => Err(EvalError::UnknownOperator),
    }
}

/// The operation `op` applied to the truth values `a` and `b`: only equality
/// is defined on them.
pub open spec fn apply_boolean(op: Operator, a: bool, b: bool) -> Outcome {
    match op {
        Operator::Equal => Ok(SpecValue::Bool { b: a == b }),
        _ => Err(EvalError::UnknownOperator),
    }
}

/// The operation with the tag `tag` applied to two values.
///
/// The kinds of the operands are looked at before the tag: a number beside a
/// truth value is a mismatch under every tag. A procedure on either side
/// gives `false`, whatever the tag and the other operand are.
pub open spec fn apply(tag: Seq<char>, left: SpecValue, right: SpecValue) -> Outcome {
    match (left, right) {
        (SpecValue::Num { n: a }, SpecValue::Num { n: b }) => apply_numeric(operator_of(tag), a, b),
        (SpecValue::Bool { b: a }, SpecValue::Bool { b }) => apply_boolean(operator_of(tag), a, b),
        (SpecValue::Num { .. }, SpecValue::Bool { .. }) => Err(EvalError::TypeMismatch),
        (SpecValue::Bool { .. }, SpecValue::Num { .. }) => Err(EvalError::TypeMismatch),
        _ => Ok(SpecValue::Bool { b: false }),
    }
}

/// The outcome of evaluating `e`.
///
/// A literal is its own value, and a procedure literal is a procedure with
/// the same parameters and body. An identifier fails. A conditional
/// evaluates its condition and then one branch only. A binary operation
/// evaluates its left operand, then its right operand, and applies the
/// operation to the two values. The first failure is the outcome.
pub open spec fn eval(e: SpecExpr) -> Outcome
    decreases e,
{
    match e {
        SpecExpr::Num { n } => Ok(SpecValue::Num { n }),
        SpecExpr::Bool { b } => Ok(SpecValue::Bool { b }),
        SpecExpr::Id { .. } => Err(EvalError::UnboundIdentifier),
        SpecExpr::Lam { params, body } => Ok(SpecValue::Clos { params, body: *body }),
        SpecExpr::If { cond, consequent, alternative } => match eval(*cond) {
            Ok(SpecValue::Bool { b }) => if b {
                eval(*consequent)
            } else {
                eval(*alternative)
            },
            Ok(_) => Err(EvalError::NonBooleanCondition),
            Err(err) => Err(err),
        },
        SpecExpr::Binop { tag, left, right } => match eval(*left) {
            Ok(lv) => match eval(*right) {
                Ok(rv) => apply(tag, lv, rv),
                Err(err) => Err(err),
            },
            Err(err) => Err(err),
        },
    }
}

} // verus!
