//! What holds of every evaluation.

use vstd::prelude::*;
use crate::decimal::decimal;
use crate::expr::SpecExpr;
use crate::operator::operator_of;
use crate::semantics::{apply, apply_numeric, eval, EvalError};
use crate::top_eval_spec;
use crate::value::SpecValue;

verus! {

/// A numeric literal evaluates to the decimal form of its number.
pub proof fn lemma_numeric_literal(n: int)
    ensures
        top_eval_spec(SpecExpr::Num { n }) == Ok::<Seq<char>, EvalError>(decimal(n)),
{
}

/// A boolean literal evaluates to `True` or to `False`.
pub proof fn lemma_boolean_literal(b: bool)
    ensures
        top_eval_spec(SpecExpr::Bool { b }) == Ok::<Seq<char>, EvalError>(
            if b {
                "True"@
            } else {
                "False"@
            },
        ),
{
}

/// A procedure literal evaluates to `#<procedure>`, whatever its parameters
/// and its body are. The body is not evaluated, so it may be one that fails.
pub proof fn lemma_procedure_literal(params: Seq<Seq<char>>, body: SpecExpr)
    ensures
        eval(SpecExpr::Lam { params, body: Box::new(body) }) == Ok::<SpecValue, EvalError>(
            SpecValue::Clos { params, body },
        ),
        top_eval_spec(SpecExpr::Lam { params, body: Box::new(body) }) == Ok::<
            Seq<char>,
            EvalError,
        >("#<procedure>"@),
{
}

/// A conditional whose condition evaluates to a truth value is the branch
/// that the truth value selects. The other branch has no part in the outcome:
/// it may be one that fails.
pub proof fn lemma_conditional_selects_branch(
    cond: SpecExpr,
    consequent: SpecExpr,
    alternative: SpecExpr,
    b: bool,
)
    requires
        eval(cond) == Ok::<SpecValue, EvalError>(SpecValue::Bool { b }),
    ensures
        top_eval_spec(
            SpecExpr::If {
                cond: Box::new(cond),
                consequent: Box::new(consequent),
                alternative: Box::new(alternative),
            },
        ) == if b {
            top_eval_spec(consequent)
        } else {
            top_eval_spec(alternative)
        },
{
}

/// A conditional on a boolean literal is the branch that the literal selects.
pub proof fn lemma_conditional_on_literal(consequent: SpecExpr, alternative: SpecExpr, b: bool)
    ensures
        top_eval_spec(
            SpecExpr::If {
                cond: Box::new(SpecExpr::Bool { b }),
                consequent: Box::new(consequent),
                alternative: Box::new(alternative),
            },
        ) == if b {
            top_eval_spec(consequent)
        } else {
            top_eval_spec(alternative)
        },
{
    lemma_conditional_selects_branch(SpecExpr::Bool { b }, consequent, alternative, b);
}

/// An identifier never evaluates: there is nothing that binds one.
pub proof fn lemma_identifier_fails(name: Seq<char>)
    ensures
        eval(SpecExpr::Id { name }) == Err::<SpecValue, EvalError>(EvalError::UnboundIdentifier),
        top_eval_spec(SpecExpr::Id { name }) == Err::<Seq<char>, EvalError>(
            EvalError::UnboundIdentifier,
        ),
{
}

/// A conditional whose condition evaluates to a number or to a procedure
/// fails, whatever its branches are.
pub proof fn lemma_non_boolean_condition_fails(
    cond: SpecExpr,
    consequent: SpecExpr,
    alternative: SpecExpr,
)
    requires
        eval(cond) is Ok,
        !(eval(cond)->Ok_0 is Bool),
    ensures
        top_eval_spec(
            SpecExpr::If {
                cond: Box::new(cond),
                consequent: Box::new(consequent),
                alternative: Box::new(alternative),
            },
        ) == Err::<Seq<char>, EvalError>(EvalError::NonBooleanCondition),
{
}

/// A binary operation on a number and a truth value, in either order, fails
/// with a type mismatch, whatever its tag is.
pub proof fn lemma_mismatched_operands_fail(tag: Seq<char>, left: SpecExpr, right: SpecExpr)
    requires
        eval(left) is Ok,
        eval(right) is Ok,
        (eval(left)->Ok_0 is Num && eval(right)->Ok_0 is Bool) || (eval(left)->Ok_0 is Bool
            && eval(right)->Ok_0 is Num),
    ensures
        top_eval_spec(SpecExpr::Binop { tag, left: Box::new(left), right: Box::new(right) })
            == Err::<Seq<char>, EvalError>(EvalError::TypeMismatch),
{
}

/// A failure of an operand is the failure of the binary operation, and the
/// left operand comes first: where it fails, the right operand has no part
/// in the outcome.
pub proof fn lemma_operand_failure(tag: Seq<char>, left: SpecExpr, right: SpecExpr)
    requires
        eval(left) is Err || eval(right) is Err,
    ensures
        eval(SpecExpr::Binop { tag, left: Box::new(left), right: Box::new(right) }) == if eval(
            left,
        ) is Err {
            Err::<SpecValue, EvalError>(eval(left)->Err_0)
        } else {
            Err::<SpecValue, EvalError>(eval(right)->Err_0)
        },
{
}

/// A binary operation whose operands both evaluate is the operation on their
/// values.
pub proof fn lemma_binop_on_values(
    tag: Seq<char>,
    left: SpecExpr,
    right: SpecExpr,
    lv: SpecValue,
    rv: SpecValue,
)
    requires
        eval(left) == Ok::<SpecValue, EvalError>(lv),
        eval(right) == Ok::<SpecValue, EvalError>(rv),
    ensures
        eval(SpecExpr::Binop { tag, left: Box::new(left), right: Box::new(right) }) == apply(
            tag,
            lv,
            rv,
        ),
{
}

/// A binary operation on two numeric literals is the operation of its tag on
/// the two numbers.
pub proof fn lemma_binop_on_numbers(tag: Seq<char>, a: int, b: int)
    ensures
        eval(
            SpecExpr::Binop {
                tag,
                left: Box::new(SpecExpr::Num { n: a }),
                right: Box::new(SpecExpr::Num { n: b }),
            },
        ) == apply_numeric(operator_of(tag), a, b),
{
    lemma_binop_on_values(
        tag,
        SpecExpr::Num { n: a },
        SpecExpr::Num { n: b },
        SpecValue::Num { n: a },
        SpecValue::Num { n: b },
    );
}

/// A binary operation with a procedure on either side gives `False`,
/// whatever its tag and its other operand are.
pub proof fn lemma_procedure_operand(tag: Seq<char>, left: SpecValue, right: SpecValue)
    requires
        left is Clos || right is Clos,
    ensures
        apply(tag, left, right) == Ok::<SpecValue, EvalError>(SpecValue::Bool { b: false }),
{
}

} // verus!
