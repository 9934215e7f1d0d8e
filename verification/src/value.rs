//! Values: the results of evaluation.

use vstd::prelude::*;
use crate::expr::{ExprC, SpecExpr};

verus! {

/// The result of evaluating an expression.
#[derive(Debug, PartialEq, Eq)]
pub enum Value {
    /// A number.
    NumV { n: i32 },
    /// A truth value.
    BoolV { b: bool },
    /// A procedure: the parameter names and the body of the literal that it
    /// came from. There is no environment for it to capture.
    ClosV { args: Vec<String>, body: Box<ExprC> },
}

/// The mathematical model of a value.
pub enum SpecValue {
    /// A number.
    Num { n: int },
    /// A truth value.
    Bool { b: bool },
    /// A procedure.
    Clos { params: Seq<Seq<char>>, body: SpecExpr },
}

impl View for Value {
    type V = SpecValue;

    open spec fn view(&self) -> SpecValue {
        match self {
            Value::NumV { n } => SpecValue::Num { n: *n as int },
            Value::BoolV { b } => SpecValue::Bool { b: *b },
            Value::ClosV { args, body } => SpecValue::Clos {
                params: args.deep_view(),
                body: body@,
            },
        }
    }
}

} // verus!
