//! The serializer: the text form of a value.

use vstd::prelude::*;
use crate::decimal::{decimal, decimal_text};
use crate::value::{SpecValue, Value};

verus! {

/// The text form of a value: a number in decimal, a truth value as `True` or
/// `False`, and every procedure as the same fixed text.
pub open spec fn render(v: SpecValue) -> Seq<char> {
    match v {
        SpecValue::Num { n } => decimal(n),
        SpecValue::Bool { b } => if b {
            "True"@
        } else {
            "False"@
        },
        SpecValue::Clos { .. } => "#<procedure>"@,
    }
}

/// Gives the text form of a value.
pub fn serialize(v: Value) -> (out: String)
    ensures
        out@ == render(v@),
{
    match v {
        Value::NumV { n } => decimal_text(n),
        Value::BoolV { b } => if b {
            "True".to_owned()
        } else {
            "False".to_owned()
        },
        Value::ClosV { .. } => "#<procedure>".to_owned(),
    }
}

} // verus!
