//! Operator tags of binary operations.

use vstd::prelude::*;

verus! {

/// The operation that a tag of a binary operation stands for.
#[derive(Debug, Clone, Copy, PartialEq, Eq, Structural)]
pub enum Operator {
    /// `+`
    Add,
    /// `-`
    Sub,
    /// `*`
    Mul,
    /// `/`
    Div,
    /// `<=`
    Le,
    /// `eq?`
    Equal,
    /// Any other tag.
    Unknown,
}

/// The operation that the tag `tag` stands for. [`lemma_operator_tags`] gives
/// it for each of the six tags that stand for one.
pub open spec fn operator_of(tag: Seq<char>) -> Operator {
    if tag == "+"@ {
        Operator::Add
    } else if tag == "-"@ {
        Operator::Sub
    } else if tag == "*"@ {
        Operator::Mul
    } else if tag == "/"@ {
        Operator::Div
    } else if tag == "<="@ {
        Operator::Le
    } else if tag == "eq?"@ {
        Operator::Equal
    } else {
        Operator::Unknown
    }
}

/// Each of the six tags stands for its own operation.
pub proof fn lemma_operator_tags()
    ensures
        operator_of("+"@) == Operator::Add,
        operator_of("-"@) == Operator::Sub,
        operator_of("*"@) == Operator::Mul,
        operator_of("/"@) == Operator::Div,
        operator_of("<="@) == Operator::Le,
        operator_of("eq?"@) == Operator::Equal,
{
    reveal_strlit("+");
    reveal_strlit("-");
    reveal_strlit("*");
    reveal_strlit("/");
    reveal_strlit("<=");
    reveal_strlit("eq?");
    assert("+"@[0] == '+');
    assert("-"@[0] == '-');
    assert("*"@[0] == '*');
    assert("/"@[0] == '/');
    assert("<="@.len() == 2);
    assert("eq?"@.len() == 3);
}

/// Reads an operator tag.
pub fn parse_operator(tag: &str) -> (op: Operator)
    ensures
        op == operator_of(tag@),
{
    proof {
        reveal_strlit("+");
        reveal_strlit("-");
        reveal_strlit("*");
        reveal_strlit("/");
        reveal_strlit("<=");
        reveal_strlit("eq?");
    }
    let len: usize = tag.unicode_len();
    if len == 1 {
        let c = tag.get_char(0);
        if c == '+' {
            assert(tag@ =~= "+"@);
            Operator::Add
        } else if c == '-' {
            assert(tag@ =~= "-"@);
            Operator::Sub
        } else if c == '*' {
            assert(tag@ =~= "*"@);
            Operator::Mul
        } else if c == '/' {
            assert(tag@ =~= "/"@);
            Operator::Div
        } else {
            Operator::Unknown
        }
    } else if len == 2 {
        if tag.get_char(0) == '<' && tag.get_char(1) == '=' {
            assert(tag@ =~= "<="@);
            Operator::Le
        } else {
            Operator::Unknown
        }
    } else if len == 3 {
        if tag.get_char(0) == 'e' && tag.get_char(1) == 'q' && tag.get_char(2) == '?' {
            assert(tag@ =~= "eq?"@);
            Operator::Equal
        } else {
            Operator::Unknown
        }
    } else {
        Operator::Unknown
    }
}

} // verus!
