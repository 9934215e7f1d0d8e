//! Expressions: the trees that the evaluator consumes.

use vstd::prelude::*;

verus! {

/// An expression. Each node owns its children, so an expression is a finite
/// tree.
#[derive(Debug, PartialEq, Eq)]
pub enum ExprC {
    /// A numeric literal.
    NumC { n: i32 },
    /// A boolean literal.
    BoolC { b: bool },
    /// A reference to the identifier `s`.
    IdC { s: String },
    /// A conditional: the condition `c`, the branch `t` for a condition that
    /// holds and the branch `f` for one that does not.
    IfC { c: Box<ExprC>, t: Box<ExprC>, f: Box<ExprC> },
    /// A procedure literal with the parameter names `args`, which need not
    /// differ from one another, and a body.
    LamC { args: Vec<String>, body: Box<ExprC> },
    /// A binary operation with the operator tag `s` and the operands `l` and
    /// `r`.
    BinopC { s: String, l: Box<ExprC>, r: Box<ExprC> },
}

/// The mathematical model of an expression: numbers are unbounded integers,
/// names and operator tags are sequences of characters.
pub enum SpecExpr {
    /// A numeric literal.
    Num { n: int },
    /// A boolean literal.
    Bool { b: bool },
    /// A reference to an identifier.
    Id { name: Seq<char> },
    /// A conditional.
    If { cond: Box<SpecExpr>, consequent: Box<SpecExpr>, alternative: Box<SpecExpr> },
    /// A procedure literal.
    Lam { params: Seq<Seq<char>>, body: Box<SpecExpr> },
    /// A binary operation.
    Binop { tag: Seq<char>, left: Box<SpecExpr>, right: Box<SpecExpr> },
}

impl ExprC {
    /// The model of this expression.
    pub open spec fn model(self) -> SpecExpr
        decreases self,
    {
        match self {
            ExprC::NumC { n } => SpecExpr::Num { n: n as int },
            ExprC::BoolC { b } => SpecExpr::Bool { b },
            ExprC::IdC { s } => SpecExpr::Id { name: s@ },
            ExprC::IfC { c, t, f } => SpecExpr::If {
                cond: Box::new((*c).model()),
                consequent: Box::new((*t).model()),
                alternative: Box::new((*f).model()),
            },
            ExprC::LamC { args, body } => SpecExpr::Lam {
                params: args.deep_view(),
                body: Box::new((*body).model()),
            },
            ExprC::BinopC { s, l, r } => SpecExpr::Binop {
                tag: s@,
                left: Box::new((*l).model()),
                right: Box::new((*r).model()),
            },
        }
    }
}

impl View for ExprC {
    type V = SpecExpr;

    open spec fn view(&self) -> SpecExpr {
        self.model()
    }
}

} // verus!
