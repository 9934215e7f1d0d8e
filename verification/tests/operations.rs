use exprc::{apply_operator, binop_Value, interp, parse_operator, EvalError, ExprC, Operator, Value};

fn num(n: i32) -> Box<ExprC> {
    Box::new(ExprC::NumC { n })
}

fn lambda() -> Box<ExprC> {
    Box::new(ExprC::LamC { args: vec!["x".to_string(), "y".to_string()], body: num(1) })
}

fn procedure() -> Value {
    Value::ClosV { args: vec!["x".to_string()], body: num(1) }
}

#[test]
fn each_tag_is_read_as_its_operation() {
    assert_eq!(parse_operator("+"), Operator::Add);
    assert_eq!(parse_operator("-"), Operator::Sub);
    assert_eq!(parse_operator("*"), Operator::Mul);
    assert_eq!(parse_operator("/"), Operator::Div);
    assert_eq!(parse_operator("<="), Operator::Le);
    assert_eq!(parse_operator("eq?"), Operator::Equal);
}

#[test]
fn other_tags_are_read_as_unknown() {
    for tag in ["", "%", "<", "=", "=<", "<=<", "eq", "eq!", "Eq?", "eq? ", "e", "?", "+-", "\u{e9}q?", "\u{2264}"] {
        assert_eq!(parse_operator(tag), Operator::Unknown);
    }
}

#[test]
fn literals_evaluate_to_themselves() {
    assert_eq!(interp(ExprC::NumC { n: -3 }), Ok(Value::NumV { n: -3 }));
    assert_eq!(interp(ExprC::BoolC { b: true }), Ok(Value::BoolV { b: true }));
    assert_eq!(interp(ExprC::BoolC { b: false }), Ok(Value::BoolV { b: false }));
}

#[test]
fn procedure_literal_evaluates_to_its_parameters_and_body() {
    let body = ExprC::BinopC { s: "+".to_string(), l: Box::new(ExprC::IdC { s: "x".to_string() }), r: num(1) };
    let e = ExprC::LamC { args: vec!["x".to_string(), "y".to_string()], body: Box::new(body) };
    let expected_body = ExprC::BinopC { s: "+".to_string(), l: Box::new(ExprC::IdC { s: "x".to_string() }), r: num(1) };
    assert_eq!(
        interp(e),
        Ok(Value::ClosV { args: vec!["x".to_string(), "y".to_string()], body: Box::new(expected_body) })
    );
}

#[test]
fn binary_operation_evaluates_its_operands() {
    let l = Box::new(ExprC::BinopC { s: "*".to_string(), l: num(3), r: num(4) });
    let r = Box::new(ExprC::IfC { c: Box::new(ExprC::BoolC { b: false }), t: num(1), f: num(30) });
    assert_eq!(binop_Value("+".to_string(), l, r), Ok(Value::NumV { n: 42 }));
}

#[test]
fn binary_operation_agrees_with_the_evaluator() {
    let direct = binop_Value("<=".to_string(), num(2), num(3));
    let through = interp(ExprC::BinopC { s: "<=".to_string(), l: num(2), r: num(3) });
    assert_eq!(direct, through);
    assert_eq!(direct, Ok(Value::BoolV { b: true }));
}

#[test]
fn binary_operation_reports_the_failure_of_an_operand() {
    let unbound = Box::new(ExprC::IdC { s: "x".to_string() });
    assert_eq!(binop_Value("+".to_string(), unbound, num(1)), Err(EvalError::UnboundIdentifier));
}

#[test]
fn operations_on_two_numbers() {
    let n = |n: i32| Value::NumV { n };
    assert_eq!(apply_operator("+", n(4), n(8)), Ok(n(12)));
    assert_eq!(apply_operator("-", n(5), n(3)), Ok(n(2)));
    assert_eq!(apply_operator("*", n(8), n(4)), Ok(n(32)));
    assert_eq!(apply_operator("/", n(25), n(5)), Ok(n(5)));
    assert_eq!(apply_operator("/", n(-25), n(7)), Ok(n(-3)));
    assert_eq!(apply_operator("<=", n(2), n(3)), Ok(Value::BoolV { b: true }));
    assert_eq!(apply_operator("<=", n(3), n(2)), Ok(Value::BoolV { b: false }));
    assert_eq!(apply_operator("eq?", n(5), n(8)), Ok(Value::BoolV { b: false }));
    assert_eq!(apply_operator("eq?", n(5), n(5)), Ok(Value::BoolV { b: true }));
    assert_eq!(apply_operator("^", n(5), n(5)), Err(EvalError::UnknownOperator));
    assert_eq!(apply_operator("/", n(5), n(0)), Err(EvalError::DivisionByZero));
    assert_eq!(apply_operator("*", n(65536), n(65536)), Err(EvalError::Overflow));
}

#[test]
fn operations_on_two_booleans() {
    let b = |b: bool| Value::BoolV { b };
    assert_eq!(apply_operator("eq?", b(true), b(false)), Ok(b(false)));
    assert_eq!(apply_operator("eq?", b(false), b(true)), Ok(b(false)));
    assert_eq!(apply_operator("eq?", b(true), b(true)), Ok(b(true)));
    assert_eq!(apply_operator("eq?", b(false), b(false)), Ok(b(true)));
    assert_eq!(apply_operator("<=", b(false), b(true)), Err(EvalError::UnknownOperator));
    assert_eq!(apply_operator("?", b(false), b(true)), Err(EvalError::UnknownOperator));
}

#[test]
fn operations_on_a_number_and_a_boolean() {
    assert_eq!(
        apply_operator("eq?", Value::NumV { n: 1 }, Value::BoolV { b: true }),
        Err(EvalError::TypeMismatch)
    );
    assert_eq!(
        apply_operator("eq?", Value::BoolV { b: true }, Value::NumV { n: 1 }),
        Err(EvalError::TypeMismatch)
    );
}

// A procedure as an operand does not fail the operation: it gives `false`,
// on either side and under every tag.
#[test]
fn operations_on_a_procedure_give_false() {
    let no = Ok(Value::BoolV { b: false });
    for tag in ["+", "-", "*", "/", "<=", "eq?", "no-such", ""] {
        assert_eq!(apply_operator(tag, procedure(), Value::NumV { n: 1 }), no);
        assert_eq!(apply_operator(tag, procedure(), Value::BoolV { b: true }), no);
        assert_eq!(apply_operator(tag, procedure(), procedure()), no);
        assert_eq!(apply_operator(tag, Value::NumV { n: 1 }, procedure()), no);
        assert_eq!(apply_operator(tag, Value::BoolV { b: true }, procedure()), no);
    }
}

#[test]
fn procedure_operand_in_an_expression_gives_false() {
    let e = ExprC::BinopC { s: "eq?".to_string(), l: lambda(), r: lambda() };
    assert_eq!(exprc::top_eval(e), Ok("False".to_string()));
    let e = ExprC::BinopC { s: "+".to_string(), l: num(1), r: lambda() };
    assert_eq!(exprc::top_eval(e), Ok("False".to_string()));
    let e = ExprC::BinopC { s: "/".to_string(), l: lambda(), r: num(0) };
    assert_eq!(exprc::top_eval(e), Ok("False".to_string()));
}
