use exprc::decimal::decimal_text;
use exprc::{serialize, ExprC, Value};

#[test]
fn numbers_are_written_in_decimal() {
    assert_eq!(serialize(Value::NumV { n: 0 }), "0");
    assert_eq!(serialize(Value::NumV { n: 5 }), "5");
    assert_eq!(serialize(Value::NumV { n: 10 }), "10");
    assert_eq!(serialize(Value::NumV { n: 32 }), "32");
    assert_eq!(serialize(Value::NumV { n: 1002003 }), "1002003");
    assert_eq!(serialize(Value::NumV { n: 2147483647 }), "2147483647");
}

#[test]
fn negative_numbers_carry_a_sign() {
    assert_eq!(serialize(Value::NumV { n: -1 }), "-1");
    assert_eq!(serialize(Value::NumV { n: -10 }), "-10");
    assert_eq!(serialize(Value::NumV { n: -907 }), "-907");
    assert_eq!(serialize(Value::NumV { n: -2147483648 }), "-2147483648");
}

#[test]
fn numbers_have_no_leading_zeros() {
    for n in [1, 9, 10, 11, 100, 1000, 20000, -1, -10, -100, i32::MAX, i32::MIN] {
        let text = serialize(Value::NumV { n });
        let digits = text.strip_prefix('-').unwrap_or(&text);
        assert!(!digits.starts_with('0'));
        assert!(digits.chars().all(|c| c.is_ascii_digit()));
        assert_eq!(text.parse::<i32>(), Ok(n));
    }
}

#[test]
fn numbers_are_written_as_std_writes_them() {
    let mut n: i32 = 1;
    for _ in 0..31 {
        assert_eq!(serialize(Value::NumV { n }), n.to_string());
        assert_eq!(serialize(Value::NumV { n: -n }), (-n).to_string());
        assert_eq!(serialize(Value::NumV { n: n - 1 }), (n - 1).to_string());
        n = n.wrapping_mul(2);
    }
    for n in (-1000..=1000).chain((i32::MAX - 1000)..=i32::MAX).chain(i32::MIN..=(i32::MIN + 1000)) {
        assert_eq!(serialize(Value::NumV { n }), n.to_string());
    }
}

#[test]
fn truth_values_are_capitalized() {
    assert_eq!(serialize(Value::BoolV { b: true }), "True");
    assert_eq!(serialize(Value::BoolV { b: false }), "False");
}

#[test]
fn procedures_all_have_the_same_text() {
    let one = Value::ClosV { args: vec![], body: Box::new(ExprC::NumC { n: 1 }) };
    let other = Value::ClosV {
        args: vec!["a".to_string(), "b".to_string(), "c".to_string()],
        body: Box::new(ExprC::IdC { s: "a".to_string() }),
    };
    assert_eq!(serialize(one), "#<procedure>");
    assert_eq!(serialize(other), "#<procedure>");
}

#[test]
fn decimal_text_of_small_and_extreme_numbers() {
    assert_eq!(decimal_text(0), "0");
    assert_eq!(decimal_text(7), "7");
    assert_eq!(decimal_text(-7), "-7");
    assert_eq!(decimal_text(120), "120");
    assert_eq!(decimal_text(-120), "-120");
    assert_eq!(decimal_text(i32::MAX), "2147483647");
    assert_eq!(decimal_text(i32::MIN), "-2147483648");
}
