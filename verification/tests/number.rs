use lox_interpreter::number::Number;
use lox_interpreter::utils::{chars_of, decimal, pad_number, text_of};

fn number(value: f64) -> Number {
    Number::from_bits(value.to_bits())
}

fn samples() -> Vec<f64> {
    vec![
        0.0,
        -0.0,
        1.0,
        -1.0,
        0.5,
        -0.5,
        2.0,
        1e300,
        -1e300,
        5e-324,
        -5e-324,
        f64::MIN_POSITIVE,
        f64::MAX,
        f64::MIN,
        f64::INFINITY,
        f64::NEG_INFINITY,
        f64::NAN,
        -f64::NAN,
        f64::EPSILON,
        3.141592653589793,
    ]
}

#[test]
fn comparisons_agree_with_doubles() {
    for a in samples() {
        for b in samples() {
            let (x, y) = (number(a), number(b));
            assert_eq!(x.equals(&y), a == b, "{a} == {b}");
            assert_eq!(x.less_than(&y), a < b, "{a} < {b}");
            assert_eq!(x.less_or_equal(&y), a <= b, "{a} <= {b}");
            assert_eq!(x.greater_than(&y), a > b, "{a} > {b}");
            assert_eq!(x.greater_or_equal(&y), a >= b, "{a} >= {b}");
        }
    }
}

#[test]
fn negation_agrees_with_doubles() {
    for a in samples() {
        assert_eq!(number(a).negate().to_bits(), (-a).to_bits(), "-{a}");
        assert_eq!(number(a).negate().negate(), number(a));
    }
}

#[test]
fn zero_and_nan_are_told_apart() {
    for a in samples() {
        assert_eq!(number(a).is_nan(), a.is_nan(), "{a}");
        assert_eq!(number(a).is_zero(), a == 0.0, "{a}");
    }
    assert_eq!(Number::zero().to_bits(), 0.0f64.to_bits());
    assert!(Number::zero().is_zero());
}

#[test]
fn padding_adds_a_decimal_point_once() {
    assert_eq!(pad_number("3"), "3.0");
    assert_eq!(pad_number("120"), "120.0");
    assert_eq!(pad_number("2.5"), "2.5");
    assert_eq!(pad_number("0.1"), "0.1");
    assert_eq!(pad_number("-7"), "-7.0");
    assert_eq!(pad_number(""), ".0");
    assert_eq!(pad_number(&pad_number("3")), "3.0");
    assert_eq!(pad_number(&3f64.to_string()), "3.0");
    assert_eq!(pad_number(&0.25f64.to_string()), "0.25");
    assert_eq!(pad_number(&1e21f64.to_string()), "1000000000000000000000.0");
}

#[test]
fn text_and_characters_convert_both_ways() {
    let chars = chars_of("héllo");
    assert_eq!(chars, vec!['h', 'é', 'l', 'l', 'o']);
    assert_eq!(text_of(&chars, 1, 4), "éll");
    assert_eq!(text_of(&chars, 0, 5), "héllo");
    assert_eq!(text_of(&chars, 2, 2), "");
    assert!(chars_of("").is_empty());
}

#[test]
fn integers_are_written_in_decimal() {
    assert_eq!(decimal(0), "0");
    assert_eq!(decimal(7), "7");
    assert_eq!(decimal(10), "10");
    assert_eq!(decimal(4096), "4096");
    assert_eq!(decimal(usize::MAX), usize::MAX.to_string());
}
