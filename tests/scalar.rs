use phyrs::scalar::Scalar;

#[test]
fn integer_square_root_rounds_down() {
    assert_eq!(25i64.sqrt(), 5);
    assert_eq!(8i64.sqrt(), 2);
    assert_eq!(1i64.sqrt(), 1);
    assert_eq!(0i64.sqrt(), 0);
    assert_eq!((-9i64).sqrt(), 0);
    assert_eq!(i64::MAX.sqrt(), 3037000499);
}

#[test]
fn integer_division_rounds_toward_zero() {
    assert_eq!(7i64.over(2), 3);
    assert_eq!((-7i64).over(2), -3);
    assert_eq!(7i64.over(-2), -3);
    assert_eq!(i64::MIN.over(-1), i64::MIN);
}

#[test]
fn integer_operations_wrap() {
    assert_eq!(i64::MAX.plus(1), i64::MIN);
    assert_eq!(i64::MIN.minus(1), i64::MAX);
    assert_eq!(3i64.times(-4), -12);
    assert_eq!(i64::from_count(12), 12);
}

#[test]
fn integer_text_is_decimal() {
    let mut out = String::from("v=");
    (-305i64).append_text(&mut out);
    assert_eq!(out, "v=-305");
}
