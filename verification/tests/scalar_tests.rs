use lmath::scalar::{Number, Scalar, SignedNumber};

#[test]
fn i32_zero_and_one() {
    assert_eq!(<i32 as Number>::zero(), 0);
    assert_eq!(<i32 as Number>::one(), 1);
    assert_eq!(<u32 as Number>::zero(), 0);
    assert_eq!(<u32 as Number>::one(), 1);
}

#[test]
fn i32_add_wraps_at_both_ends() {
    assert_eq!(Number::add(3i32, 4), 7);
    assert_eq!(Number::add(i32::MAX, 1), i32::MIN);
    assert_eq!(Number::add(i32::MIN, -1), i32::MAX);
}

#[test]
fn i32_sub_wraps_at_both_ends() {
    assert_eq!(Number::sub(3i32, 4), -1);
    assert_eq!(Number::sub(i32::MIN, 1), i32::MAX);
    assert_eq!(Number::sub(i32::MAX, -1), i32::MIN);
}

#[test]
fn i32_mul_wraps() {
    assert_eq!(Number::mul(-6i32, 7), -42);
    assert_eq!(Number::mul(65536i32, 65536), 0);
    assert_eq!(Number::mul(65536i32, 32768), i32::MIN);
    assert_eq!(Number::mul(i32::MAX, 2), -2);
}

#[test]
fn i32_div_rounds_toward_zero() {
    assert_eq!(Number::div(7i32, 2), 3);
    assert_eq!(Number::div(-7i32, 2), -3);
    assert_eq!(Number::div(7i32, -2), -3);
    assert_eq!(Number::div(-7i32, -2), 3);
    assert_eq!(Number::div(0i32, 5), 0);
}

#[test]
fn i32_div_of_least_by_minus_one_wraps() {
    assert_eq!(Number::div(i32::MIN, -1), i32::MIN);
}

#[test]
fn i32_neg_wraps_at_least_value() {
    assert_eq!(SignedNumber::neg(5i32), -5);
    assert_eq!(SignedNumber::neg(0i32), 0);
    assert_eq!(SignedNumber::neg(i32::MIN), i32::MIN);
}

#[test]
fn u32_add_and_sub_wrap() {
    assert_eq!(Number::add(u32::MAX, 1), 0);
    assert_eq!(Number::add(u32::MAX, u32::MAX), u32::MAX - 1);
    assert_eq!(Number::sub(0u32, 1), u32::MAX);
    assert_eq!(Number::sub(9u32, 4), 5);
}

#[test]
fn u32_mul_wraps_and_div_is_exact() {
    assert_eq!(Number::mul(65536u32, 65536), 0);
    assert_eq!(Number::mul(65537u32, 65537), 131073);
    assert_eq!(Number::div(7u32, 2), 3);
    assert_eq!(Number::div(u32::MAX, 1), u32::MAX);
}

#[test]
fn scalar_order_follows_the_integers() {
    assert!(Number::lt(-1i32, 0));
    assert!(!Number::lt(0i32, 0));
    assert!(Number::le(0i32, 0));
    assert!(!Number::le(1i32, 0));
    assert!(Number::lt(0u32, u32::MAX));
    assert!(Number::le(u32::MAX, u32::MAX));
    assert!(!Number::lt(u32::MAX, 0));
}

#[test]
fn scalar_same_is_exact_equality() {
    assert!(true.same(true));
    assert!(!true.same(false));
    assert!(7i32.same(7));
    assert!(!7i32.same(-7));
    assert!(7u32.same(7));
    assert!(!7u32.same(8));
}
