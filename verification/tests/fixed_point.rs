use lorenz::fixed::{fx_add, fx_div, fx_mul, fx_sub, SCALE};

const ONE: i64 = SCALE;

#[test]
fn add_is_exact_in_range() {
    assert_eq!(fx_add(ONE, 2 * ONE), 3 * ONE);
    assert_eq!(fx_add(-5 * ONE, 2 * ONE), -3 * ONE);
    assert_eq!(fx_add(0, 0), 0);
}

#[test]
fn sub_is_exact_in_range() {
    assert_eq!(fx_sub(3 * ONE, ONE), 2 * ONE);
    assert_eq!(fx_sub(ONE, 3 * ONE), -2 * ONE);
}

#[test]
fn add_saturates_at_the_extremes() {
    assert_eq!(fx_add(i64::MAX, 1), i64::MAX);
    assert_eq!(fx_add(i64::MIN, -1), i64::MIN);
    assert_eq!(fx_sub(i64::MIN, 1), i64::MIN);
    assert_eq!(fx_sub(i64::MAX, -1), i64::MAX);
}

#[test]
fn mul_is_exact_on_representable_products() {
    // 1.5 * 2.0 == 3.0
    assert_eq!(fx_mul(3 * ONE / 2, 2 * ONE), 3 * ONE);
    // (-1.5) * 2.0 == -3.0
    assert_eq!(fx_mul(-3 * ONE / 2, 2 * ONE), -3 * ONE);
    assert_eq!(fx_mul(10 * ONE, 0), 0);
    assert_eq!(fx_mul(0, -7 * ONE), 0);
}

#[test]
fn mul_truncates_toward_zero() {
    // The smallest positive units square to less than one unit: truncate to 0.
    assert_eq!(fx_mul(1, 1), 0);
    assert_eq!(fx_mul(-1, 1), 0);
    // -3 units times one half is -1.5 units: toward zero gives -1, not -2.
    assert_eq!(fx_mul(-3, ONE / 2), -1);
    assert_eq!(fx_mul(3, ONE / 2), 1);
}

#[test]
fn mul_saturates_at_the_extremes() {
    assert_eq!(fx_mul(i64::MAX, i64::MAX), i64::MAX);
    assert_eq!(fx_mul(i64::MAX, i64::MIN), i64::MIN);
    assert_eq!(fx_mul(i64::MIN, i64::MIN), i64::MAX);
    assert_eq!(fx_mul(1000000 * ONE, 1000000 * ONE), i64::MAX);
}

#[test]
fn div_truncates_toward_zero() {
    assert_eq!(fx_div(7, 2), 3);
    assert_eq!(fx_div(-7, 2), -3);
    assert_eq!(fx_div(-5, 6), 0);
    assert_eq!(fx_div(i64::MIN, 1), i64::MIN);
    assert_eq!(fx_div(i64::MIN, 2), -4611686018427387904);
}
