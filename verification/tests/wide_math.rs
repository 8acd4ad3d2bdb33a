use finance::wide::{add, mulw, require, sub};

#[test]
fn products_are_exact() {
    let w = mulw(u128::MAX, u128::MAX);
    assert_eq!(w.hi, u128::MAX - 1);
    assert_eq!(w.lo, 1);
    let w = mulw(6, 7);
    assert_eq!((w.hi, w.lo), (0, 42));
}

#[test]
fn quotients_round_as_documented() {
    assert_eq!(mulw(7, 3).div(2), Some(10));
    assert_eq!(mulw(7, 3).div(0), None);
    assert_eq!(mulw(u128::MAX, u128::MAX).div(u128::MAX), Some(u128::MAX));
    assert_eq!(mulw(u128::MAX, u128::MAX).div(1), None);
    assert_eq!(mulw(u128::MAX, u128::MAX).div_rate(1), Some(1));
    assert_eq!(mulw(8, 3).ceil_up(2), Some(12));
    assert_eq!(mulw(u128::MAX, 2).ceil_up(2), Some(u128::MAX));
    assert_eq!(mulw(u128::MAX, 3).ceil_up(3), Some(u128::MAX));
    assert_eq!(mulw(u128::MAX, 2).ceil_up(0), None);
    assert_eq!(mulw(u128::MAX, u128::MAX - 1).ceil_up(u128::MAX - 1), Some(u128::MAX));
    assert_eq!(mulw(u128::MAX, u128::MAX).ceil_up(u128::MAX - 1), None);
    assert_eq!(mulw(7, 3).ceil_rate(2), Some(11));
    assert_eq!(mulw(7, 3).ceil_rate(0), None);
    assert_eq!(mulw(7, 3).ceil_up(2), Some(11));
    assert_eq!(mulw(u128::MAX, 2).ceil_up(1), None);
}

#[test]
fn rounding_up_carries_with_wrapping_at_the_top() {
    let half = 1u128 << 127;
    assert_eq!(mulw(u128::MAX - 1, half + 1).div(half), Some(u128::MAX));
    assert_eq!(mulw(u128::MAX - 1, half + 1).ceil_up(half), Some(0));
    assert_eq!(mulw(u128::MAX - 1, half + 1).ceil_rate(half), Some(0));
    assert_eq!(mulw(u128::MAX - 1, half + 1).ceil_fit(half), None);
    assert_eq!(mulw(7, 3).ceil_fit(2), Some(11));
    assert_eq!(mulw(u128::MAX, 3).ceil_fit(3), Some(u128::MAX));
    assert_eq!(mulw(7, 3).ceil_fit(0), None);
}

#[test]
fn fractions_scale_down() {
    let half = 1u128 << 127;
    assert_eq!(mulw(10, half).scale(), 5);
    assert_eq!(mulw(10, half).scale_up(), 6);
    assert_eq!(mulw(0, half).scale_up(), 0);
    assert_eq!(mulw(u128::MAX, u128::MAX).scale_up(), u128::MAX);
}

#[test]
fn wrapping_helpers_wrap() {
    assert_eq!(add(u128::MAX, 2), 1);
    assert_eq!(sub(1, 2), u128::MAX);
    assert_eq!(add(2, 3), 5);
    assert_eq!(require(true, 7u8), Ok(()));
    assert_eq!(require(false, 7u8), Err(7));
}
