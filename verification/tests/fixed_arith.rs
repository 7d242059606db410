use raytrs::fixed::{Fixed, MAX_RAW, ONE_RAW};

fn fx(num: i64, den: i64) -> Fixed {
    Fixed::from_raw(num * ONE_RAW / den)
}

#[test]
fn add_and_sub_are_exact_inside_the_range() {
    assert_eq!(fx(3, 2).add(fx(1, 4)), fx(7, 4));
    assert_eq!(fx(3, 2).sub(fx(2, 1)), fx(-1, 2));
}

#[test]
fn add_saturates_at_both_bounds() {
    let top = Fixed::from_raw(MAX_RAW);
    assert_eq!(top.add(Fixed::one()).raw, MAX_RAW);
    assert_eq!(top.neg().sub(Fixed::one()).raw, -MAX_RAW);
    assert_eq!(Fixed::from_raw(i64::MIN).neg().raw, MAX_RAW);
}

#[test]
fn mul_rounds_toward_zero() {
    assert_eq!(fx(3, 2).mul(fx(1, 2)), fx(3, 4));
    assert_eq!(Fixed::from_raw(1).mul(Fixed::from_raw(1)).raw, 0);
    assert_eq!(Fixed::from_raw(-1).mul(Fixed::from_raw(1)).raw, 0);
    assert_eq!(Fixed::from_raw(-3).mul(fx(1, 2)).raw, -1);
    assert_eq!(Fixed::from_raw(3).mul(fx(1, 2)).raw, 1);
}

#[test]
fn mul_saturates() {
    let big = Fixed::from_raw(MAX_RAW);
    assert_eq!(big.mul(big).raw, MAX_RAW);
    assert_eq!(big.mul(big.neg()).raw, -MAX_RAW);
}

#[test]
fn div_rounds_toward_zero() {
    assert_eq!(Fixed::from_int(1).div(Fixed::from_int(3)).raw, 21845);
    assert_eq!(Fixed::from_int(-1).div(Fixed::from_int(3)).raw, -21845);
    assert_eq!(Fixed::from_int(1).div(Fixed::from_int(-3)).raw, -21845);
    assert_eq!(Fixed::from_int(7).div(Fixed::from_int(2)), fx(7, 2));
}

#[test]
fn div_by_zero_gives_the_bound_of_the_sign() {
    assert_eq!(Fixed::one().div(Fixed::zero()).raw, MAX_RAW);
    assert_eq!(Fixed::one().neg().div(Fixed::zero()).raw, -MAX_RAW);
    assert_eq!(Fixed::zero().div(Fixed::zero()).raw, 0);
}

#[test]
fn sqrt_rounds_down() {
    assert_eq!(Fixed::from_int(4).sqrt(), Fixed::from_int(2));
    assert_eq!(Fixed::from_int(2).sqrt().raw, 92681);
    assert_eq!(fx(1, 4).sqrt(), fx(1, 2));
    assert_eq!(Fixed::zero().sqrt().raw, 0);
    assert_eq!(Fixed::from_int(-4).sqrt().raw, 0);
    assert_eq!(Fixed::from_raw(MAX_RAW).sqrt().raw, 777472127993);
}

#[test]
fn trunc_drops_the_fraction() {
    assert_eq!(fx(7, 2).trunc(), 3);
    assert_eq!(fx(-7, 2).trunc(), -3);
}

#[test]
fn order_and_extremes() {
    assert!(fx(1, 2).lt(Fixed::one()));
    assert!(!Fixed::one().lt(Fixed::one()));
    assert!(Fixed::one().le(Fixed::one()));
    assert_eq!(fx(1, 2).min(Fixed::one()), fx(1, 2));
    assert_eq!(fx(1, 2).max(Fixed::one()), Fixed::one());
    assert_eq!(fx(-1, 2).abs(), fx(1, 2));
}
