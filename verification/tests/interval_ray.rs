use raytrs::fixed::{Fixed, MAX_RAW, ONE_RAW};
use raytrs::interval::Interval;
use raytrs::ray::Ray;
use raytrs::vec3::Vec3;

fn f(raw: i64) -> Fixed {
    Fixed::from_raw(raw)
}

fn v(x: i64, y: i64, z: i64) -> Vec3 {
    Vec3::new(f(x), f(y), f(z))
}

#[test]
fn new_interval_is_what_lies_ahead() {
    let i = Interval::new();
    assert_eq!(i.min.raw, 0);
    assert_eq!(i.max.raw, MAX_RAW);
}

#[test]
fn empty_interval_contains_nothing() {
    let i = Interval::empty();
    assert!(!i.contains(f(0)));
    assert!(!i.contains(f(MAX_RAW)));
    assert!(!i.contains(f(-MAX_RAW)));
    assert!(!i.surrounds(f(0)));
}

#[test]
fn universe_contains_every_result() {
    let i = Interval::universe();
    assert!(i.contains(f(0)));
    assert!(i.contains(f(MAX_RAW)));
    assert!(i.contains(f(-MAX_RAW)));
    assert!(i.surrounds(f(12345)));
    assert!(!i.surrounds(f(MAX_RAW)));
}

#[test]
fn contains_takes_the_bounds_and_surrounds_does_not() {
    let i = Interval::from_val(f(ONE_RAW), f(3 * ONE_RAW));
    assert!(i.contains(f(ONE_RAW)));
    assert!(i.contains(f(3 * ONE_RAW)));
    assert!(i.contains(f(2 * ONE_RAW)));
    assert!(!i.contains(f(ONE_RAW - 1)));
    assert!(!i.contains(f(3 * ONE_RAW + 1)));
    assert!(!i.surrounds(f(ONE_RAW)));
    assert!(!i.surrounds(f(3 * ONE_RAW)));
    assert!(i.surrounds(f(ONE_RAW + 1)));
    assert!(i.surrounds(f(3 * ONE_RAW - 1)));
}

#[test]
fn size_is_max_minus_min() {
    assert_eq!(Interval::from_val(f(ONE_RAW), f(3 * ONE_RAW)).size(), f(2 * ONE_RAW));
    assert_eq!(Interval::universe().size().raw, MAX_RAW);
    assert_eq!(Interval::empty().size().raw, -MAX_RAW);
}

#[test]
fn clamp_moves_to_the_nearest_bound() {
    let i = Interval::from_val(f(ONE_RAW), f(3 * ONE_RAW));
    assert_eq!(i.clamp(f(0)), f(ONE_RAW));
    assert_eq!(i.clamp(f(5 * ONE_RAW)), f(3 * ONE_RAW));
    assert_eq!(i.clamp(f(2 * ONE_RAW)), f(2 * ONE_RAW));
}

#[test]
fn ray_at_is_origin_plus_t_direction() {
    let r = Ray::new(v(ONE_RAW, 0, 0), v(0, 2 * ONE_RAW, -ONE_RAW));
    assert_eq!(*r.origin(), v(ONE_RAW, 0, 0));
    assert_eq!(*r.direction(), v(0, 2 * ONE_RAW, -ONE_RAW));
    assert_eq!(r.at(f(0)), v(ONE_RAW, 0, 0));
    assert_eq!(r.at(f(ONE_RAW / 2)), v(ONE_RAW, ONE_RAW, -ONE_RAW / 2));
    assert_eq!(r.at(f(-3 * ONE_RAW)), v(ONE_RAW, -6 * ONE_RAW, 3 * ONE_RAW));
}
