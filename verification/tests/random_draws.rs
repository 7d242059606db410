use raytrs::fixed::ONE_RAW;
use raytrs::utils::{random, random_range};

#[test]
fn random_is_at_least_zero_and_below_one() {
    for _ in 0..1000 {
        let r = random();
        assert!(0 <= r.raw && r.raw < ONE_RAW);
    }
}

#[test]
fn random_takes_more_than_one_value() {
    let first = random();
    let mut differs = false;
    for _ in 0..200 {
        if random() != first {
            differs = true;
        }
    }
    assert!(differs);
}

#[test]
fn random_range_stays_in_the_range() {
    for _ in 0..1000 {
        let r = random_range(-3, 4);
        assert!(-3 <= r && r < 4);
    }
    assert_eq!(random_range(7, 8), 7);
}

#[test]
fn random_range_reaches_both_ends() {
    let mut low = false;
    let mut high = false;
    for _ in 0..2000 {
        let r = random_range(0, 3);
        if r == 0 {
            low = true;
        }
        if r == 2 {
            high = true;
        }
    }
    assert!(low && high);
}
