use circles::{random_in_range, saturating_random_in_range, walk_window, ColorParamConfig};

#[test]
fn random_in_range_stays_between_bounds() {
    for _ in 0..1000 {
        let v = random_in_range(-20, 30);
        assert!((-20..=30).contains(&v));
    }
}

#[test]
fn random_in_range_accepts_bounds_in_either_order() {
    for _ in 0..1000 {
        let v = random_in_range(30, -20);
        assert!((-20..=30).contains(&v));
    }
}

#[test]
fn random_in_range_of_a_single_value_returns_it() {
    assert_eq!(random_in_range(7, 7), 7);
}

#[test]
fn random_in_range_does_not_return_a_bound_every_time() {
    let mut seen_inner = false;
    for _ in 0..1000 {
        let v = random_in_range(0, 1000);
        if v != 0 && v != 1000 {
            seen_inner = true;
        }
    }
    assert!(seen_inner);
}

#[test]
fn saturating_step_stays_within_delta_and_bounds() {
    for _ in 0..1000 {
        let v = saturating_random_in_range(50, 5, 0, 100);
        assert!((45..=55).contains(&v));
        let w = saturating_random_in_range(2, 5, 0, 100);
        assert!((0..=7).contains(&w));
        let z = saturating_random_in_range(99, 5, 0, 100);
        assert!((94..=100).contains(&z));
    }
}

#[test]
fn saturating_step_brings_an_outside_value_back() {
    for _ in 0..1000 {
        let v = saturating_random_in_range(500, 10, 0, 100);
        assert!((90..=100).contains(&v));
        let w = saturating_random_in_range(-500, 10, 0, 100);
        assert!((0..=10).contains(&w));
    }
}

#[test]
fn saturating_step_with_zero_width_returns_the_single_value() {
    assert_eq!(saturating_random_in_range(3, 10, 4, 4), 4);
    assert_eq!(saturating_random_in_range(4, 0, 0, 100), 4);
}

#[test]
fn saturating_step_with_negative_delta_stays_put() {
    assert_eq!(saturating_random_in_range(40, -3, 0, 100), 40);
}

#[test]
fn sample_and_step_stay_in_configured_bounds() {
    let config = ColorParamConfig { max_delta: 300, min_value: 1000, max_value: 9000 };
    for _ in 0..1000 {
        let v = config.sample();
        assert!((1000..=9000).contains(&v));
        let w = config.step(v);
        assert!((1000..=9000).contains(&w));
        assert!((w - v).abs() <= 300);
    }
}

#[test]
fn step_handles_inverted_bounds() {
    let config = ColorParamConfig { max_delta: 50, min_value: 360, max_value: 0 };
    for _ in 0..1000 {
        let v = config.step(10);
        assert!((0..=60).contains(&v));
        let s = config.sample();
        assert!((0..=360).contains(&s));
    }
}

#[test]
fn walk_window_inside_the_bounds() {
    assert_eq!(walk_window(50, 5, 0, 100), (45, 55));
    assert_eq!(walk_window(2, 5, 0, 100), (0, 7));
    assert_eq!(walk_window(98, 5, 0, 100), (93, 100));
}

#[test]
fn walk_window_normalises_odd_inputs() {
    // current outside the bounds is first brought inside
    assert_eq!(walk_window(500, 10, 0, 100), (90, 100));
    assert_eq!(walk_window(-500, 10, 0, 100), (0, 10));
    // bounds given in the wrong order
    assert_eq!(walk_window(10, 50, 360, 0), (0, 60));
    // a negative delta counts as zero
    assert_eq!(walk_window(40, -3, 0, 100), (40, 40));
    // extremes do not overflow
    assert_eq!(walk_window(i64::MIN, i64::MAX, i64::MIN, i64::MAX), (i64::MIN, -1));
    assert_eq!(walk_window(i64::MAX, i64::MAX, i64::MIN, i64::MAX), (0, i64::MAX));
}
