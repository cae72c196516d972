use pid_control::util::limit_range;

#[test]
fn limit_range_returns_max_above_the_range() {
    assert_eq!(limit_range(0i64, 10, 15), 10);
    assert_eq!(limit_range(-5i64, 5, i64::MAX), 5);
}

#[test]
fn limit_range_returns_min_below_the_range() {
    assert_eq!(limit_range(0i64, 10, -3), 0);
    assert_eq!(limit_range(-5i64, 5, i64::MIN), -5);
}

#[test]
fn limit_range_returns_a_value_inside_the_range_unchanged() {
    assert_eq!(limit_range(0i64, 10, 3), 3);
    assert_eq!(limit_range(0i64, 10, 0), 0);
    assert_eq!(limit_range(0i64, 10, 10), 10);
    assert_eq!(limit_range(7i64, 7, 7), 7);
}

#[test]
fn limit_range_result_lies_in_a_non_empty_range() {
    for value in -20i64..20 {
        let r = limit_range(-4i64, 9, value);
        assert!(-4 <= r && r <= 9);
        if -4 <= value && value <= 9 {
            assert_eq!(r, value);
        }
    }
}

#[test]
fn limit_range_twice_is_limit_range_once() {
    for value in -20i64..20 {
        let once = limit_range(-4i64, 9, value);
        assert_eq!(limit_range(-4i64, 9, once), once);
    }
}

#[test]
fn limit_range_with_reversed_bounds_tests_the_upper_bound_first() {
    // Above `max` the result is `max`; everything else lies below `min`.
    assert_eq!(limit_range(10i64, 0, 5), 0);
    assert_eq!(limit_range(10i64, 0, 20), 0);
    assert_eq!(limit_range(10i64, 0, -3), 10);
    assert_eq!(limit_range(10i64, 0, 0), 10);
    // Which is why saturating twice may differ from saturating once there.
    assert_eq!(limit_range(1i64, 0, 5), 0);
    assert_eq!(limit_range(1i64, 0, 0), 1);
}

#[test]
fn limit_range_works_on_other_ordered_types() {
    assert_eq!(limit_range(0u8, 10, 200), 10);
    assert_eq!(limit_range(-1i128, 1, -(1i128 << 100)), -1);
    assert_eq!(limit_range('b', 'y', 'z'), 'y');
    assert_eq!(limit_range("b", "y", "a"), "b");
}

#[test]
fn limit_range_works_on_floats() {
    assert_eq!(limit_range(-1.0f64, 1.0, 2.5), 1.0);
    assert_eq!(limit_range(-1.0f64, 1.0, -2.5), -1.0);
    assert_eq!(limit_range(-1.0f64, 1.0, 0.25), 0.25);
    assert_eq!(limit_range(f64::NEG_INFINITY, f64::INFINITY, 1e300), 1e300);
    assert_eq!(limit_range(-1.0f64, 1.0, f64::INFINITY), 1.0);
}

#[test]
fn limit_range_passes_an_unordered_value_through() {
    // NaN compares as neither above `max` nor below `min`.
    assert!(limit_range(-1.0f64, 1.0, f64::NAN).is_nan());
}
