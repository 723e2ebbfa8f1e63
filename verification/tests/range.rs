use pid::limit_range;

#[test]
fn limit_range_keeps_a_value_inside_the_range() {
    assert_eq!(limit_range(0, 10, 5), 5);
    assert_eq!(limit_range(-3, 3, 0), 0);
}

#[test]
fn limit_range_keeps_the_bounds_themselves() {
    assert_eq!(limit_range(0, 10, 0), 0);
    assert_eq!(limit_range(0, 10, 10), 10);
    assert_eq!(limit_range(7, 7, 7), 7);
}

#[test]
fn limit_range_caps_a_value_above_the_range() {
    assert_eq!(limit_range(0, 10, 11), 10);
    assert_eq!(limit_range(i32::MIN, 0, i32::MAX), 0);
}

#[test]
fn limit_range_caps_a_value_below_the_range() {
    assert_eq!(limit_range(0, 10, -1), 0);
    assert_eq!(limit_range(0, i32::MAX, i32::MIN), 0);
}

#[test]
fn limit_range_with_inverted_bounds_tests_the_upper_bound_first() {
    // min = 5 > max = 1: above max gives max, everything else is below min
    assert_eq!(limit_range(5, 1, 3), 1);
    assert_eq!(limit_range(5, 1, 9), 1);
    assert_eq!(limit_range(5, 1, 1), 5);
    assert_eq!(limit_range(5, 1, 0), 5);
}

#[test]
fn limit_range_works_on_other_ordered_types() {
    assert_eq!(limit_range(10u8, 20u8, 255u8), 20u8);
    assert_eq!(limit_range(-1i128, 1i128, i128::MIN), -1i128);
    assert_eq!(limit_range('b', 'y', 'a'), 'b');
    assert_eq!(limit_range(0.0f64, 1.0f64, 1.5f64), 1.0f64);
    assert_eq!(limit_range(0.0f64, 1.0f64, 0.25f64), 0.25f64);
}
