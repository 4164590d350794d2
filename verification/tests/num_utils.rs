//! Tests of the numeric utilities.

use combustion::num_utils::{max, min, min_max, round_multiple, ClampExt};

#[test]
fn min_picks_the_smaller_value() {
    assert_eq!(min(1, 2), 1);
    assert_eq!(min(2, 1), 1);
    assert_eq!(min(5, 5), 5);
    assert_eq!(min(1.5f32, 2.5f32), 1.5f32);
}

#[test]
fn max_picks_the_larger_value() {
    assert_eq!(max(1, 2), 2);
    assert_eq!(max(2, 1), 2);
    assert_eq!(max(5, 5), 5);
    assert_eq!(max(1.5f64, 2.5f64), 2.5f64);
}

#[test]
fn min_max_orders_its_arguments() {
    assert_eq!(min_max(1, 2), (1, 2));
    assert_eq!(min_max(2, 1), (1, 2));
    assert_eq!(min_max(3, 3), (3, 3));
}

#[test]
fn clamp_bounds_the_value() {
    assert_eq!(ClampExt::clamp(15u32, 0, 5), 5);
    assert_eq!(ClampExt::clamp(3u32, 0, 5), 3);
    assert_eq!(ClampExt::clamp(2u32, 3, 5), 3);
    assert!(3.14f32.clamp(0.0, 1.0) < 2.0);
    assert!(0.4f32.clamp(1.5, 3.0) > 1.0);
}

#[test]
fn round_multiple_rounds_up_to_the_next_multiple() {
    assert_eq!(round_multiple(43, 5), 45);
    assert_eq!(round_multiple(45, 5), 45);
    assert_eq!(round_multiple(0, 7), 0);
    assert_eq!(round_multiple(1, 1), 1);
}
