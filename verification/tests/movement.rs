use character_controller::config::ControllerConfig;
use character_controller::locomotion::{new_horizontal_velocity, target_velocity};

const DT_60HZ_US: i64 = 16_666;
const DT_120HZ_US: i64 = 8_333;

fn reference_config() -> ControllerConfig {
    ControllerConfig::new(1250, 5000, 400, 524).unwrap()
}

#[test]
fn target_velocity_formula_is_exact() {
    let config: ControllerConfig = reference_config();
    // Full deflection: 1250 units/s, in micro-units/s.
    assert_eq!(target_velocity(1000, &config), 1_250_000_000);
    // Half deflection, negative.
    assert_eq!(target_velocity(-500, &config), -625_000_000);
    assert_eq!(target_velocity(0, &config), 0);
}

#[test]
fn one_grounded_tick_is_exactly_acceleration_times_dt() {
    let config: ControllerConfig = reference_config();
    // 5000 units/s^2 for 16666 us = 83_330_000 micro-units/s gained.
    let vx: i64 = new_horizontal_velocity(0, 1000, true, &config, DT_60HZ_US);
    assert_eq!(vx, 83_330_000);
}

#[test]
fn held_axis_converges_monotonically_and_never_overshoots() {
    let config: ControllerConfig = reference_config();
    let target: i64 = 1_250_000_000;
    let mut vx: i64 = 0;
    let mut previous_gap: i64 = target - vx;
    for _ in 0..40 {
        vx = new_horizontal_velocity(vx, 1000, true, &config, DT_60HZ_US);
        let gap: i64 = target - vx;
        assert!(gap >= 0, "overshot the target");
        assert!(gap <= previous_gap, "moved away from the target");
        previous_gap = gap;
    }
    assert_eq!(vx, target, "did not reach the target");
}

#[test]
fn blend_stops_exactly_on_the_target() {
    let config: ControllerConfig = reference_config();
    // One step short of the target: the clamp lands exactly on it.
    let vx: i64 = new_horizontal_velocity(1_249_999_999, 1000, true, &config, DT_60HZ_US);
    assert_eq!(vx, 1_250_000_000);
    // Already on target: stays.
    let vx: i64 = new_horizontal_velocity(1_250_000_000, 1000, true, &config, DT_60HZ_US);
    assert_eq!(vx, 1_250_000_000);
}

#[test]
fn neutral_axis_decelerates_toward_zero() {
    let config: ControllerConfig = reference_config();
    let vx: i64 = new_horizontal_velocity(100_000_000, 0, true, &config, DT_60HZ_US);
    assert_eq!(vx, 100_000_000 - 83_330_000);
    // Close to rest: stops exactly at zero, no oscillation past it.
    let vx: i64 = new_horizontal_velocity(50_000_000, 0, true, &config, DT_60HZ_US);
    assert_eq!(vx, 0);
}

#[test]
fn reversing_input_crosses_zero_without_jumping() {
    let config: ControllerConfig = reference_config();
    let vx: i64 = new_horizontal_velocity(60_000_000, -1000, true, &config, DT_60HZ_US);
    assert_eq!(vx, 60_000_000 - 83_330_000);
}

#[test]
fn airborne_control_is_a_quarter_of_grounded() {
    let config: ControllerConfig = reference_config();
    let grounded: i64 = new_horizontal_velocity(0, 1000, true, &config, DT_60HZ_US);
    let airborne: i64 = new_horizontal_velocity(0, 1000, false, &config, DT_60HZ_US);
    assert_eq!(grounded, 83_330_000);
    assert_eq!(airborne, 83_330_000 / 4);
    // Airborne with no input, built-up momentum carries on almost whole.
    let drifting: i64 = new_horizontal_velocity(1_250_000_000, 0, false, &config, DT_60HZ_US);
    assert_eq!(drifting, 1_250_000_000 - 83_330_000 / 4);
}

#[test]
fn tick_rate_does_not_change_the_trajectory() {
    let config: ControllerConfig = reference_config();
    // The same total time: n ticks at 60 Hz against 2n ticks at 120 Hz
    // (16666 us splits exactly into two 8333 us ticks).
    let mut at_60: i64 = 0;
    for _ in 0..30 {
        at_60 = new_horizontal_velocity(at_60, 1000, true, &config, DT_60HZ_US);
    }
    let mut at_120: i64 = 0;
    for _ in 0..60 {
        at_120 = new_horizontal_velocity(at_120, 1000, true, &config, DT_120HZ_US);
    }
    assert_eq!(at_60, at_120);
    assert_eq!(at_60, 1_250_000_000);

    // Also from a moving, partial-deflection start, before convergence.
    let mut at_60: i64 = -400_000_000;
    for _ in 0..5 {
        at_60 = new_horizontal_velocity(at_60, 700, true, &config, DT_60HZ_US);
    }
    let mut at_120: i64 = -400_000_000;
    for _ in 0..10 {
        at_120 = new_horizontal_velocity(at_120, 700, true, &config, DT_120HZ_US);
    }
    assert_eq!(at_60, at_120);
}
