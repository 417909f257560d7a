use character_controller::config::{ConfigError, ControllerConfig, SLOPE_ANGLE_LIMIT_MRAD, TUNING_LIMIT};

#[test]
fn accepts_the_reference_tuning() {
    let config: ControllerConfig = ControllerConfig::new(1250, 5000, 400, 524).unwrap();
    assert_eq!(config.max_speed, 1250);
    assert_eq!(config.acceleration, 5000);
    assert_eq!(config.jump_impulse, 400);
    assert_eq!(config.max_slope_angle_mrad, 524);
}

#[test]
fn rejects_non_positive_max_speed() {
    assert_eq!(
        ControllerConfig::new(0, 5000, 400, 524),
        Err(ConfigError::MaxSpeedOutOfRange)
    );
    assert_eq!(
        ControllerConfig::new(-1250, 5000, 400, 524),
        Err(ConfigError::MaxSpeedOutOfRange)
    );
}

#[test]
fn rejects_oversized_max_speed() {
    assert_eq!(
        ControllerConfig::new(TUNING_LIMIT + 1, 5000, 400, 524),
        Err(ConfigError::MaxSpeedOutOfRange)
    );
}

#[test]
fn rejects_non_positive_acceleration() {
    assert_eq!(
        ControllerConfig::new(1250, 0, 400, 524),
        Err(ConfigError::AccelerationOutOfRange)
    );
}

#[test]
fn rejects_non_positive_jump_impulse() {
    assert_eq!(
        ControllerConfig::new(1250, 5000, -7, 524),
        Err(ConfigError::JumpImpulseOutOfRange)
    );
}

#[test]
fn rejects_negative_slope_angle() {
    assert_eq!(
        ControllerConfig::new(1250, 5000, 400, -1),
        Err(ConfigError::SlopeAngleOutOfRange)
    );
}

#[test]
fn rejects_slope_angle_beyond_quarter_turn() {
    assert_eq!(
        ControllerConfig::new(1250, 5000, 400, SLOPE_ANGLE_LIMIT_MRAD + 1),
        Err(ConfigError::SlopeAngleOutOfRange)
    );
}

#[test]
fn reports_the_first_violation() {
    // Both the speed and the slope angle are bad; validation runs in
    // declaration order, so the speed is reported.
    assert_eq!(
        ControllerConfig::new(0, 5000, 400, -1),
        Err(ConfigError::MaxSpeedOutOfRange)
    );
}

#[test]
fn accepts_the_extreme_corners() {
    assert!(ControllerConfig::new(1, 1, 1, 0).is_ok());
    assert!(ControllerConfig::new(TUNING_LIMIT, TUNING_LIMIT, TUNING_LIMIT, SLOPE_ANGLE_LIMIT_MRAD).is_ok());
}
