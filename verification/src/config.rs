//! Controller tuning configuration.
//!
//! The complete public tuning surface of the controller is four values, fixed
//! at spawn time: maximum horizontal speed, horizontal acceleration, jump
//! impulse, and the steepest walkable slope angle. Construction validates the
//! values and reports a configuration error instead of silently clamping.

use vstd::prelude::*;

verus! {

/// Upper bound accepted for `max_speed`, `acceleration` and `jump_impulse`
/// (world units per second, respectively per second squared). Keeps every
/// per-tick product comfortably inside `i64`.
pub const TUNING_LIMIT: i64 = 1_000_000;

/// Upper bound accepted for `max_slope_angle_mrad`: a quarter turn, in
/// milliradians. A surface steeper than vertical is not a floor.
pub const SLOPE_ANGLE_LIMIT_MRAD: i64 = 1_570;

/// Why a configuration was rejected.
#[derive(Clone, Copy, Debug, PartialEq, Eq, Structural)]
pub enum ConfigError {
    /// `max_speed` was non-positive or above `TUNING_LIMIT`.
    MaxSpeedOutOfRange,
    /// `acceleration` was non-positive or above `TUNING_LIMIT`.
    AccelerationOutOfRange,
    /// `jump_impulse` was non-positive or above `TUNING_LIMIT`.
    JumpImpulseOutOfRange,
    /// `max_slope_angle_mrad` was negative or above `SLOPE_ANGLE_LIMIT_MRAD`.
    SlopeAngleOutOfRange,
}

/// Immutable per-entity movement tuning, created once at spawn.
#[derive(Clone, Copy, Debug, PartialEq, Eq, Structural)]
pub struct ControllerConfig {
    /// Cap on horizontal speed, in world units per second.
    pub max_speed: i64,
    /// Horizontal acceleration toward the target speed, in units per second
    /// per second.
    pub acceleration: i64,
    /// Upward speed set at jump initiation, in units per second.
    pub jump_impulse: i64,
    /// Steepest surface still classified as walkable ground, as the contact
    /// normal's angle from vertical, in milliradians.
    pub max_slope_angle_mrad: i64,
}

impl ControllerConfig {
    /// All fields inside the validated ranges.
    pub open spec fn wf(self) -> bool {
        &&& 1 <= self.max_speed <= TUNING_LIMIT
        &&& 1 <= self.acceleration <= TUNING_LIMIT
        &&& 1 <= self.jump_impulse <= TUNING_LIMIT
        &&& 0 <= self.max_slope_angle_mrad <= SLOPE_ANGLE_LIMIT_MRAD
    }

    /// The condition under which the four tuning values are accepted.
    pub open spec fn new_spec_ok(
        max_speed: i64,
        acceleration: i64,
        jump_impulse: i64,
        max_slope_angle_mrad: i64,
    ) -> bool {
        &&& 1 <= max_speed <= TUNING_LIMIT
        &&& 1 <= acceleration <= TUNING_LIMIT
        &&& 1 <= jump_impulse <= TUNING_LIMIT
        &&& 0 <= max_slope_angle_mrad <= SLOPE_ANGLE_LIMIT_MRAD
    }

    /// Validates the four tuning values, in the order they are declared, and
    /// returns the configuration or the first violation found.
    pub fn new(
        max_speed: i64,
        acceleration: i64,
        jump_impulse: i64,
        max_slope_angle_mrad: i64,
    ) -> (r: Result<ControllerConfig, ConfigError>)
        ensures
            r is Ok <==> ControllerConfig::new_spec_ok(
                max_speed,
                acceleration,
                jump_impulse,
                max_slope_angle_mrad,
            ),
            r is Ok ==> r == Ok::<ControllerConfig, ConfigError>(ControllerConfig {
                max_speed,
                acceleration,
                jump_impulse,
                max_slope_angle_mrad,
            }),
            r is Ok ==> r->Ok_0.wf(),
            !(1 <= max_speed <= TUNING_LIMIT) ==> r == Err::<ControllerConfig, ConfigError>(
                ConfigError::MaxSpeedOutOfRange,
            ),
            1 <= max_speed <= TUNING_LIMIT && !(1 <= acceleration <= TUNING_LIMIT) ==> r == Err::<
                ControllerConfig,
                ConfigError,
            >(ConfigError::AccelerationOutOfRange),
            1 <= max_speed <= TUNING_LIMIT && 1 <= acceleration <= TUNING_LIMIT && !(1
                <= jump_impulse <= TUNING_LIMIT) ==> r == Err::<ControllerConfig, ConfigError>(
                ConfigError::JumpImpulseOutOfRange,
            ),
            1 <= max_speed <= TUNING_LIMIT && 1 <= acceleration <= TUNING_LIMIT && 1 <= jump_impulse
                <= TUNING_LIMIT && !(0 <= max_slope_angle_mrad <= SLOPE_ANGLE_LIMIT_MRAD) ==> r
                == Err::<ControllerConfig, ConfigError>(ConfigError::SlopeAngleOutOfRange),
    {
        if max_speed < 1 || max_speed > TUNING_LIMIT {
            Err(ConfigError::MaxSpeedOutOfRange)
        } else if acceleration < 1 || acceleration > TUNING_LIMIT {
            Err(ConfigError::AccelerationOutOfRange)
        } else if jump_impulse < 1 || jump_impulse > TUNING_LIMIT {
            Err(ConfigError::JumpImpulseOutOfRange)
        } else if max_slope_angle_mrad < 0 || max_slope_angle_mrad > SLOPE_ANGLE_LIMIT_MRAD {
            Err(ConfigError::SlopeAngleOutOfRange)
        } else {
            Ok(ControllerConfig { max_speed, acceleration, jump_impulse, max_slope_angle_mrad })
        }
    }
}

} // verus!
