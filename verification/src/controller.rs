//! The character controller and its physics bridge.
//!
//! `CharacterController` owns the immutable tuning configuration, the jump
//! phase, and the animation-facing readbacks (facing direction, grounded
//! flag). Once per simulation tick the caller reads the rigid body's
//! velocity and the solver's resolved contact list, calls `tick`, and
//! writes the returned `VelocityCommand` into the body exactly once —
//! writing it more than once per tick would double-apply the blend and
//! corrupt momentum. The external solver then integrates position and
//! resolves collisions; the contacts it produces feed the next tick's
//! ground sensing (the designed one-tick sensor lag).

use vstd::prelude::*;
use crate::config::{ConfigError, ControllerConfig, SLOPE_ANGLE_LIMIT_MRAD, TUNING_LIMIT};
use crate::ground::{classify_spec, classify_contacts, ContactState};
use crate::intent::MovementIntent;
use crate::jump::{jump_step, next_jump_state, next_vertical_velocity, JumpState};
use crate::locomotion::{
    accel_step, approach, new_horizontal_velocity, target_velocity_spec, MAX_TICK_US,
    VELOCITY_BOUND,
};

verus! {

/// The one velocity write of a tick, in micro-units per second: handed to
/// the rigid body after the controller has run, then the solver integrates.
#[derive(Clone, Copy, Debug, PartialEq, Eq, Structural)]
pub struct VelocityCommand {
    /// Horizontal velocity to set on the body.
    pub vx_micro: i64,
    /// Vertical velocity to set on the body.
    pub vy_micro: i64,
}

/// Where the character faces after a tick: the last non-zero move input
/// decides; a neutral axis keeps the previous facing.
pub open spec fn next_facing(facing_right: bool, horizontal_axis: int) -> bool {
    if horizontal_axis > 0 {
        true
    } else if horizontal_axis < 0 {
        false
    } else {
        facing_right
    }
}

/// A per-character locomotion context: tuning configuration fixed at spawn,
/// the jump phase, and the readbacks exposed for animation-state selection.
#[derive(Clone, Copy, Debug, PartialEq, Eq, Structural)]
pub struct CharacterController {
    /// Immutable movement tuning, never changed after spawn.
    pub config: ControllerConfig,
    /// Current jump phase.
    pub jump_state: JumpState,
    /// True while the character faces right (flips on non-zero move input).
    pub facing_right: bool,
    /// The contact classification of the last tick: true when on walkable
    /// ground.
    pub grounded: bool,
}

impl CharacterController {
    /// The configuration is validated and the jump clock is inside its
    /// window.
    pub open spec fn wf(self) -> bool {
        &&& self.config.wf()
        &&& self.jump_state.wf()
    }

    /// Spawns a controller with a validated configuration. The character
    /// starts falling and facing right: ground is only believed once the
    /// sensor reports it.
    pub fn new(config: ControllerConfig) -> (r: CharacterController)
        requires
            config.wf(),
        ensures
            r == (CharacterController {
                config,
                jump_state: JumpState::Falling,
                facing_right: true,
                grounded: false,
            }),
            r.wf(),
    {
        CharacterController {
            config,
            jump_state: JumpState::Falling,
            facing_right: true,
            grounded: false,
        }
    }

    /// Spawns a controller straight from the four tuning values — maximum
    /// speed, acceleration, jump impulse, maximum walkable slope angle, in
    /// that order — validating them as `ControllerConfig::new` does and
    /// reporting the same error on the same inputs.
    pub fn with_movement(
        max_speed: i64,
        acceleration: i64,
        jump_impulse: i64,
        max_slope_angle_mrad: i64,
    ) -> (r: Result<CharacterController, ConfigError>)
        ensures
            ControllerConfig::new_spec_ok(
                max_speed,
                acceleration,
                jump_impulse,
                max_slope_angle_mrad,
            ) ==> r == Ok::<CharacterController, ConfigError>(CharacterController {
                config: ControllerConfig {
                    max_speed,
                    acceleration,
                    jump_impulse,
                    max_slope_angle_mrad,
                },
                jump_state: JumpState::Falling,
                facing_right: true,
                grounded: false,
            }),
            r is Ok <==> ControllerConfig::new_spec_ok(
                max_speed,
                acceleration,
                jump_impulse,
                max_slope_angle_mrad,
            ),
            r is Ok ==> r->Ok_0.wf(),
            !(1 <= max_speed <= TUNING_LIMIT) ==> r == Err::<CharacterController, ConfigError>(
                ConfigError::MaxSpeedOutOfRange,
            ),
            1 <= max_speed <= TUNING_LIMIT && !(1 <= acceleration <= TUNING_LIMIT) ==> r == Err::<
                CharacterController,
                ConfigError,
            >(ConfigError::AccelerationOutOfRange),
            1 <= max_speed <= TUNING_LIMIT && 1 <= acceleration <= TUNING_LIMIT && !(1
                <= jump_impulse <= TUNING_LIMIT) ==> r == Err::<CharacterController, ConfigError>(
                ConfigError::JumpImpulseOutOfRange,
            ),
            1 <= max_speed <= TUNING_LIMIT && 1 <= acceleration <= TUNING_LIMIT && 1 <= jump_impulse
                <= TUNING_LIMIT && !(0 <= max_slope_angle_mrad <= SLOPE_ANGLE_LIMIT_MRAD) ==> r
                == Err::<CharacterController, ConfigError>(ConfigError::SlopeAngleOutOfRange),
    {
        match ControllerConfig::new(max_speed, acceleration, jump_impulse, max_slope_angle_mrad) {
            Ok(config) => Ok(CharacterController::new(config)),
            Err(e) => Err(e),
        }
    }

    /// The grounded flag read back by animation and scene code.
    pub fn is_grounded(&self) -> (r: bool)
        ensures
            r == self.grounded,
    {
        self.grounded
    }

    /// The facing direction read back by animation and scene code.
    pub fn is_facing_right(&self) -> (r: bool)
        ensures
            r == self.facing_right,
    {
        self.facing_right
    }

    /// One full controller tick, run between the input snapshot and the
    /// solver's integration step.
    ///
    /// Inputs are the tick's resolved intent, the contact list the solver
    /// produced last tick (each contact as its normal's angle from
    /// vertical, in milliradians), the body's current velocity read back
    /// from the solver, and the tick duration. The pipeline runs in order:
    /// ground sensing, horizontal locomotion, jump machine; the returned
    /// command is the tick's single velocity write.
    pub fn tick(
        &mut self,
        intent: MovementIntent,
        contact_angles: &Vec<i64>,
        current_vx: i64,
        current_vy: i64,
        dt_us: i64,
    ) -> (cmd: VelocityCommand)
        requires
            old(self).wf(),
            intent.wf(),
            -VELOCITY_BOUND <= current_vx <= VELOCITY_BOUND,
            -VELOCITY_BOUND <= current_vy <= VELOCITY_BOUND,
            1 <= dt_us <= MAX_TICK_US,
        ensures
            final(self).wf(),
            final(self).config == old(self).config,
            ({
                let contact = classify_spec(
                    contact_angles@,
                    old(self).config.max_slope_angle_mrad as int,
                );
                &&& cmd.vx_micro == approach(
                    current_vx as int,
                    target_velocity_spec(
                        intent.horizontal_axis as int,
                        old(self).config.max_speed as int,
                    ),
                    accel_step(
                        old(self).config.acceleration as int,
                        dt_us as int,
                        contact.is_grounded(),
                    ),
                )
                &&& cmd.vy_micro == next_vertical_velocity(
                    old(self).jump_state,
                    intent,
                    contact.is_grounded(),
                    current_vy as int,
                    old(self).config.jump_impulse as int,
                )
                &&& final(self).jump_state == next_jump_state(
                    old(self).jump_state,
                    intent,
                    contact.is_grounded(),
                    current_vy as int,
                    dt_us as int,
                )
                &&& final(self).grounded == contact.is_grounded()
                &&& final(self).facing_right == next_facing(
                    old(self).facing_right,
                    intent.horizontal_axis as int,
                )
            }),
            -VELOCITY_BOUND <= cmd.vx_micro <= VELOCITY_BOUND,
            -VELOCITY_BOUND <= cmd.vy_micro <= VELOCITY_BOUND,
    {
        let contact: ContactState = classify_contacts(contact_angles, &self.config);
        let grounded_now: bool = contact.grounded();
        let vx: i64 = new_horizontal_velocity(
            current_vx,
            intent.horizontal_axis,
            grounded_now,
            &self.config,
            dt_us,
        );
        let (next_state, vy): (JumpState, i64) = jump_step(
            self.jump_state,
            intent,
            contact,
            current_vy,
            &self.config,
            dt_us,
        );
        self.jump_state = next_state;
        self.grounded = grounded_now;
        if intent.horizontal_axis > 0 {
            self.facing_right = true;
        } else if intent.horizontal_axis < 0 {
            self.facing_right = false;
        }
        VelocityCommand { vx_micro: vx, vy_micro: vy }
    }
}

} // verus!
