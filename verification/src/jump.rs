//! Jump state machine.
//!
//! The controller cycles `Grounded -> Jumping -> Falling -> Grounded`. A
//! jump starts only from walkable ground and sets the vertical velocity
//! from the configured impulse. Releasing the jump button during ascent
//! cuts the vertical velocity, ending the ascent early (variable jump
//! height); otherwise the ascent ends when a fixed window expires. Landing
//! is applied before the tick's jump input is evaluated, so a press on the
//! landing tick starts a fresh jump, while a press in the air is simply
//! dropped — no coyote time and no jump buffering are implemented; an early
//! press one tick before landing is deliberately discarded.
//!
//! A tick is pure: next state and next vertical velocity are functions of
//! the previous state, the tick's intent, the sensed contact state, the
//! body's vertical velocity, and the tick duration. Horizontal velocity is
//! never touched here.

use vstd::prelude::*;
use crate::config::ControllerConfig;
use crate::ground::ContactState;
use crate::intent::MovementIntent;
use crate::locomotion::{MAX_TICK_US, MICRO_PER_UNIT, VELOCITY_BOUND};

verus! {

/// Length of the fixed ascent window, in microseconds: a jump whose button
/// is held stops ascending (becomes `Falling`) once its elapsed time
/// reaches this.
pub const MAX_ASCENT_US: i64 = 300_000;

/// Divisor applied to an upward vertical velocity on early release: the
/// remaining ascent is cut to half its speed.
pub const RELEASE_CUT_DIVISOR: i64 = 2;

/// The jump phase attached to a controller entity, advanced once per tick.
#[derive(Clone, Copy, Debug, PartialEq, Eq, Structural)]
pub enum JumpState {
    /// Standing on walkable ground; a jump may start.
    Grounded,
    /// Ascending under a held jump, with the time spent ascending so far.
    Jumping {
        /// Microseconds since the jump started, always below
        /// `MAX_ASCENT_US`.
        elapsed_us: i64,
    },
    /// Airborne and no longer ascending under jump control.
    Falling,
}

impl JumpState {
    /// The ascent clock stays inside its window.
    pub open spec fn wf(self) -> bool {
        match self {
            JumpState::Jumping { elapsed_us } => 0 <= elapsed_us < MAX_ASCENT_US,
            _ => true,
        }
    }
}

/// The vertical velocity set at jump initiation, in micro-units per
/// second.
pub open spec fn impulse_velocity(jump_impulse: int) -> int {
    jump_impulse * MICRO_PER_UNIT
}

/// The vertical velocity after an early release: an ascent is cut to half
/// its speed; a velocity already downward is left alone.
pub open spec fn cut_velocity(vy: int) -> int {
    if vy > 0 {
        vy / (RELEASE_CUT_DIVISOR as int)
    } else {
        vy
    }
}

/// Landing resolution, applied before the tick's input is looked at: a
/// character on walkable ground that is not still moving upward is
/// grounded, whatever phase it was in.
pub open spec fn after_landing(state: JumpState, grounded_now: bool, vy: int) -> JumpState {
    if grounded_now && vy <= 0 {
        JumpState::Grounded
    } else {
        state
    }
}

/// The jump phase after one tick. Landing is resolved first; then a press
/// on walkable ground starts a jump, walking off ground starts falling, an
/// ascent continues while the button is held and the window lasts, and
/// ends — to `Falling` — on early release or expiry.
pub open spec fn next_jump_state(
    state: JumpState,
    intent: MovementIntent,
    grounded_now: bool,
    vy: int,
    dt_us: int,
) -> JumpState {
    match after_landing(state, grounded_now, vy) {
        JumpState::Grounded => if grounded_now && intent.jump_pressed {
            JumpState::Jumping { elapsed_us: 0 }
        } else if !grounded_now {
            JumpState::Falling
        } else {
            JumpState::Grounded
        },
        JumpState::Jumping { elapsed_us } => if !intent.jump_held {
            JumpState::Falling
        } else if elapsed_us + dt_us >= MAX_ASCENT_US {
            JumpState::Falling
        } else {
            JumpState::Jumping { elapsed_us: (elapsed_us + dt_us) as i64 }
        },
        JumpState::Falling => JumpState::Falling,
    }
}

/// The vertical velocity after one tick of the jump machine: set to the
/// impulse when a jump starts, cut on early release, and otherwise handed
/// back to the solver untouched.
pub open spec fn next_vertical_velocity(
    state: JumpState,
    intent: MovementIntent,
    grounded_now: bool,
    vy: int,
    jump_impulse: int,
) -> int {
    match after_landing(state, grounded_now, vy) {
        JumpState::Grounded => if grounded_now && intent.jump_pressed {
            impulse_velocity(jump_impulse)
        } else {
            vy
        },
        JumpState::Jumping { elapsed_us } => if !intent.jump_held {
            cut_velocity(vy)
        } else {
            vy
        },
        JumpState::Falling => vy,
    }
}

/// One tick of the jump state machine: the next jump phase and the
/// vertical velocity to hand to the physics bridge. Pure in all inputs;
/// horizontal velocity is not touched.
pub fn jump_step(
    state: JumpState,
    intent: MovementIntent,
    contact: ContactState,
    current_vy: i64,
    config: &ControllerConfig,
    dt_us: i64,
) -> (r: (JumpState, i64))
    requires
        state.wf(),
        config.wf(),
        -VELOCITY_BOUND <= current_vy <= VELOCITY_BOUND,
        1 <= dt_us <= MAX_TICK_US,
    ensures
        r.0 == next_jump_state(state, intent, contact.is_grounded(), current_vy as int, dt_us as int),
        r.1 == next_vertical_velocity(
            state,
            intent,
            contact.is_grounded(),
            current_vy as int,
            config.jump_impulse as int,
        ),
        r.0.wf(),
        -VELOCITY_BOUND <= r.1 <= VELOCITY_BOUND,
{
    let grounded_now: bool = contact.grounded();
    let landed: JumpState = if grounded_now && current_vy <= 0 {
        JumpState::Grounded
    } else {
        state
    };
    match landed {
        JumpState::Grounded => {
            if grounded_now && intent.jump_pressed {
                (JumpState::Jumping { elapsed_us: 0 }, config.jump_impulse * MICRO_PER_UNIT)
            } else if !grounded_now {
                (JumpState::Falling, current_vy)
            } else {
                (JumpState::Grounded, current_vy)
            }
        },
        JumpState::Jumping { elapsed_us } => {
            if !intent.jump_held {
                let cut: i64 = if current_vy > 0 {
                    current_vy / RELEASE_CUT_DIVISOR
                } else {
                    current_vy
                };
                (JumpState::Falling, cut)
            } else if elapsed_us + dt_us >= MAX_ASCENT_US {
                (JumpState::Falling, current_vy)
            } else {
                (JumpState::Jumping { elapsed_us: elapsed_us + dt_us }, current_vy)
            }
        },
        JumpState::Falling => (JumpState::Falling, current_vy),
    }
}

/// While the contact state is airborne, jump input is dropped: no jump is
/// ever initiated (a tick can only end in `Jumping` if it began there), and
/// a character that was not mid-ascent just keeps falling with its vertical
/// velocity untouched, whatever the input says.
pub proof fn lemma_airborne_jump_dropped(
    state: JumpState,
    intent: MovementIntent,
    vy: int,
    dt_us: int,
    jump_impulse: int,
)
    ensures
        next_jump_state(state, intent, false, vy, dt_us) is Jumping ==> state is Jumping,
        !(state is Jumping) ==> next_jump_state(state, intent, false, vy, dt_us) is Falling,
        !(state is Jumping) ==> next_vertical_velocity(state, intent, false, vy, jump_impulse)
            == vy,
{
}

/// Variable jump height: for identical ascent conditions, releasing the
/// jump button ends the ascent at a strictly lower speed than holding it —
/// and since ballistic apex height grows with the square of the upward
/// speed (`v * v / (2 * g)` above the release point), the early release
/// reaches a strictly lower apex.
pub proof fn lemma_variable_jump_height(
    state: JumpState,
    hold: MovementIntent,
    release: MovementIntent,
    vy: int,
    dt_us: int,
    jump_impulse: int,
)
    requires
        state matches JumpState::Jumping { elapsed_us } && elapsed_us + dt_us < MAX_ASCENT_US,
        hold.jump_held,
        !release.jump_held,
        vy >= RELEASE_CUT_DIVISOR,
    ensures
        next_jump_state(state, hold, false, vy, dt_us) is Jumping,
        next_jump_state(state, release, false, vy, dt_us) is Falling,
        next_vertical_velocity(state, hold, false, vy, jump_impulse) == vy,
        0 < next_vertical_velocity(state, release, false, vy, jump_impulse) < vy,
        next_vertical_velocity(state, release, false, vy, jump_impulse) * next_vertical_velocity(
            state,
            release,
            false,
            vy,
            jump_impulse,
        ) < vy * vy,
{
    let cut = next_vertical_velocity(state, release, false, vy, jump_impulse);
    assert(0 < cut < vy);
    assert(cut * cut < vy * vy) by (nonlinear_arith)
        requires
            0 < cut < vy,
    ;
}

/// Landing is resolved before the tick's jump input: a character that
/// comes down onto walkable ground while `Jumping` or `Falling` is
/// grounded on that very tick, so a jump pressed on the landing tick
/// starts a fresh jump, and without a press the tick ends `Grounded`.
pub proof fn lemma_landing_precedes_jump_input(
    state: JumpState,
    intent: MovementIntent,
    vy: int,
    dt_us: int,
    jump_impulse: int,
)
    requires
        state is Jumping || state is Falling,
        vy <= 0,
    ensures
        intent.jump_pressed ==> next_jump_state(state, intent, true, vy, dt_us)
            == (JumpState::Jumping { elapsed_us: 0 }),
        intent.jump_pressed ==> next_vertical_velocity(state, intent, true, vy, jump_impulse)
            == impulse_velocity(jump_impulse),
        !intent.jump_pressed ==> next_jump_state(state, intent, true, vy, dt_us)
            == JumpState::Grounded,
        !intent.jump_pressed ==> next_vertical_velocity(state, intent, true, vy, jump_impulse)
            == vy,
{
}

} // verus!
