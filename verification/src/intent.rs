//! Input intent resolution.
//!
//! Maps the current tick's abstract action state (a signed move axis and the
//! jump button's level on this tick and the previous one) into a normalized
//! `MovementIntent`. Pure: no side effects, no state of its own.

use vstd::prelude::*;

verus! {

/// Full deflection of the move axis, in permille.
pub const AXIS_SCALE: i64 = 1_000;

/// Normalized per-tick input intent. Ephemeral: derived each tick from the
/// raw action state and discarded after the tick.
#[derive(Clone, Copy, Debug, PartialEq, Eq, Structural)]
pub struct MovementIntent {
    /// Signed move-axis deflection in permille, clamped to
    /// `[-AXIS_SCALE, AXIS_SCALE]`.
    pub horizontal_axis: i64,
    /// True exactly on the tick the jump action goes from unpressed to
    /// pressed (edge-triggered, so holding the button does not re-jump).
    pub jump_pressed: bool,
    /// True while the jump action is down (level-triggered; sustains ascent).
    pub jump_held: bool,
}

impl MovementIntent {
    /// The axis is within its normalized range.
    pub open spec fn wf(self) -> bool {
        -AXIS_SCALE <= self.horizontal_axis <= AXIS_SCALE
    }
}

/// The axis value clamped to `[-AXIS_SCALE, AXIS_SCALE]`.
pub open spec fn clamped_axis(raw: int) -> int {
    if raw < -AXIS_SCALE {
        -AXIS_SCALE as int
    } else if raw > AXIS_SCALE {
        AXIS_SCALE as int
    } else {
        raw
    }
}

/// Resolves the raw action state of one tick into a `MovementIntent`.
///
/// `raw_axis_permille` is the move action's signed magnitude in permille;
/// values beyond full deflection are clamped. `jump_down` is the jump
/// action's level this tick, `jump_down_prev` its level on the previous tick:
/// the press is reported only on the rising edge.
pub fn resolve_intent(raw_axis_permille: i64, jump_down: bool, jump_down_prev: bool) -> (r:
    MovementIntent)
    ensures
        r.horizontal_axis == clamped_axis(raw_axis_permille as int),
        r.jump_pressed == (jump_down && !jump_down_prev),
        r.jump_held == jump_down,
        r.wf(),
{
    let axis: i64 = if raw_axis_permille < -AXIS_SCALE {
        -AXIS_SCALE
    } else if raw_axis_permille > AXIS_SCALE {
        AXIS_SCALE
    } else {
        raw_axis_permille
    };
    MovementIntent { horizontal_axis: axis, jump_pressed: jump_down && !jump_down_prev, jump_held: jump_down }
}

} // verus!
