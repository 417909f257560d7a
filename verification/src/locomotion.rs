//! Horizontal locomotion integration.
//!
//! Each tick the horizontal velocity is blended toward the input's target
//! velocity `axis * max_speed` with an acceleration-clamped step: the
//! velocity moves toward the target by at most `acceleration * dt` and stops
//! exactly on it. The step is linear in the tick duration, so the blend is
//! frame-rate independent by construction: splitting a tick in two, or any
//! rescheduling with the same total elapsed time, lands on exactly the same
//! velocity.
//!
//! While airborne the same formula runs with a reduced effective
//! acceleration (a quarter of the grounded one), so the character keeps most
//! of its ground-built momentum but retains some air control. Vertical
//! velocity is never touched here; this module only ever sets the
//! horizontal axis.

use vstd::prelude::*;
use crate::config::ControllerConfig;
use crate::intent::AXIS_SCALE;

verus! {

/// Velocities are carried in micro-units per second: one world unit per
/// second is `1_000_000`.
pub const MICRO_PER_UNIT: i64 = 1_000_000;

/// Micro-units per second contributed by one permille of axis deflection
/// per unit of `max_speed` (`MICRO_PER_UNIT / AXIS_SCALE`).
pub const AXIS_TO_MICRO: i64 = 1_000;

/// Largest velocity magnitude, in micro-units per second, the controller
/// accepts from the solver. Far above anything the controller itself
/// produces; keeps every per-tick sum inside `i64`.
pub const VELOCITY_BOUND: i64 = 1_000_000_000_000_000;

/// Longest tick duration accepted, in microseconds (one full second).
pub const MAX_TICK_US: i64 = 1_000_000;

/// Divisor applied to the configured acceleration while airborne: reduced
/// air control, explicit rather than implicit.
pub const AIR_CONTROL_DIVISOR: i64 = 4;

/// Distance between two velocities.
pub open spec fn dist(a: int, b: int) -> int {
    if a <= b {
        b - a
    } else {
        a - b
    }
}

/// One acceleration-clamped blend step: move `v` toward `target` by at most
/// `step`, stopping exactly on the target.
pub open spec fn approach(v: int, target: int, step: int) -> int
    recommends
        step >= 0,
{
    if v < target {
        if v + step < target {
            v + step
        } else {
            target
        }
    } else if v > target {
        if v - step > target {
            v - step
        } else {
            target
        }
    } else {
        v
    }
}

/// The blend step never overshoots and never retreats: the result stays
/// between the old velocity and the target, and its distance to the target
/// shrinks by exactly `step` until the target is reached.
pub proof fn lemma_approach_bounds(v: int, target: int, step: int)
    requires
        step >= 0,
    ensures
        v <= target ==> v <= approach(v, target, step) <= target,
        v >= target ==> target <= approach(v, target, step) <= v,
        dist(approach(v, target, step), target) == if dist(v, target) >= step {
            dist(v, target) - step
        } else {
            0
        },
{
}

/// Two consecutive blend steps toward one target equal a single step of
/// their combined size. Since a step is `acceleration * dt`, this is
/// frame-rate independence: only total elapsed time matters.
pub proof fn lemma_approach_additive(v: int, target: int, step1: int, step2: int)
    requires
        step1 >= 0,
        step2 >= 0,
    ensures
        approach(approach(v, target, step1), target, step2) == approach(
            v,
            target,
            step1 + step2,
        ),
{
}

/// The velocity after `n` blend ticks of equal step toward a constant
/// target.
pub open spec fn run_ticks(v: int, target: int, step: int, n: nat) -> int
    decreases n,
{
    if n == 0 {
        v
    } else {
        approach(run_ticks(v, target, step, (n - 1) as nat), target, step)
    }
}

/// Closed form of a constant-target run: `n` ticks of step `step` are one
/// step of `n * step`.
pub proof fn lemma_run_ticks_closed_form(v: int, target: int, step: int, n: nat)
    requires
        step >= 0,
    ensures
        run_ticks(v, target, step, n) == approach(v, target, n * step),
    decreases n,
{
    if n == 0 {
        assert(run_ticks(v, target, step, 0) == approach(v, target, 0));
    } else {
        lemma_run_ticks_closed_form(v, target, step, (n - 1) as nat);
        lemma_approach_additive(v, target, (n - 1) * step, step);
        assert((n - 1) * step + step == n * step) by (nonlinear_arith);
        assert(n * step >= 0) by (nonlinear_arith)
            requires
                step >= 0,
                n >= 0,
        ;
        assert((n - 1) * step >= 0) by (nonlinear_arith)
            requires
                step >= 0,
                n >= 1,
        ;
    }
}

/// Frame-rate independence of a held input: two simulations of the same
/// total elapsed time — any tick counts and durations whose products agree —
/// end on exactly the same velocity.
pub proof fn lemma_frame_rate_independence(
    v: int,
    target: int,
    step1: int,
    n1: nat,
    step2: int,
    n2: nat,
)
    requires
        step1 >= 0,
        step2 >= 0,
        n1 * step1 == n2 * step2,
    ensures
        run_ticks(v, target, step1, n1) == run_ticks(v, target, step2, n2),
{
    lemma_run_ticks_closed_form(v, target, step1, n1);
    lemma_run_ticks_closed_form(v, target, step2, n2);
}

/// A held input converges monotonically: over any run toward a constant
/// target the velocity stays between start and target (it never overshoots),
/// its distance to the target never grows from one tick to the next, and
/// once `n * step` covers the initial distance the target is reached
/// exactly.
pub proof fn lemma_monotone_convergence(v: int, target: int, step: int, n: nat)
    requires
        step >= 0,
    ensures
        v <= target ==> v <= run_ticks(v, target, step, n) <= target,
        v >= target ==> target <= run_ticks(v, target, step, n) <= v,
        dist(run_ticks(v, target, step, (n + 1) as nat), target) <= dist(
            run_ticks(v, target, step, n),
            target,
        ),
        n * step >= dist(v, target) ==> run_ticks(v, target, step, n) == target,
{
    lemma_run_ticks_closed_form(v, target, step, n);
    lemma_run_ticks_closed_form(v, target, step, (n + 1) as nat);
    assert(n * step >= 0) by (nonlinear_arith)
        requires
            step >= 0,
            n >= 0,
    ;
    assert((n + 1) * step == n * step + step) by (nonlinear_arith);
    lemma_approach_bounds(v, target, n * step);
    lemma_approach_bounds(v, target, n * step + step);
}

/// The target velocity a full blend converges to, in micro-units per
/// second: the axis deflection applied to the configured maximum speed.
pub open spec fn target_velocity_spec(axis_permille: int, max_speed: int) -> int {
    axis_permille * max_speed * AXIS_TO_MICRO
}

/// The effective acceleration, in units per second squared: the configured
/// one on the ground, a quarter of it (at least one) in the air.
pub open spec fn effective_acceleration(acceleration: int, grounded: bool) -> int {
    if grounded {
        acceleration
    } else if acceleration / (AIR_CONTROL_DIVISOR as int) >= 1 {
        acceleration / (AIR_CONTROL_DIVISOR as int)
    } else {
        1
    }
}

/// The blend step for one tick, in micro-units per second: effective
/// acceleration times tick duration.
pub open spec fn accel_step(acceleration: int, dt_us: int, grounded: bool) -> int {
    effective_acceleration(acceleration, grounded) * dt_us
}

/// The target velocity for an axis deflection under a configuration.
pub fn target_velocity(axis_permille: i64, config: &ControllerConfig) -> (r: i64)
    requires
        config.wf(),
        -AXIS_SCALE <= axis_permille <= AXIS_SCALE,
    ensures
        r == target_velocity_spec(axis_permille as int, config.max_speed as int),
        -VELOCITY_BOUND <= r <= VELOCITY_BOUND,
{
    proof {
        assert(-1_000_000_000 <= axis_permille * config.max_speed <= 1_000_000_000)
            by (nonlinear_arith)
            requires
                -1_000 <= axis_permille <= 1_000,
                1 <= config.max_speed <= 1_000_000,
        ;
    }
    axis_permille * config.max_speed * AXIS_TO_MICRO
}

/// One locomotion tick: the new horizontal velocity, in micro-units per
/// second, after blending the body's current horizontal velocity toward the
/// intent's target for `dt_us` microseconds. Grounded ticks use the full
/// configured acceleration, airborne ticks the reduced air control.
/// Vertical velocity is not an input and is not touched.
pub fn new_horizontal_velocity(
    current_vx: i64,
    axis_permille: i64,
    grounded: bool,
    config: &ControllerConfig,
    dt_us: i64,
) -> (r: i64)
    requires
        config.wf(),
        -AXIS_SCALE <= axis_permille <= AXIS_SCALE,
        -VELOCITY_BOUND <= current_vx <= VELOCITY_BOUND,
        1 <= dt_us <= MAX_TICK_US,
    ensures
        r == approach(
            current_vx as int,
            target_velocity_spec(axis_permille as int, config.max_speed as int),
            accel_step(config.acceleration as int, dt_us as int, grounded),
        ),
        -VELOCITY_BOUND <= r <= VELOCITY_BOUND,
{
    let target: i64 = target_velocity(axis_permille, config);
    let effective: i64 = if grounded {
        config.acceleration
    } else if config.acceleration / AIR_CONTROL_DIVISOR >= 1 {
        config.acceleration / AIR_CONTROL_DIVISOR
    } else {
        1
    };
    proof {
        assert(1 <= effective * dt_us <= 1_000_000_000_000) by (nonlinear_arith)
            requires
                1 <= effective <= 1_000_000,
                1 <= dt_us <= 1_000_000,
        ;
    }
    let step: i64 = effective * dt_us;
    proof {
        lemma_approach_bounds(
            current_vx as int,
            target as int,
            step as int,
        );
    }
    if current_vx < target {
        if current_vx + step < target {
            current_vx + step
        } else {
            target
        }
    } else if current_vx > target {
        if current_vx - step > target {
            current_vx - step
        } else {
            target
        }
    } else {
        current_vx
    }
}

} // verus!
