use character_controller::config::ControllerConfig;
use character_controller::ground::ContactState;
use character_controller::intent::MovementIntent;
use character_controller::jump::{jump_step, JumpState, MAX_ASCENT_US};

const DT_60HZ_US: i64 = 16_666;
const FLAT: ContactState = ContactState::GroundedFlat { angle_mrad: 0 };
const AIR: ContactState = ContactState::Airborne;

fn reference_config() -> ControllerConfig {
    ControllerConfig::new(1250, 5000, 400, 524).unwrap()
}

fn neutral() -> MovementIntent {
    MovementIntent { horizontal_axis: 0, jump_pressed: false, jump_held: false }
}

fn pressing() -> MovementIntent {
    MovementIntent { horizontal_axis: 0, jump_pressed: true, jump_held: true }
}

fn holding() -> MovementIntent {
    MovementIntent { horizontal_axis: 0, jump_pressed: false, jump_held: true }
}

#[test]
fn grounded_press_starts_a_jump_with_the_impulse() {
    let config: ControllerConfig = reference_config();
    let (state, vy) = jump_step(JumpState::Grounded, pressing(), FLAT, 0, &config, DT_60HZ_US);
    assert_eq!(state, JumpState::Jumping { elapsed_us: 0 });
    // 400 units/s, in micro-units/s.
    assert_eq!(vy, 400_000_000);
}

#[test]
fn holding_the_button_sustains_the_ascent() {
    let config: ControllerConfig = reference_config();
    let (state, vy) = jump_step(
        JumpState::Jumping { elapsed_us: 0 },
        holding(),
        AIR,
        400_000_000,
        &config,
        DT_60HZ_US,
    );
    assert_eq!(state, JumpState::Jumping { elapsed_us: DT_60HZ_US });
    assert_eq!(vy, 400_000_000);
}

#[test]
fn early_release_cuts_the_ascent_in_half() {
    let config: ControllerConfig = reference_config();
    let (state, vy) = jump_step(
        JumpState::Jumping { elapsed_us: DT_60HZ_US },
        neutral(),
        AIR,
        366_668_000,
        &config,
        DT_60HZ_US,
    );
    assert_eq!(state, JumpState::Falling);
    assert_eq!(vy, 183_334_000);
}

#[test]
fn release_while_already_descending_leaves_velocity_alone() {
    let config: ControllerConfig = reference_config();
    let (state, vy) = jump_step(
        JumpState::Jumping { elapsed_us: DT_60HZ_US },
        neutral(),
        AIR,
        -50_000_000,
        &config,
        DT_60HZ_US,
    );
    assert_eq!(state, JumpState::Falling);
    assert_eq!(vy, -50_000_000);
}

#[test]
fn ascent_window_expiry_ends_the_jump() {
    let config: ControllerConfig = reference_config();
    let (state, vy) = jump_step(
        JumpState::Jumping { elapsed_us: MAX_ASCENT_US - 1 },
        holding(),
        AIR,
        100_000_000,
        &config,
        DT_60HZ_US,
    );
    assert_eq!(state, JumpState::Falling);
    assert_eq!(vy, 100_000_000);
}

#[test]
fn airborne_jump_press_is_dropped() {
    let config: ControllerConfig = reference_config();
    // Falling with no ground under the character: the press does nothing.
    let (state, vy) = jump_step(JumpState::Falling, pressing(), AIR, -200_000_000, &config, DT_60HZ_US);
    assert_eq!(state, JumpState::Falling);
    assert_eq!(vy, -200_000_000);
    // Walked off a ledge this very tick: still no jump.
    let (state, vy) = jump_step(JumpState::Grounded, pressing(), AIR, 0, &config, DT_60HZ_US);
    assert_eq!(state, JumpState::Falling);
    assert_eq!(vy, 0);
}

#[test]
fn landing_transitions_to_grounded_before_jump_input() {
    let config: ControllerConfig = reference_config();
    // Landing tick without a press: grounded, velocity untouched.
    let (state, vy) = jump_step(JumpState::Falling, neutral(), FLAT, -10_000_000, &config, DT_60HZ_US);
    assert_eq!(state, JumpState::Grounded);
    assert_eq!(vy, -10_000_000);
    // Landing tick with a press: the landing is resolved first, so the
    // press starts a fresh jump on that very tick.
    let (state, vy) = jump_step(JumpState::Falling, pressing(), FLAT, -10_000_000, &config, DT_60HZ_US);
    assert_eq!(state, JumpState::Jumping { elapsed_us: 0 });
    assert_eq!(vy, 400_000_000);
}

#[test]
fn ground_contact_while_still_ascending_does_not_cancel_the_jump() {
    let config: ControllerConfig = reference_config();
    // One tick after initiation the sensor still reports last tick's
    // ground contact; the upward velocity shows there was no landing.
    let (state, vy) = jump_step(
        JumpState::Jumping { elapsed_us: 0 },
        holding(),
        FLAT,
        400_000_000,
        &config,
        DT_60HZ_US,
    );
    assert_eq!(state, JumpState::Jumping { elapsed_us: DT_60HZ_US });
    assert_eq!(vy, 400_000_000);
}

/// Ballistic stand-in for the external solver's vertical integration:
/// advances one tick under constant gravity and reports the new height and
/// velocity.
fn integrate(y_micro: i64, vy_micro: i64, gravity_upsps: i64, dt_us: i64) -> (i64, i64) {
    let y: i64 = y_micro + vy_micro * dt_us / 1_000_000;
    let vy: i64 = vy_micro - gravity_upsps * dt_us;
    (y, vy)
}

/// Runs a jump under a scripted button-hold duration and returns the apex
/// height reached, in micro-units.
fn apex_of_jump(hold_ticks: usize) -> i64 {
    let config: ControllerConfig = reference_config();
    let gravity: i64 = 2_000;
    let mut state: JumpState = JumpState::Grounded;
    let mut y: i64 = 0;
    let mut vy: i64 = 0;
    let mut apex: i64 = 0;
    for tick in 0..120 {
        let on_ground: bool = y <= 0;
        let contact: ContactState = if on_ground { FLAT } else { AIR };
        let intent: MovementIntent = if tick == 0 {
            pressing()
        } else if tick < hold_ticks {
            holding()
        } else {
            neutral()
        };
        let (next, vy_cmd) = jump_step(state, intent, contact, vy, &config, DT_60HZ_US);
        state = next;
        vy = vy_cmd;
        let (y2, vy2) = integrate(y, vy, gravity, DT_60HZ_US);
        y = y2;
        vy = vy2;
        if y < 0 {
            y = 0;
            if vy < 0 {
                vy = 0;
            }
        }
        if y > apex {
            apex = y;
        }
    }
    apex
}

#[test]
fn early_release_reaches_a_lower_apex_than_a_full_hold() {
    let full_hop: i64 = apex_of_jump(60);
    let short_hop: i64 = apex_of_jump(3);
    assert!(short_hop > 0, "the short hop must still leave the ground");
    assert!(
        short_hop < full_hop,
        "early release must reach a measurably lower apex: {} against {}",
        short_hop,
        full_hop
    );
}
