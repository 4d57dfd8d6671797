use level_editor::{Flycam, KeysPressed, FULL_TURN, HALF_TURN, PITCH_EPS, PITCH_LIMIT,
    QUARTER_TURN, wrap_angle};

fn no_keys() -> KeysPressed {
    KeysPressed { left: false, right: false, up: false, down: false, near: false, far: false }
}

#[test]
fn default_flycam_values() {
    let cam = Flycam::default();
    assert_eq!(cam.speed, 7_000);
    assert_eq!(cam.look_sensitivity, 500);
    assert_eq!(cam.scroll_sensitivity, 500);
    assert_eq!(cam.pitch, -300_000_000_000);
    assert_eq!(cam.yaw, 0);
}

#[test]
fn huge_downward_delta_still_leaves_pitch_above_minus_ninety() {
    let mut cam = Flycam::default();
    // A billion milli-pixels of downward mouse delta in a single event.
    cam.look_event(0, 1_000_000_000);
    assert_eq!(cam.pitch, -(QUARTER_TURN - PITCH_EPS));
    assert!(cam.pitch > -QUARTER_TURN);
}

#[test]
fn huge_upward_delta_still_leaves_pitch_below_ninety() {
    let mut cam = Flycam::default();
    cam.look_event(0, -1_000_000_000);
    assert_eq!(cam.pitch, QUARTER_TURN - PITCH_EPS);
    assert!(cam.pitch < QUARTER_TURN);
}

#[test]
fn look_event_integrates_exactly() {
    let mut cam = Flycam::default();
    // 100 pixels rightward: yaw turns by -0.007 * 100 * 0.5 radians.
    cam.look_event(100_000, 0);
    assert_eq!(cam.yaw, -350_000_000_000);
    assert_eq!(cam.pitch, -300_000_000_000);
    // 10 pixels upward: pitch rises by 0.007 * 10 * 0.5 radians.
    cam.look_event(0, -10_000);
    assert_eq!(cam.pitch, -300_000_000_000 + 35_000_000_000);
}

#[test]
fn yaw_wraps_around_a_full_turn() {
    let mut cam = Flycam::default();
    cam.yaw = HALF_TURN;
    // One pixel leftward turns yaw past half a turn; it comes back wrapped.
    cam.look_event(-1_000, 0);
    assert_eq!(cam.yaw, -HALF_TURN + 3_500_000_000);
}

#[test]
fn wrap_angle_is_exact() {
    assert_eq!(wrap_angle(0), 0);
    assert_eq!(wrap_angle(123), 123);
    assert_eq!(wrap_angle(-123), -123);
    assert_eq!(wrap_angle(FULL_TURN), 0);
    assert_eq!(wrap_angle(-FULL_TURN), 0);
    assert_eq!(wrap_angle(HALF_TURN), HALF_TURN);
    assert_eq!(wrap_angle(HALF_TURN + 1), -HALF_TURN + 1);
    assert_eq!(wrap_angle(-HALF_TURN), HALF_TURN);
    assert_eq!(wrap_angle(-FULL_TURN - 5), -5);
    assert_eq!(wrap_angle(3 * FULL_TURN + 77), 77);
}

#[test]
fn wrap_angle_agrees_with_wide_arithmetic_at_extremes() {
    for angle in [
        i64::MIN + 1,
        i64::MAX,
        i64::MAX - 12_345,
        -7 * FULL_TURN - 1,
        5 * FULL_TURN + HALF_TURN,
    ] {
        let wrapped = wrap_angle(angle);
        assert!(-HALF_TURN < wrapped && wrapped <= HALF_TURN);
        let full = FULL_TURN as i128;
        let reduced = (((angle as i128) % full) + full) % full;
        let expected = if reduced > HALF_TURN as i128 { reduced - full } else { reduced };
        assert_eq!(wrapped as i128, expected);
    }
}

#[test]
fn forward_movement_ignores_pitch() {
    let mut level = Flycam::default();
    level.pitch = 0;
    let mut skyward = Flycam::default();
    // Looking as close to straight up as the clamp allows.
    skyward.pitch = PITCH_LIMIT;
    let keys = KeysPressed { far: true, ..no_keys() };
    let level_move = level.key_move(keys, 16);
    let skyward_move = skyward.key_move(keys, 16);
    assert_eq!(level_move, skyward_move);
    // Forward motion never leaves the horizontal plane.
    assert_eq!(level_move.up, 0);
    assert_eq!(level_move.forward, 7_000 * 16);
}

#[test]
fn key_movement_is_exact_per_axis() {
    let cam = Flycam::default();
    let forward = cam.key_move(KeysPressed { far: true, ..no_keys() }, 1_000);
    assert_eq!(forward.forward, 7_000_000);
    assert_eq!(forward.right, 0);
    assert_eq!(forward.up, 0);
    let left = cam.key_move(KeysPressed { left: true, ..no_keys() }, 1_000);
    assert_eq!(left.right, -7_000_000);
    let climb = cam.key_move(KeysPressed { up: true, ..no_keys() }, 1_000);
    assert_eq!(climb.up, 7_000_000);
    let sink = cam.key_move(KeysPressed { down: true, ..no_keys() }, 1_000);
    assert_eq!(sink.up, -7_000_000);
    let idle = cam.key_move(no_keys(), 1_000);
    assert_eq!(idle, level_editor::MoveIntent { forward: 0, right: 0, up: 0 });
    let cancelled = cam.key_move(KeysPressed { far: true, near: true, ..no_keys() }, 1_000);
    assert_eq!(cancelled.forward, 0);
}

#[test]
fn zoom_scales_scroll_by_sensitivity() {
    let cam = Flycam::default();
    // One scroll line at sensitivity one half dollies half a unit.
    assert_eq!(cam.zoom_amount(1_000), 500_000);
    assert_eq!(cam.zoom_amount(-2_000), -1_000_000);
    assert_eq!(cam.zoom_amount(0), 0);
}
