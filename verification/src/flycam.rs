//! The free-flying camera controller.
//!
//! Per frame the host adapter reads mouse and key input, hands the deltas
//! in as plain fixed-point values, and applies the displacements that come
//! back. Angles are pico-radians; mouse deltas arrive in milli-pixels,
//! sensitivities and speeds in milli-units, time deltas in milli-seconds.
//!
//! The orientation is fully derived from the yaw and pitch kept here: the
//! adapter recomputes a look-at from them every frame, so no drift can
//! accumulate. Turning yaw and pitch into a floating-point view vector is
//! the adapter's one piece of trigonometry; every decision before that is
//! exact and verified.

use vstd::prelude::*;
use vstd::arithmetic::div_mod::{
    lemma_fundamental_div_mod, lemma_mod_multiples_vanish, lemma_small_mod,
};

verus! {

/// Half a radian turn (pi radians), in pico-radians.
pub const HALF_TURN: i64 = 3_141_592_653_590;

/// A full turn (two pi radians), in pico-radians.
pub const FULL_TURN: i64 = 6_283_185_307_180;

/// A quarter turn (pi over two radians, 90 degrees), in pico-radians.
pub const QUARTER_TURN: i64 = 1_570_796_326_795;

/// How far inside a quarter turn the pitch clamp stops (0.01 radians), to
/// keep the camera away from the gimbal-flip poles.
pub const PITCH_EPS: i64 = 10_000_000_000;

/// The largest pitch magnitude the controller ever produces.
pub const PITCH_LIMIT: i64 = QUARTER_TURN - PITCH_EPS;

/// Look scale: pico-radians turned per milli-pixel of mouse delta and
/// milli-unit of sensitivity (0.007 radians per pixel at sensitivity one).
pub const LOOK_FACTOR: i64 = 7_000;

/// Largest mouse delta accepted for one look event, in milli-pixels.
pub const DELTA_LOOK_MAX: i64 = 1_000_000_000;

/// Largest sensitivity a well-formed camera carries, in milli-units.
pub const SENSITIVITY_MAX: i64 = 1_000_000;

/// Largest movement speed a well-formed camera carries, in milli-units
/// per second.
pub const SPEED_MAX: i64 = 1_000_000_000;

/// Largest time delta accepted for one movement frame, in milli-seconds.
pub const TIME_DELTA_MAX: i64 = 1_000_000;

/// Largest scroll delta accepted for one zoom event, in milli-lines.
pub const SCROLL_MAX: i64 = 1_000_000_000;

/// The signed angle a look event turns by: minus the look scale times the
/// mouse delta times the sensitivity, in pico-radians.
pub open spec fn look_step(delta: int, sensitivity: int) -> int {
    -LOOK_FACTOR * delta * sensitivity
}

/// Pitch after clamping to just inside a quarter turn either way.
pub open spec fn clamp_pitch(p: int) -> int {
    if p > PITCH_LIMIT {
        PITCH_LIMIT as int
    } else if p < -PITCH_LIMIT {
        -PITCH_LIMIT as int
    } else {
        p
    }
}

/// Which keys of the movement bindings are held this frame. The adapter
/// resolves its configured key bindings to these flags.
#[derive(Clone, Copy, Debug, PartialEq, Eq, Structural)]
pub struct KeysPressed {
    pub left: bool,
    pub right: bool,
    pub up: bool,
    pub down: bool,
    pub near: bool,
    pub far: bool,
}

/// One frame's movement, in micro-units, expressed in the camera's
/// yaw-only frame: `forward` along the horizontal heading, `right`
/// perpendicular to it in the horizontal plane, `up` along the world
/// vertical. The frame is derived from yaw alone, so none of these axes
/// ever tilts with pitch.
#[derive(Clone, Copy, Debug, PartialEq, Eq, Structural)]
pub struct MoveIntent {
    pub forward: i64,
    pub right: i64,
    pub up: i64,
}

/// The signed axis value of an opposed key pair.
pub open spec fn axis(positive: bool, negative: bool) -> int {
    (if positive {
        1int
    } else {
        0int
    }) - (if negative {
        1int
    } else {
        0int
    })
}

/// The forward component of one frame's key movement, in micro-units.
pub open spec fn spec_move_forward(cam: Flycam, keys: KeysPressed, time_delta: int) -> int {
    axis(keys.far, keys.near) * cam.speed * time_delta
}

/// The rightward component of one frame's key movement, in micro-units.
pub open spec fn spec_move_right(cam: Flycam, keys: KeysPressed, time_delta: int) -> int {
    axis(keys.right, keys.left) * cam.speed * time_delta
}

/// The world-vertical component of one frame's key movement, in
/// micro-units.
pub open spec fn spec_move_up(cam: Flycam, keys: KeysPressed, time_delta: int) -> int {
    axis(keys.up, keys.down) * cam.speed * time_delta
}

/// Per-camera state of the free-flying controller.
#[derive(Clone, Copy, Debug, PartialEq, Eq, Structural)]
pub struct Flycam {
    /// Movement speed, in milli-units per second.
    pub speed: i64,
    /// Mouse-look sensitivity, in milli-units.
    pub look_sensitivity: i64,
    /// Scroll-zoom sensitivity, in milli-units.
    pub scroll_sensitivity: i64,
    /// Pitch, in pico-radians; always within the clamp limits.
    pub pitch: i64,
    /// Yaw, in pico-radians; always normalized to within half a turn.
    pub yaw: i64,
}

impl Flycam {
    /// A camera state the controller can integrate: sensitivities and
    /// speed within their fixed-point ranges, pitch inside the clamp
    /// limits, yaw normalized.
    pub open spec fn wf(self) -> bool {
        &&& 0 <= self.speed <= SPEED_MAX
        &&& 0 <= self.look_sensitivity <= SENSITIVITY_MAX
        &&& 0 <= self.scroll_sensitivity <= SENSITIVITY_MAX
        &&& -PITCH_LIMIT <= self.pitch <= PITCH_LIMIT
        &&& -HALF_TURN < self.yaw <= HALF_TURN
    }

    /// Decides whether this state is one the controller can integrate,
    /// so a host can test it before handing the camera over.
    pub fn check_wf(&self) -> (b: bool)
        ensures
            b == self.wf(),
    {
        0 <= self.speed && self.speed <= SPEED_MAX && 0 <= self.look_sensitivity
            && self.look_sensitivity <= SENSITIVITY_MAX && 0 <= self.scroll_sensitivity
            && self.scroll_sensitivity <= SENSITIVITY_MAX && -PITCH_LIMIT <= self.pitch
            && self.pitch <= PITCH_LIMIT && -HALF_TURN < self.yaw && self.yaw <= HALF_TURN
    }

    /// Integrates one mouse-motion event into yaw and pitch: each turns
    /// by minus the scaled delta; pitch is clamped to just inside a
    /// quarter turn, yaw is normalized to within half a turn of zero.
    pub fn look_event(&mut self, delta_x: i64, delta_y: i64)
        requires
            old(self).wf(),
            -DELTA_LOOK_MAX <= delta_x <= DELTA_LOOK_MAX,
            -DELTA_LOOK_MAX <= delta_y <= DELTA_LOOK_MAX,
        ensures
            final(self).wf(),
            -HALF_TURN < final(self).yaw <= HALF_TURN,
            (final(self).yaw as int) % (FULL_TURN as int) == (old(self).yaw + look_step(
                delta_x as int,
                old(self).look_sensitivity as int,
            )) % (FULL_TURN as int),
            final(self).pitch == clamp_pitch(
                old(self).pitch + look_step(delta_y as int, old(self).look_sensitivity as int),
            ),
            final(self).speed == old(self).speed,
            final(self).look_sensitivity == old(self).look_sensitivity,
            final(self).scroll_sensitivity == old(self).scroll_sensitivity,
    {
        let sens = self.look_sensitivity;
        proof {
            assert(-7_000_000_000_000_000_000 <= -LOOK_FACTOR * delta_x * sens
                <= 7_000_000_000_000_000_000) by (nonlinear_arith)
                requires
                    -DELTA_LOOK_MAX <= delta_x <= DELTA_LOOK_MAX,
                    0 <= sens <= SENSITIVITY_MAX,
            ;
            assert(-7_000_000_000_000_000_000 <= -LOOK_FACTOR * delta_y * sens
                <= 7_000_000_000_000_000_000) by (nonlinear_arith)
                requires
                    -DELTA_LOOK_MAX <= delta_y <= DELTA_LOOK_MAX,
                    0 <= sens <= SENSITIVITY_MAX,
            ;
        }
        let yaw_step: i64 = -LOOK_FACTOR * delta_x * sens;
        let pitch_step: i64 = -LOOK_FACTOR * delta_y * sens;
        self.yaw = wrap_angle(self.yaw + yaw_step);
        let raw_pitch: i64 = self.pitch + pitch_step;
        self.pitch = if raw_pitch > PITCH_LIMIT {
            PITCH_LIMIT
        } else if raw_pitch < -PITCH_LIMIT {
            -PITCH_LIMIT
        } else {
            raw_pitch
        };
    }

    /// One frame's key-driven movement. The result is exact: each
    /// component is the signed axis of its key pair times speed times the
    /// time delta, and the frame it refers to is derived from yaw alone.
    pub fn key_move(&self, keys: KeysPressed, time_delta: i64) -> (m: MoveIntent)
        requires
            self.wf(),
            0 <= time_delta <= TIME_DELTA_MAX,
        ensures
            m.forward == spec_move_forward(*self, keys, time_delta as int),
            m.right == spec_move_right(*self, keys, time_delta as int),
            m.up == spec_move_up(*self, keys, time_delta as int),
    {
        proof {
            assert(0 <= self.speed * time_delta <= 1_000_000_000_000_000) by (nonlinear_arith)
                requires
                    0 <= self.speed <= SPEED_MAX,
                    0 <= time_delta <= TIME_DELTA_MAX,
            ;
        }
        let step: i64 = self.speed * time_delta;
        let forward: i64 = scaled_axis(keys.far, keys.near, step);
        let right: i64 = scaled_axis(keys.right, keys.left, step);
        let up: i64 = scaled_axis(keys.up, keys.down, step);
        proof {
            let s = self.speed as int;
            let t = time_delta as int;
            assert(axis(keys.far, keys.near) * (s * t) == axis(keys.far, keys.near) * s * t)
                by (nonlinear_arith);
            assert(axis(keys.right, keys.left) * (s * t) == axis(keys.right, keys.left) * s * t)
                by (nonlinear_arith);
            assert(axis(keys.up, keys.down) * (s * t) == axis(keys.up, keys.down) * s * t)
                by (nonlinear_arith);
        }
        MoveIntent { forward, right, up }
    }

    /// One scroll event's dolly along the current view direction, in
    /// micro-units: the line delta times the scroll sensitivity.
    pub fn zoom_amount(&self, scroll_lines: i64) -> (z: i64)
        requires
            self.wf(),
            -SCROLL_MAX <= scroll_lines <= SCROLL_MAX,
        ensures
            z == scroll_lines * self.scroll_sensitivity,
    {
        proof {
            assert(-1_000_000_000_000_000 <= scroll_lines * self.scroll_sensitivity
                <= 1_000_000_000_000_000) by (nonlinear_arith)
                requires
                    -SCROLL_MAX <= scroll_lines <= SCROLL_MAX,
                    0 <= self.scroll_sensitivity <= SENSITIVITY_MAX,
            ;
        }
        scroll_lines * self.scroll_sensitivity
    }
}

impl Default for Flycam {
    /// The stock camera: speed 7 units per second, both sensitivities
    /// one half, a slight downward pitch of 0.3 radians, yaw zero.
    fn default() -> (cam: Self)
        ensures
            cam == (Flycam {
                speed: 7_000i64,
                look_sensitivity: 500i64,
                scroll_sensitivity: 500i64,
                pitch: -300_000_000_000i64,
                yaw: 0i64,
            }),
            cam.wf(),
    {
        Flycam {
            speed: 7_000,
            look_sensitivity: 500,
            scroll_sensitivity: 500,
            pitch: -300_000_000_000,
            yaw: 0,
        }
    }
}

/// The signed axis value of an opposed key pair, times a step that is
/// free of overflow either way.
fn scaled_axis(positive: bool, negative: bool, step: i64) -> (a: i64)
    requires
        i64::MIN < step,
    ensures
        a == axis(positive, negative) * step,
{
    if positive == negative {
        proof {
            assert(axis(positive, negative) * step == 0) by (nonlinear_arith)
                requires
                    axis(positive, negative) == 0,
            ;
        }
        0
    } else if positive {
        proof {
            assert(axis(positive, negative) * step == step) by (nonlinear_arith)
                requires
                    axis(positive, negative) == 1,
            ;
        }
        step
    } else {
        proof {
            assert(axis(positive, negative) * step == -step) by (nonlinear_arith)
                requires
                    axis(positive, negative) == -1,
            ;
        }
        -step
    }
}

/// Normalizes an angle to within half a turn of zero, keeping the same
/// heading: the result differs from the argument by a whole number of
/// turns, and an already-normalized angle comes back unchanged.
pub fn wrap_angle(angle: i64) -> (r: i64)
    requires
        i64::MIN < angle,
    ensures
        -HALF_TURN < r <= HALF_TURN,
        (r as int) % (FULL_TURN as int) == (angle as int) % (FULL_TURN as int),
        -HALF_TURN < angle <= HALF_TURN ==> r == angle,
{
    let magnitude: u64 = if angle >= 0 {
        angle as u64
    } else {
        (-angle) as u64
    };
    let m: u64 = magnitude % (FULL_TURN as u64);
    let s: i64 = if angle >= 0 {
        m as i64
    } else {
        -(m as i64)
    };
    let r: i64 = if s > HALF_TURN {
        s - FULL_TURN
    } else if s <= -HALF_TURN {
        s + FULL_TURN
    } else {
        s
    };
    proof {
        let f = FULL_TURN as int;
        let mag = magnitude as int;
        lemma_fundamental_div_mod(mag, f);
        // The exec result differs from the argument by a whole number of
        // turns; name that count to let the modulus vanish.
        let k: int = if angle >= 0 {
            if s > HALF_TURN {
                mag / f + 1
            } else {
                mag / f
            }
        } else {
            if s <= -HALF_TURN {
                -(mag / f) - 1
            } else {
                -(mag / f)
            }
        };
        assert(angle == f * k + r);
        lemma_mod_multiples_vanish(k, r as int, f);
        if -HALF_TURN < angle <= HALF_TURN {
            lemma_small_mod(mag as nat, f as nat);
        }
    }
    r
}

/// However large one frame's mouse input, the pitch the clamp produces
/// stays strictly inside a quarter turn either way: the camera never
/// reaches, let alone crosses, straight up or straight down.
pub proof fn lemma_pitch_strictly_bounded(p: int)
    ensures
        -QUARTER_TURN < clamp_pitch(p) < QUARTER_TURN,
{
}

/// Key-driven movement is independent of pitch: two camera states that
/// agree on speed and yaw produce the same movement intent whatever their
/// pitches, its frame is derived from yaw alone, and its world-vertical
/// component comes only from the up/down key pair — a camera looking
/// straight up still moves along the horizontal plane.
pub proof fn lemma_horizontal_move_ignores_pitch(
    a: Flycam,
    b: Flycam,
    keys: KeysPressed,
    time_delta: int,
)
    requires
        a.speed == b.speed,
        a.yaw == b.yaw,
    ensures
        spec_move_forward(a, keys, time_delta) == spec_move_forward(b, keys, time_delta),
        spec_move_right(a, keys, time_delta) == spec_move_right(b, keys, time_delta),
        spec_move_up(a, keys, time_delta) == spec_move_up(b, keys, time_delta),
        !keys.up && !keys.down ==> spec_move_up(a, keys, time_delta) == 0,
{
    if !keys.up && !keys.down {
        assert(axis(keys.up, keys.down) * a.speed * time_delta == 0) by (nonlinear_arith)
            requires
                axis(keys.up, keys.down) == 0,
        ;
    }
}

} // verus!
