//! The orbit camera: a focus point, a radius, and a yaw/pitch orientation.
//!
//! The camera always sits at distance `radius` from `focus` along the local
//! forward axis of its orientation. Pointer motion turns the orientation,
//! the scroll wheel moves the radius, and a cursor-lock flag gates both.
//! Motion and scroll are mutually exclusive within one update: when a
//! pointer delta is present, scroll is ignored for that frame.

use vstd::arithmetic::div_mod::lemma_div_nonincreasing;
use vstd::arithmetic::mul::lemma_mul_upper_bound;
use vstd::prelude::*;

use crate::angle::{
    angle_step, is_turn, lemma_step_round_trip, scaled_angle, scaled_angle_exec, wrap_to_turn,
};
use crate::units::{
    Vec2Milli, Vec3Milli, DEFAULT_RADIUS, MILLI_PI, MILLI_TAU, MIN_RADIUS, ZOOM_DIVISOR,
};

verus! {

/// How much one scroll update takes off the radius: a `scroll` of one whole
/// step (1000 milli-steps) removes a fifth of the radius. The division
/// truncates toward zero.
pub open spec fn zoom_shrink(radius: int, scroll: int) -> int {
    if scroll >= 0 {
        (scroll * radius) / (ZOOM_DIVISOR as int)
    } else {
        -(((-scroll) * radius) / (ZOOM_DIVISOR as int))
    }
}

/// Clamps a radius to the positive floor below and the machine word above.
pub open spec fn clamp_radius(radius: int) -> int {
    if radius < MIN_RADIUS {
        MIN_RADIUS as int
    } else if radius > i64::MAX {
        i64::MAX as int
    } else {
        radius
    }
}

/// The radius after one scroll-driven update.
pub open spec fn scrolled_radius(radius: int, scroll: int) -> int {
    clamp_radius(radius - zoom_shrink(radius, scroll))
}

/// Computes `scrolled_radius` exactly in machine integers.
pub fn scrolled_radius_exec(radius: i64, scroll: i64) -> (r: i64)
    requires
        radius >= 0,
    ensures
        r == scrolled_radius(radius as int, scroll as int),
{
    if scroll >= 0 {
        proof {
            lemma_mul_upper_bound(
                scroll as int,
                0x8000000000000000,
                radius as int,
                0x8000000000000000,
            );
        }
        let p: u128 = (scroll as u128) * (radius as u128);
        let shrink: u128 = p / (ZOOM_DIVISOR as u128);
        proof {
            lemma_div_nonincreasing(p as int, ZOOM_DIVISOR as int);
        }
        let next: i128 = radius as i128 - shrink as i128;
        if next < MIN_RADIUS as i128 {
            MIN_RADIUS
        } else {
            next as i64
        }
    } else {
        let ns: i128 = -(scroll as i128);
        proof {
            lemma_mul_upper_bound(ns as int, 0x8000000000000000, radius as int, 0x8000000000000000);
        }
        let p: u128 = (ns as u128) * (radius as u128);
        let grow: u128 = p / (ZOOM_DIVISOR as u128);
        proof {
            lemma_div_nonincreasing(p as int, ZOOM_DIVISOR as int);
        }
        let next: i128 = radius as i128 + grow as i128;
        if next > i64::MAX as i128 {
            i64::MAX
        } else if next < MIN_RADIUS as i128 {
            MIN_RADIUS
        } else {
            next as i64
        }
    }
}

/// The orbit camera's whole state, in milli-units and milliradians.
#[derive(Clone, Copy, PartialEq, Eq, Structural, Debug)]
pub struct CameraState {
    /// The world-space point the camera orbits around.
    pub focus: Vec3Milli,
    /// The distance from `focus` to the camera.
    pub radius: i64,
    /// Rotation about the world vertical axis, in `[0, MILLI_TAU)`.
    pub yaw: i64,
    /// Rotation about the camera's lateral axis, in `[0, MILLI_TAU)`.
    pub pitch: i64,
    /// When set, the sign of yaw input is flipped.
    pub upside_down: bool,
    /// When set, pointer motion rotates nothing.
    pub disabled: bool,
}

impl CameraState {
    /// Well-formedness: the radius never falls below its floor, and both
    /// angles are normalized into one turn.
    pub open spec fn wf(self) -> bool {
        &&& self.radius >= MIN_RADIUS
        &&& is_turn(self.yaw as int)
        &&& is_turn(self.pitch as int)
    }

    /// The yaw change a pointer sweep of `mx` milli-pixels asks for, over a
    /// viewport `w` milli-pixels wide: a full sweep is a full turn, and the
    /// sign flips while upside down.
    pub open spec fn yaw_delta(self, mx: int, w: int) -> int {
        let d = scaled_angle(mx, MILLI_TAU as int, w);
        if self.upside_down {
            -d
        } else {
            d
        }
    }

    /// The pitch change a pointer sweep of `my` milli-pixels asks for, over
    /// a viewport `h` milli-pixels tall: a full sweep is half a turn.
    pub open spec fn pitch_delta(self, my: int, h: int) -> int {
        scaled_angle(my, MILLI_PI as int, h)
    }

    /// The state after a rotation-driven update: yaw and pitch each step
    /// backwards by their delta; everything else is untouched.
    pub open spec fn rotated(self, mx: int, my: int, w: int, h: int) -> CameraState {
        CameraState {
            yaw: angle_step(self.yaw as int, self.yaw_delta(mx, w)) as i64,
            pitch: angle_step(self.pitch as int, self.pitch_delta(my, h)) as i64,
            ..self
        }
    }

    /// The state after a scroll-driven update: only the radius moves.
    pub open spec fn zoomed(self, scroll: int) -> CameraState {
        CameraState { radius: scrolled_radius(self.radius as int, scroll) as i64, ..self }
    }

    /// Whether a pointer delta is present at all.
    pub open spec fn has_motion(mx: int, my: int) -> bool {
        mx != 0 || my != 0
    }

    /// The state one whole update step produces. Without the cursor lock
    /// nothing happens; with it, pointer motion rotates (unless disabled,
    /// which drops the frame, scroll included), and otherwise a scroll
    /// delta zooms.
    pub open spec fn updated(
        self,
        mx: int,
        my: int,
        scroll: int,
        w: int,
        h: int,
        locked: bool,
    ) -> CameraState {
        if !locked {
            self
        } else if Self::has_motion(mx, my) {
            if !self.disabled {
                self.rotated(mx, my, w, h)
            } else {
                self
            }
        } else if scroll != 0 {
            self.zoomed(scroll)
        } else {
            self
        }
    }

    /// Whether one whole update step changes the state's orientation or
    /// radius, so that the world position must be recomputed.
    pub open spec fn update_changes(self, mx: int, my: int, scroll: int, locked: bool) -> bool {
        locked && ((Self::has_motion(mx, my) && !self.disabled) || (!Self::has_motion(mx, my)
            && scroll != 0))
    }

    /// A camera at the origin with the default radius, right side up, and
    /// rotation disabled until something enables it.
    pub open spec fn default_spec() -> CameraState {
        CameraState {
            focus: Vec3Milli::zero_spec(),
            radius: DEFAULT_RADIUS,
            yaw: 0,
            pitch: 0,
            upside_down: false,
            disabled: true,
        }
    }

    /// A camera with the default state: see `default_spec`.
    pub fn new_default() -> (s: CameraState)
        ensures
            s == CameraState::default_spec(),
            s.wf(),
    {
        CameraState {
            focus: Vec3Milli::zero(),
            radius: DEFAULT_RADIUS,
            yaw: 0,
            pitch: 0,
            upside_down: false,
            disabled: true,
        }
    }

    /// A camera orbiting `focus` at distance `radius`.
    pub fn with_radius(focus: Vec3Milli, radius: i64) -> (s: CameraState)
        requires
            radius >= MIN_RADIUS,
        ensures
            s == (CameraState { focus, radius, ..CameraState::default_spec() }),
            s.wf(),
    {
        CameraState {
            focus,
            radius,
            yaw: 0,
            pitch: 0,
            upside_down: false,
            disabled: true,
        }
    }

    /// One per-frame update from accumulated input: `motion` is the summed
    /// pointer delta, `scroll` the summed wheel delta, `viewport` the window
    /// size, and `locked` the cursor-lock flag. Returns whether anything
    /// changed, so the caller knows to reproject the camera's position.
    pub fn orbit_update(
        &mut self,
        motion: Vec2Milli,
        scroll: i64,
        viewport: Vec2Milli,
        locked: bool,
    ) -> (changed: bool)
        requires
            old(self).wf(),
            viewport.x > 0,
            viewport.y > 0,
        ensures
            final(self).wf(),
            *final(self) == old(self).updated(
                motion.x as int,
                motion.y as int,
                scroll as int,
                viewport.x as int,
                viewport.y as int,
                locked,
            ),
            changed == old(self).update_changes(
                motion.x as int,
                motion.y as int,
                scroll as int,
                locked,
            ),
    {
        if !locked {
            return false;
        }
        if motion.x != 0 || motion.y != 0 {
            if self.disabled {
                return false;
            }
            let dy: i128 = scaled_angle_exec(motion.x, MILLI_TAU, viewport.x);
            let eff: i128 = if self.upside_down {
                -dy
            } else {
                dy
            };
            self.yaw = wrap_to_turn(self.yaw as i128 - eff);
            let dp: i128 = scaled_angle_exec(motion.y, MILLI_PI, viewport.y);
            self.pitch = wrap_to_turn(self.pitch as i128 - dp);
            true
        } else if scroll != 0 {
            self.radius = scrolled_radius_exec(self.radius, scroll);
            true
        } else {
            false
        }
    }

    /// Shifts the orbit's focus point; nothing else moves.
    pub fn translate_focus(&mut self, delta: Vec3Milli)
        requires
            old(self).focus.can_add(delta),
        ensures
            *final(self) == (CameraState { focus: old(self).focus.plus(delta), ..*old(self) }),
    {
        self.focus = self.focus.add(delta);
    }
}

impl Default for CameraState {
    /// The same camera `new_default` builds.
    fn default() -> (s: CameraState)
        ensures
            s == CameraState::default_spec(),
            s.wf(),
    {
        CameraState::new_default()
    }
}

/// A scroll-driven radius never lands below the configured floor, whatever
/// the scroll delta.
pub proof fn lemma_scrolled_radius_floor(radius: int, scroll: int)
    ensures
        scrolled_radius(radius, scroll) >= MIN_RADIUS,
{
}

/// A whole update step keeps the camera well-formed.
pub proof fn lemma_update_preserves_wf(
    s: CameraState,
    mx: int,
    my: int,
    scroll: int,
    w: int,
    h: int,
    locked: bool,
)
    requires
        s.wf(),
    ensures
        s.updated(mx, my, scroll, w, h, locked).wf(),
{
}

/// A frame with no pointer motion and a non-zero scroll delta moves the
/// radius and nothing else: the orientation, focus, and flags all stay as
/// they were, however the camera is gated.
pub proof fn lemma_scroll_changes_only_radius(
    s: CameraState,
    scroll: int,
    w: int,
    h: int,
    locked: bool,
)
    requires
        scroll != 0,
    ensures
        s.updated(0, 0, scroll, w, h, locked).yaw == s.yaw,
        s.updated(0, 0, scroll, w, h, locked).pitch == s.pitch,
        s.updated(0, 0, scroll, w, h, locked).focus == s.focus,
        s.updated(0, 0, scroll, w, h, locked).upside_down == s.upside_down,
        s.updated(0, 0, scroll, w, h, locked).disabled == s.disabled,
        locked ==> s.updated(0, 0, scroll, w, h, locked).radius == scrolled_radius(
            s.radius as int,
            scroll,
        ),
{
}

/// While the camera is disabled, a frame with pointer motion changes
/// nothing at all, whatever the lock flag and scroll delta.
pub proof fn lemma_disabled_gates_rotation(
    s: CameraState,
    mx: int,
    my: int,
    scroll: int,
    w: int,
    h: int,
    locked: bool,
)
    requires
        s.disabled,
        CameraState::has_motion(mx, my),
    ensures
        s.updated(mx, my, scroll, w, h, locked) == s,
{
}

/// Rotating by a pointer delta and then by its exact opposite returns the
/// orientation — and with it the whole state — to its original value.
pub proof fn lemma_rotation_round_trip(s: CameraState, mx: int, my: int, w: int, h: int)
    requires
        s.wf(),
        w > 0,
        h > 0,
    ensures
        s.rotated(mx, my, w, h).rotated(-mx, -my, w, h) == s,
{
    let once = s.rotated(mx, my, w, h);
    assert(scaled_angle(-mx, MILLI_TAU as int, w) == -scaled_angle(mx, MILLI_TAU as int, w));
    assert(scaled_angle(-my, MILLI_PI as int, h) == -scaled_angle(my, MILLI_PI as int, h));
    assert(once.yaw_delta(-mx, w) == -s.yaw_delta(mx, w));
    lemma_step_round_trip(s.yaw as int, s.yaw_delta(mx, w));
    lemma_step_round_trip(s.pitch as int, s.pitch_delta(my, h));
}

} // verus!
