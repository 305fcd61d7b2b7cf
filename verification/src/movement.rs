//! Keyboard-driven player movement.
//!
//! Four held keys each pull one unit along one of two ground axes; the sum
//! is scaled by a fixed speed and added to the player's position (and to the
//! camera's focus, so the orbit follows the player). Opposite keys cancel,
//! and diagonals are deliberately not normalized.

use vstd::prelude::*;

use crate::camera::CameraState;
use crate::units::{Vec3Milli, MOVE_SPEED};

verus! {

/// Which of the four movement keys are held this frame.
#[derive(Clone, Copy, PartialEq, Eq, Structural, Debug)]
pub struct MoveKeys {
    /// Pulls toward negative z.
    pub forward: bool,
    /// Pulls toward positive z.
    pub back: bool,
    /// Pulls toward negative x.
    pub left: bool,
    /// Pulls toward positive x.
    pub right: bool,
}

/// A held key counts one unit; a released key counts nothing.
pub open spec fn key_unit(held: bool) -> int {
    if held {
        1
    } else {
        0
    }
}

/// The displacement one frame of held keys produces: per-axis unit
/// contributions, scaled by the fixed speed. Nothing moves vertically.
pub open spec fn displacement_of(keys: MoveKeys) -> Vec3Milli {
    Vec3Milli {
        x: ((key_unit(keys.right) - key_unit(keys.left)) * MOVE_SPEED) as i64,
        y: 0,
        z: ((key_unit(keys.back) - key_unit(keys.forward)) * MOVE_SPEED) as i64,
    }
}

/// Computes `displacement_of` exactly.
pub fn displacement(keys: &MoveKeys) -> (d: Vec3Milli)
    ensures
        d == displacement_of(*keys),
{
    let mut x: i64 = 0;
    let mut z: i64 = 0;
    if keys.forward {
        z = z - 1;
    }
    if keys.back {
        z = z + 1;
    }
    if keys.left {
        x = x - 1;
    }
    if keys.right {
        x = x + 1;
    }
    Vec3Milli { x: x * MOVE_SPEED, y: 0, z: z * MOVE_SPEED }
}

/// The player: a position in the world.
#[derive(Clone, Copy, PartialEq, Eq, Structural, Debug)]
pub struct PlayerState {
    /// The player's world-space position.
    pub position: Vec3Milli,
}

impl PlayerState {
    /// A player standing at the origin.
    pub fn new() -> (p: PlayerState)
        ensures
            p.position == Vec3Milli::zero_spec(),
    {
        PlayerState { position: Vec3Milli::zero() }
    }
}

/// One frame of movement: the displacement the held keys produce is added
/// to the player's position and to the camera's focus, so the orbit camera
/// keeps following the player. The rest of the camera is untouched.
pub fn move_step(keys: &MoveKeys, player: &mut PlayerState, camera: &mut CameraState)
    requires
        old(player).position.can_add(displacement_of(*keys)),
        old(camera).focus.can_add(displacement_of(*keys)),
    ensures
        final(player).position == old(player).position.plus(displacement_of(*keys)),
        *final(camera) == (CameraState {
            focus: old(camera).focus.plus(displacement_of(*keys)),
            ..*old(camera)
        }),
{
    let d = displacement(keys);
    player.position = player.position.add(d);
    camera.translate_focus(d);
}

/// Each axis is independent: the displacement is always the per-axis unit
/// sum times the fixed speed, nothing moves vertically, and holding both
/// keys of one axis cancels that axis to zero.
pub proof fn lemma_axes_independent(keys: MoveKeys)
    ensures
        displacement_of(keys).x == (key_unit(keys.right) - key_unit(keys.left)) * MOVE_SPEED,
        displacement_of(keys).y == 0,
        displacement_of(keys).z == (key_unit(keys.back) - key_unit(keys.forward)) * MOVE_SPEED,
        keys.left == keys.right ==> displacement_of(keys).x == 0,
        keys.forward == keys.back ==> displacement_of(keys).z == 0,
{
}

} // verus!
