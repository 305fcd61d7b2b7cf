//! Fixed-point scalars and small vectors.
//!
//! Every scalar in this crate is an `i64` counting thousandths of a unit
//! (milli-units): lengths in milli-world-units, angles in milliradians.

use vstd::prelude::*;

verus! {

/// One whole unit, in milli-units.
pub const MILLI: i64 = 1000;

/// The angle pi, rounded to the nearest milliradian.
pub const MILLI_PI: i64 = 3142;

/// A full turn (two pi), rounded to the nearest milliradian.
pub const MILLI_TAU: i64 = 6283;

/// The smallest orbit radius the camera may reach (0.05 units).
pub const MIN_RADIUS: i64 = 50;

/// The orbit radius a freshly built camera starts with (5 units).
pub const DEFAULT_RADIUS: i64 = 5000;

/// Player movement speed per frame (0.13 units).
pub const MOVE_SPEED: i64 = 130;

/// One scroll step shrinks the orbit radius by a fifth of itself: the shrink
/// is `scroll * radius` divided by this (`scroll` counts milli-steps).
pub const ZOOM_DIVISOR: i64 = 5 * MILLI;

/// A 2D vector of milli-unit scalars (pointer deltas, viewport sizes).
#[derive(Clone, Copy, PartialEq, Eq, Structural, Debug)]
pub struct Vec2Milli {
    pub x: i64,
    pub y: i64,
}

/// A 3D vector of milli-unit scalars (positions, displacements).
#[derive(Clone, Copy, PartialEq, Eq, Structural, Debug)]
pub struct Vec3Milli {
    pub x: i64,
    pub y: i64,
    pub z: i64,
}

impl Vec3Milli {
    /// The zero vector.
    pub open spec fn zero_spec() -> Vec3Milli {
        Vec3Milli { x: 0, y: 0, z: 0 }
    }

    /// The zero vector.
    pub fn zero() -> (v: Vec3Milli)
        ensures
            v == Vec3Milli::zero_spec(),
    {
        Vec3Milli { x: 0, y: 0, z: 0 }
    }

    /// Whether `self + other` fits the machine word on every axis.
    pub open spec fn can_add(self, other: Vec3Milli) -> bool {
        &&& i64::MIN <= self.x + other.x <= i64::MAX
        &&& i64::MIN <= self.y + other.y <= i64::MAX
        &&& i64::MIN <= self.z + other.z <= i64::MAX
    }

    /// Componentwise sum.
    pub open spec fn plus(self, other: Vec3Milli) -> Vec3Milli {
        Vec3Milli {
            x: (self.x + other.x) as i64,
            y: (self.y + other.y) as i64,
            z: (self.z + other.z) as i64,
        }
    }

    /// Componentwise sum.
    pub fn add(self, other: Vec3Milli) -> (v: Vec3Milli)
        requires
            self.can_add(other),
        ensures
            v == self.plus(other),
            v.x == self.x + other.x,
            v.y == self.y + other.y,
            v.z == self.z + other.z,
    {
        Vec3Milli { x: self.x + other.x, y: self.y + other.y, z: self.z + other.z }
    }
}

} // verus!
