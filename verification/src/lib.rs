//! A verified core for a third-person camera rig: an orbit camera driven by
//! pointer motion and scroll wheel, keyboard-driven player movement, and
//! cursor-capture decisions. All scalars are fixed-point integers in
//! thousandths (milli-units), so every update is exact and provable.

pub mod angle;
pub mod camera;
pub mod cursor;
pub mod events;
pub mod movement;
pub mod units;
