//! Angles in milliradians, kept in the half-open range of one full turn.
//!
//! An orientation is stored as a yaw and a pitch angle, each normalized into
//! `[0, MILLI_TAU)`. Wrapping is Euclidean: adding or subtracting any delta
//! lands back in the range, and deltas cancel exactly.

use vstd::arithmetic::div_mod::{
    lemma_add_mod_noop_right, lemma_div_nonincreasing, lemma_fundamental_div_mod,
    lemma_fundamental_div_mod_converse_mod, lemma_small_mod,
};
use vstd::arithmetic::mul::lemma_mul_upper_bound;
use vstd::prelude::*;

use crate::units::MILLI_TAU;

verus! {

/// `a` reduced into `[0, MILLI_TAU)` by Euclidean remainder.
pub open spec fn wrap_angle(a: int) -> int {
    a % (MILLI_TAU as int)
}

/// A normalized angle: within one full turn of zero.
pub open spec fn is_turn(a: int) -> bool {
    0 <= a < MILLI_TAU
}

/// Reduces an arbitrary milliradian count into `[0, MILLI_TAU)`.
pub fn wrap_to_turn(x: i128) -> (r: i64)
    requires
        x > i128::MIN,
    ensures
        r == wrap_angle(x as int),
        is_turn(r as int),
{
    let ghost t: int = MILLI_TAU as int;
    if x >= 0 {
        let m: u128 = (x as u128) % (MILLI_TAU as u128);
        proof {
            assert(x as u128 == x as int);
            assert(m == (x as int) % t);
        }
        m as i64
    } else {
        let n: u128 = (-x) as u128;
        let m: u128 = n % (MILLI_TAU as u128);
        proof {
            assert(n == -(x as int));
            lemma_fundamental_div_mod(n as int, t);
        }
        if m == 0 {
            proof {
                let q: int = -((n as int) / t);
                assert(x as int == q * t + 0);
                lemma_fundamental_div_mod_converse_mod(x as int, t, q, 0);
            }
            0
        } else {
            proof {
                let q: int = -((n as int) / t) - 1;
                assert(x as int == q * t + (t - m));
                lemma_fundamental_div_mod_converse_mod(x as int, t, q, t - m);
            }
            (MILLI_TAU as i128 - m as i128) as i64
        }
    }
}

/// The largest magnitude `scaled_angle` can reach: a full pointer sweep of
/// `i64` milli-pixels across a one-milli-pixel viewport, in milliradians.
pub open spec fn max_scaled_angle() -> int {
    0x8000000000000000 * (MILLI_TAU as int)
}

/// A pointer sweep of `m` milli-pixels across a viewport of `span`
/// milli-pixels, as a fraction of the angle `unit`: `m * unit / span`,
/// the division truncating toward zero.
pub open spec fn scaled_angle(m: int, unit: int, span: int) -> int
    recommends
        span > 0,
{
    if m >= 0 {
        (m * unit) / span
    } else {
        -(((-m) * unit) / span)
    }
}

/// Computes `scaled_angle` exactly in machine integers.
pub fn scaled_angle_exec(m: i64, unit: i64, span: i64) -> (d: i128)
    requires
        0 <= unit <= MILLI_TAU,
        span > 0,
    ensures
        d == scaled_angle(m as int, unit as int, span as int),
        -max_scaled_angle() <= d <= max_scaled_angle(),
{
    if m >= 0 {
        proof {
            lemma_mul_upper_bound(m as int, 0x8000000000000000, unit as int, MILLI_TAU as int);
        }
        let p: u128 = (m as u128) * (unit as u128);
        let q: u128 = p / (span as u128);
        proof {
            lemma_div_nonincreasing(p as int, span as int);
        }
        q as i128
    } else {
        let nm: i128 = -(m as i128);
        proof {
            lemma_mul_upper_bound(nm as int, 0x8000000000000000, unit as int, MILLI_TAU as int);
        }
        let p: u128 = (nm as u128) * (unit as u128);
        let q: u128 = p / (span as u128);
        proof {
            lemma_div_nonincreasing(p as int, span as int);
        }
        -(q as i128)
    }
}

/// Stepping an angle by a delta: subtract, then wrap into one turn.
pub open spec fn angle_step(a: int, delta: int) -> int {
    wrap_angle(a - delta)
}

/// A normalized angle wraps to itself.
pub proof fn lemma_wrap_identity(a: int)
    requires
        is_turn(a),
    ensures
        wrap_angle(a) == a,
{
    lemma_small_mod(a as nat, MILLI_TAU as nat);
}

/// Stepping by a delta and then by its negation returns a normalized angle
/// to exactly its original value.
pub proof fn lemma_step_round_trip(a: int, delta: int)
    requires
        is_turn(a),
    ensures
        angle_step(angle_step(a, delta), -delta) == a,
{
    let t: int = MILLI_TAU as int;
    let w: int = wrap_angle(a - delta);
    assert(w == (a - delta) % t);
    lemma_add_mod_noop_right(delta, a - delta, t);
    assert((delta + (a - delta) % t) % t == (delta + (a - delta)) % t);
    assert(angle_step(w, -delta) == (w + delta) % t);
    lemma_wrap_identity(a);
}

} // verus!
