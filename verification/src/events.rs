//! Per-frame input accumulation.
//!
//! The host delivers pointer-motion and scroll-wheel events as lists; one
//! frame's input is their componentwise sum. The sums are computed in wide
//! integers, and a frame whose sum cannot be represented in a machine word
//! is reported rather than wrapped.

use vstd::prelude::*;

use crate::units::Vec2Milli;

verus! {

/// The sum of the `x` components of a list of pointer deltas.
pub open spec fn sum_x(s: Seq<Vec2Milli>) -> int
    decreases s.len(),
{
    if s.len() == 0 {
        0
    } else {
        sum_x(s.drop_last()) + s.last().x
    }
}

/// The sum of the `y` components of a list of pointer deltas.
pub open spec fn sum_y(s: Seq<Vec2Milli>) -> int
    decreases s.len(),
{
    if s.len() == 0 {
        0
    } else {
        sum_y(s.drop_last()) + s.last().y
    }
}

/// The sum of a list of scroll deltas.
pub open spec fn sum_scroll(s: Seq<i64>) -> int
    decreases s.len(),
{
    if s.len() == 0 {
        0
    } else {
        sum_scroll(s.drop_last()) + s.last()
    }
}

/// Whether a mathematical sum fits a machine word.
pub open spec fn fits_i64(v: int) -> bool {
    i64::MIN <= v <= i64::MAX
}

/// Sums a frame's pointer-motion events. Returns the accumulated delta, or
/// `None` exactly when some component's sum overflows a machine word.
pub fn accumulate_motion(events: &Vec<Vec2Milli>) -> (r: Option<Vec2Milli>)
    ensures
        match r {
            Some(v) => {
                &&& v.x == sum_x(events@)
                &&& v.y == sum_y(events@)
            },
            None => !(fits_i64(sum_x(events@)) && fits_i64(sum_y(events@))),
        },
{
    let mut ax: i128 = 0;
    let mut ay: i128 = 0;
    let mut i: usize = 0;
    while i < events.len()
        invariant
            i <= events.len(),
            ax == sum_x(events@.take(i as int)),
            ay == sum_y(events@.take(i as int)),
            -(i as int) * 0x8000000000000000 <= ax <= (i as int) * 0x7fffffffffffffff,
            -(i as int) * 0x8000000000000000 <= ay <= (i as int) * 0x7fffffffffffffff,
        decreases events.len() - i,
    {
        let e = events[i];
        proof {
            assert(events@.take(i as int + 1).drop_last() =~= events@.take(i as int));
            assert(events@.take(i as int + 1).last() == events@[i as int]);
        }
        ax = ax + e.x as i128;
        ay = ay + e.y as i128;
        i = i + 1;
    }
    proof {
        assert(events@.take(events@.len() as int) =~= events@);
    }
    if i64::MIN as i128 <= ax && ax <= i64::MAX as i128 && i64::MIN as i128 <= ay && ay
        <= i64::MAX as i128 {
        Some(Vec2Milli { x: ax as i64, y: ay as i64 })
    } else {
        None
    }
}

/// Sums a frame's scroll-wheel events. Returns the accumulated delta, or
/// `None` exactly when the sum overflows a machine word.
pub fn accumulate_scroll(events: &Vec<i64>) -> (r: Option<i64>)
    ensures
        match r {
            Some(v) => v == sum_scroll(events@),
            None => !fits_i64(sum_scroll(events@)),
        },
{
    let mut acc: i128 = 0;
    let mut i: usize = 0;
    while i < events.len()
        invariant
            i <= events.len(),
            acc == sum_scroll(events@.take(i as int)),
            -(i as int) * 0x8000000000000000 <= acc <= (i as int) * 0x7fffffffffffffff,
        decreases events.len() - i,
    {
        let e = events[i];
        proof {
            assert(events@.take(i as int + 1).drop_last() =~= events@.take(i as int));
            assert(events@.take(i as int + 1).last() == events@[i as int]);
        }
        acc = acc + e as i128;
        i = i + 1;
    }
    proof {
        assert(events@.take(events@.len() as int) =~= events@);
    }
    if i64::MIN as i128 <= acc && acc <= i64::MAX as i128 {
        Some(acc as i64)
    } else {
        None
    }
}

} // verus!
