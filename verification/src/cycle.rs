//! Positions in a cycle of steps that repeats with a period.
//!
//! A cycle stores, for each of its steps after the first, the interval from
//! the start of the cycle, and last the period. Steps are counted from the
//! reference in both directions, so a step is found by its lap and its
//! place in the lap. `locate` finds it; the lemmas show that what it finds
//! is the cycle laid end to end, and that it repeats by the period.

use vstd::prelude::*;
use vstd::arithmetic::div_mod::{
    lemma_div_plus_one, lemma_fundamental_div_mod, lemma_fundamental_div_mod_converse,
    lemma_mod_add_multiples_vanish, lemma_mod_bound,
};

verus! {

/// Where a step lies relative to the reference of a cyclic tuning.
#[derive(Clone, Copy, Debug, PartialEq, Eq, Structural)]
pub enum CyclePosition {
    /// The cycle is empty, so the step sounds the reference itself.
    Origin,
    /// A whole number of periods away from the reference.
    Boundary { periods: i32 },
    /// `periods` periods away, then up by the interval stored at `degree`.
    Above { periods: i32, degree: usize },
    /// `periods` periods away, then up by the interval stored at `degree`
    /// and down by one period.
    Below { periods: i32, degree: usize },
}

impl CyclePosition {
    /// The distance from the reference, for exact sizes `cents` of the
    /// stored intervals, the last of which is the period.
    pub open spec fn offset(self, cents: Seq<int>) -> int {
        match self {
            CyclePosition::Origin => 0,
            CyclePosition::Boundary { periods } => periods * cents.last(),
            CyclePosition::Above { periods, degree } => periods * cents.last() + cents[
                degree as int],
            CyclePosition::Below { periods, degree } => periods * cents.last() + (cents[
                degree as int] - cents.last()),
        }
    }
}

/// The position of `step` in a cycle of `len` stored intervals.
///
/// With `lap` the floor of `step / len` and `degree` the remainder in
/// `0..len`, a step on a lap's start is a boundary, a step after the
/// reference counts up from its own lap's start, and a step before the
/// reference counts down from the start of the lap after its own.
pub open spec fn position_of(len: nat, step: int) -> CyclePosition {
    if len == 0 {
        CyclePosition::Origin
    } else if step % (len as int) == 0 {
        CyclePosition::Boundary { periods: (step / (len as int)) as i32 }
    } else if step > 0 {
        CyclePosition::Above {
            periods: (step / (len as int)) as i32,
            degree: (step % (len as int) - 1) as usize,
        }
    } else {
        CyclePosition::Below {
            periods: (step / (len as int) + 1) as i32,
            degree: (step % (len as int) - 1) as usize,
        }
    }
}

/// Whether a position names an interval that a cycle of `len` stored
/// intervals holds.
pub open spec fn in_cycle(pos: CyclePosition, len: nat) -> bool {
    match pos {
        CyclePosition::Origin => len == 0,
        CyclePosition::Boundary { .. } => len > 0,
        CyclePosition::Above { degree, .. } => degree < len,
        CyclePosition::Below { degree, .. } => degree < len,
    }
}

/// Finds the position of `step` in a cycle of `len` stored intervals.
pub fn locate(len: usize, step: i32) -> (pos: CyclePosition)
    ensures
        pos == position_of(len as nat, step as int),
        in_cycle(pos, len as nat),
{
    if len == 0 {
        return CyclePosition::Origin;
    }
    proof {
        lemma_quotient_fits(step as int, len as int);
    }
    if step >= 0 {
        let ahead: usize = step as usize;
        let laps: usize = ahead / len;
        let rem: usize = ahead % len;
        if rem == 0 {
            CyclePosition::Boundary { periods: laps as i32 }
        } else {
            CyclePosition::Above { periods: laps as i32, degree: rem - 1 }
        }
    } else {
        let back: usize = (-(step as i64)) as usize;
        let laps: usize = back / len;
        let rem: usize = back % len;
        proof {
            lemma_division_of_negative(step as int, len as int);
        }
        let periods: i32 = (-(laps as i64)) as i32;
        if rem == 0 {
            CyclePosition::Boundary { periods }
        } else {
            CyclePosition::Below { periods, degree: len - rem - 1 }
        }
    }
}

/// The distance from the reference at `step` when the cycle is laid end to
/// end: every lap adds the period, which is the last of `cents`, and inside
/// a lap the interval stored before the step's place is added, nothing at
/// the lap's start.
pub open spec fn layout_offset(cents: Seq<int>, step: int) -> int {
    if cents.len() == 0 {
        0
    } else {
        let lap = step / (cents.len() as int);
        let place = step % (cents.len() as int);
        lap * cents.last() + if place == 0 {
            0
        } else {
            cents[place - 1]
        }
    }
}

/// What one step up from `place` in the cycle adds: the interval stored for
/// the next place, less the one stored for `place` itself, which is nothing
/// at the start of the cycle.
pub open spec fn rise(cents: Seq<int>, place: int) -> int {
    cents[place] - if place == 0 {
        0
    } else {
        cents[place - 1]
    }
}

/// The distance from the reference at `step`, found by walking there one
/// step at a time, up from step 0 or down from it, through the cycle
/// repeated without end.
pub open spec fn walked_offset(cents: Seq<int>, step: int) -> int
    decreases
            if step >= 0 {
                step
            } else {
                -step
            },
{
    if cents.len() == 0 || step == 0 {
        0
    } else if step > 0 {
        walked_offset(cents, step - 1) + rise(cents, (step - 1) % (cents.len() as int))
    } else {
        walked_offset(cents, step + 1) - rise(cents, step % (cents.len() as int))
    }
}

/// Division of a negative `step` by way of its magnitude: the quotient of
/// the magnitude is that of `step` negated, less one wherever `len` does not
/// divide `step`, and its remainder is then what the remainder of `step`
/// lacks to `len`.
proof fn lemma_division_of_negative(step: int, len: int)
    requires
        len > 0,
        step < 0,
    ensures
        step % len == 0 ==> (-step) % len == 0 && (-step) / len == -(step / len),
        step % len != 0 ==> (-step) % len == len - step % len && (-step) / len == -(step / len)
            - 1,
{
    let q = (-step) / len;
    let r = (-step) % len;
    lemma_fundamental_div_mod(-step, len);
    lemma_mod_bound(-step, len);
    if r == 0 {
        assert(step == (-q) * len + 0) by (nonlinear_arith)
            requires
                -step == len * q + r,
                r == 0,
        ;
        lemma_fundamental_div_mod_converse(step, len, -q, 0);
    } else {
        assert(step == (-q - 1) * len + (len - r)) by (nonlinear_arith)
            requires
                -step == len * q + r,
        ;
        lemma_fundamental_div_mod_converse(step, len, -q - 1, len - r);
    }
}

/// The quotient of a step by a positive `len` lies between the step and 0,
/// and the remainder below `len`.
proof fn lemma_quotient_fits(step: int, len: int)
    requires
        len > 0,
    ensures
        0 <= step % len < len,
        step >= 0 ==> 0 <= step / len <= step,
        step < 0 ==> step <= step / len < 0,
        step == 0 ==> step % len == 0,
{
    let q = step / len;
    let r = step % len;
    lemma_mod_bound(step, len);
    lemma_fundamental_div_mod(step, len);
    assert(step >= 0 ==> 0 <= q <= step) by (nonlinear_arith)
        requires
            step == len * q + r,
            0 <= r < len,
    ;
    assert(step < 0 ==> step <= q < 0) by (nonlinear_arith)
        requires
            step == len * q + r,
            0 <= r < len,
    ;
    if step == 0 {
        assert(len * 0 == 0);
    }
}

/// Every position that `position_of` gives names an interval of the cycle.
pub proof fn lemma_position_in_cycle(len: nat, step: int)
    requires
        len <= usize::MAX,
        i32::MIN <= step <= i32::MAX,
    ensures
        in_cycle(position_of(len, step), len),
{
    if len > 0 {
        lemma_quotient_fits(step, len as int);
    }
}

/// The position found for a step lies as far from the reference as the
/// step does in the cycle laid end to end, and so as far as walking there
/// step by step leads, whatever the exact sizes of the stored intervals
/// are.
pub proof fn lemma_position_follows_layout(cents: Seq<int>, step: int)
    requires
        cents.len() <= usize::MAX,
        i32::MIN <= step <= i32::MAX,
    ensures
        position_of(cents.len(), step).offset(cents) == layout_offset(cents, step),
        position_of(cents.len(), step).offset(cents) == walked_offset(cents, step),
{
    lemma_layout_is_walked(cents, step);
    let len = cents.len() as int;
    if len > 0 {
        lemma_quotient_fits(step, len);
        let lap = step / len;
        let place = step % len;
        let period = cents.last();
        if place != 0 && step < 0 {
            assert((lap + 1) * period + (cents[place - 1] - period) == lap * period + cents[place
                - 1]) by (nonlinear_arith);
        }
    }
}

/// One lap further, the cycle laid end to end is one period further from
/// the reference.
pub proof fn lemma_layout_periodic(cents: Seq<int>, step: int)
    requires
        cents.len() > 0,
    ensures
        layout_offset(cents, step + cents.len()) == layout_offset(cents, step) + cents.last(),
{
    let len = cents.len() as int;
    let lap = step / len;
    let period = cents.last();
    lemma_div_plus_one(step, len);
    lemma_mod_add_multiples_vanish(step, len);
    assert((step + len) / len == lap + 1);
    assert((step + len) % len == step % len);
    assert((lap + 1) * period == lap * period + period) by (nonlinear_arith);
}

/// One step further, the cycle laid end to end is further from the
/// reference by what that step adds.
pub proof fn lemma_layout_step(cents: Seq<int>, step: int)
    requires
        cents.len() > 0,
    ensures
        layout_offset(cents, step + 1) == layout_offset(cents, step) + rise(
            cents,
            step % (cents.len() as int),
        ),
{
    let len = cents.len() as int;
    let lap = step / len;
    let place = step % len;
    let period = cents.last();
    lemma_fundamental_div_mod(step, len);
    lemma_mod_bound(step, len);
    if place < len - 1 {
        lemma_fundamental_div_mod_converse(step + 1, len, lap, place + 1);
    } else {
        assert(step + 1 == (lap + 1) * len + 0) by (nonlinear_arith)
            requires
                step == len * lap + place,
                place == len - 1,
        ;
        lemma_fundamental_div_mod_converse(step + 1, len, lap + 1, 0);
        assert((lap + 1) * period == lap * period + period) by (nonlinear_arith);
    }
}

/// The cycle laid end to end is the cycle walked through step by step.
pub proof fn lemma_layout_is_walked(cents: Seq<int>, step: int)
    ensures
        layout_offset(cents, step) == walked_offset(cents, step),
    decreases
            if step >= 0 {
                step
            } else {
                -step
            },
{
    if cents.len() > 0 {
        if step == 0 {
            lemma_quotient_fits(0, cents.len() as int);
            assert(0 * cents.last() == 0);
        } else if step > 0 {
            lemma_layout_is_walked(cents, step - 1);
            lemma_layout_step(cents, step - 1);
        } else {
            lemma_layout_is_walked(cents, step + 1);
            lemma_layout_step(cents, step);
        }
    }
}

/// Periodicity: the step one cycle length after `step` is found one period
/// further from the reference than `step`, for negative steps as for
/// positive ones and whatever the exact sizes of the stored intervals are.
pub proof fn lemma_position_periodic(cents: Seq<int>, step: int)
    requires
        0 < cents.len() <= usize::MAX,
        i32::MIN <= step,
        step + cents.len() <= i32::MAX,
    ensures
        position_of(cents.len(), step + cents.len()).offset(cents) == position_of(
            cents.len(),
            step,
        ).offset(cents) + cents.last(),
{
    lemma_position_follows_layout(cents, step);
    lemma_position_follows_layout(cents, step + cents.len());
    lemma_layout_periodic(cents, step);
}

/// Step 0 is found at the reference itself.
pub proof fn lemma_position_of_reference(cents: Seq<int>)
    requires
        cents.len() <= usize::MAX,
    ensures
        position_of(cents.len(), 0).offset(cents) == 0,
{
    if cents.len() > 0 {
        lemma_quotient_fits(0, cents.len() as int);
        assert(0 * cents.last() == 0);
    }
}

} // verus!
