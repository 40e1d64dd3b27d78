//! Palette cycle-count arithmetic shared by the render and color settings.

use vstd::prelude::*;

verus! {

/// Largest number of palette cycles.
pub const MAX_CYCLE_COUNT: u32 = 1024;

/// Smallest number of palette cycles.
pub const MIN_CYCLE_COUNT: u32 = 1;

/// Cycle count after raising `count` by `amount`, capped at the maximum.
pub open spec fn spec_cycle_up_by(count: u32, amount: u32) -> u32 {
    if count + amount > MAX_CYCLE_COUNT { MAX_CYCLE_COUNT } else { (count + amount) as u32 }
}

/// Cycle count after lowering `count` by `amount`, floored at the minimum.
pub open spec fn spec_cycle_down_by(count: u32, amount: u32) -> u32 {
    if count - amount < MIN_CYCLE_COUNT { MIN_CYCLE_COUNT } else { (count - amount) as u32 }
}

/// A cycle count is valid when it lies in `1..=1024`.
pub open spec fn valid_cycle_count(n: u32) -> bool {
    MIN_CYCLE_COUNT <= n <= MAX_CYCLE_COUNT
}

/// Whether `n` is a valid cycle count.
pub fn is_valid_cycle_count(n: u32) -> (r: bool)
    ensures
        r == valid_cycle_count(n),
{
    MIN_CYCLE_COUNT <= n && n <= MAX_CYCLE_COUNT
}

/// `count + amount`, capped at 1024. The sum must fit in a `u32`.
pub fn cycle_count_up_by(count: u32, amount: u32) -> (r: u32)
    requires
        count + amount <= u32::MAX,
    ensures
        r == spec_cycle_up_by(count, amount),
{
    let sum = count + amount;
    if sum > MAX_CYCLE_COUNT {
        MAX_CYCLE_COUNT
    } else {
        sum
    }
}

/// `count - amount` (saturating at zero), floored at 1.
pub fn cycle_count_down_by(count: u32, amount: u32) -> (r: u32)
    ensures
        r == spec_cycle_down_by(count, amount),
{
    let diff = if count >= amount { count - amount } else { 0 };
    if diff < MIN_CYCLE_COUNT {
        MIN_CYCLE_COUNT
    } else {
        diff
    }
}

/// Lowering the cycle count always lands in the valid range `1..=1024`
/// from a count of at most 1024, and so does raising it unless both the
/// count and the step are zero.
pub proof fn lemma_cycle_ops_stay_valid(count: u32, amount: u32)
    requires
        count <= MAX_CYCLE_COUNT,
    ensures
        1 <= count + amount <= u32::MAX ==> valid_cycle_count(spec_cycle_up_by(count, amount)),
        valid_cycle_count(spec_cycle_down_by(count, amount)),
{
}

/// Lowering by `amount` undoes raising by `amount` when the raise did not
/// hit the cap and the starting count is valid.
pub proof fn lemma_cycle_down_undoes_up(count: u32, amount: u32)
    requires
        valid_cycle_count(count),
        count + amount <= MAX_CYCLE_COUNT,
    ensures
        spec_cycle_down_by(spec_cycle_up_by(count, amount), amount) == count,
{
}

/// Raising by `amount` undoes lowering by `amount` when the lowering did
/// not hit the floor.
pub proof fn lemma_cycle_up_undoes_down(count: u32, amount: u32)
    requires
        valid_cycle_count(count),
        count - amount >= MIN_CYCLE_COUNT,
    ensures
        spec_cycle_up_by(spec_cycle_down_by(count, amount), amount) == count,
{
}

/// Raising never lowers the count below its previous valid value and
/// lowering never raises it: both operations are monotone moves.
pub proof fn lemma_cycle_ops_monotone(count: u32, amount: u32)
    requires
        valid_cycle_count(count),
        count + amount <= u32::MAX,
    ensures
        spec_cycle_up_by(count, amount) >= count,
        spec_cycle_down_by(count, amount) <= count,
{
}

} // verus!
