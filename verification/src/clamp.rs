//! Clamping a value to a range.

use vstd::prelude::*;
use vstd::std_specs::cmp::{PartialOrdIs, PartialOrdSpec};

verus! {

/// The integer nearest to `value` that is neither below `low` nor above
/// `high`.
pub open spec fn clamped(low: int, value: int, high: int) -> int {
    if value < low {
        low
    } else if value > high {
        high
    } else {
        value
    }
}

/// Clamps a value to the range between `low` and `high`: gives `low` for a
/// value below `low`, `high` for a value above `high`, and else the value.
pub fn clamp<T: PartialOrd>(low: T, value: T, high: T) -> (out: T)
    ensures
        out == low || out == high || out == value,
        T::obeys_partial_cmp_spec() ==> out == (if value.is_lt(&low) {
            low
        } else if value.is_gt(&high) {
            high
        } else {
            value
        }),
{
    if value < low {
        low
    } else if value > high {
        high
    } else {
        value
    }
}

} // verus!
