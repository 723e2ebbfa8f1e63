//! Bounding a value into a closed range.

use vstd::prelude::*;
use vstd::std_specs::cmp::PartialOrdIs;
use vstd::std_specs::cmp::PartialOrdSpec;

verus! {

/// `value` bounded into `[min, max]`, over the mathematical integers.
///
/// The upper bound is tested first: with `min > max` the result is `max` for
/// every `value` above `max` and `min` for every other `value`.
pub open spec fn clamp(min: int, max: int, value: int) -> int {
    if value > max {
        max
    } else if value < min {
        min
    } else {
        value
    }
}

/// Caps a value inside a certain range.
///
/// Returns `max` where `value > max`, else `min` where `value < min`, else
/// `value`. Nothing is asked of `min` and `max`; with `min > max` the upper
/// bound wins.
///
/// The first clause says so for every type, over the two comparisons the
/// function makes. For a type whose comparisons obey `partial_cmp_spec`, such
/// as the integers, the second clause gives the result as an expression.
#[inline]
pub fn limit_range<T>(min: T, max: T, value: T) -> (limited: T) where T: PartialOrd
    ensures
        (exists|above: bool| #[trigger]
            call_ensures(T::gt, (&value, &max), above) && if above {
                limited == max
            } else {
                exists|below: bool| #[trigger]
                    call_ensures(T::lt, (&value, &min), below) && limited == if below {
                        min
                    } else {
                        value
                    }
            }),
        T::obeys_partial_cmp_spec() ==> limited == (if value.is_gt(&max) {
            max
        } else if value.is_lt(&min) {
            min
        } else {
            value
        }),
{
    if value > max {
        max
    } else if value < min {
        min
    } else {
        value
    }
}

} // verus!
