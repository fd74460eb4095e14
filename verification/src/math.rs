use vstd::prelude::*;

use core::cmp::Ordering;
use vstd::std_specs::cmp::PartialOrdSpec;

verus! {

/// Bounds a value into `[min, max]` under whatever ordering `partial_cmp`
/// gives: below `min` the result is `min`, above `max` it is `max`, and
/// otherwise the value is returned unchanged.
pub fn clamp<T: PartialOrd>(input: T, min: T, max: T) -> (r: T)
    ensures
        T::obeys_partial_cmp_spec() ==> r == (if input.partial_cmp_spec(&min) == Some(
            Ordering::Less,
        ) {
            min
        } else if input.partial_cmp_spec(&max) == Some(Ordering::Greater) {
            max
        } else {
            input
        }),
{
    if input < min {
        min
    } else if input > max {
        max
    } else {
        input
    }
}

} // verus!
