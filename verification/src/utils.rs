//! Small general helpers.

use vstd::prelude::*;

verus! {

/// Returns `true_case` when `condition` is true, otherwise `false_case`.
pub fn select<T>(true_case: T, false_case: T, condition: bool) -> (chosen: T)
    ensures
        chosen == if condition {
            true_case
        } else {
            false_case
        },
{
    if condition {
        true_case
    } else {
        false_case
    }
}

} // verus!
