//! What the library relies on of `std::time::Duration`.
use std::time::Duration;

use vstd::prelude::*;

verus! {

/// `Duration` is `Copy`; its `clone` returns the same duration.
pub assume_specification[ <Duration as Clone>::clone ](d: &Duration) -> (r: Duration)
    ensures
        r == *d,
;

} // verus!
