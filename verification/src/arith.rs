//! Arithmetic that stops at the ends of its range.

use vstd::prelude::*;

verus! {

/// The sum of two numbers, or the end of the range that it lies behind.
pub open spec fn clamped_sum(a: i128, b: i128) -> i128 {
    if a + b > i128::MAX {
        i128::MAX
    } else if a + b < i128::MIN {
        i128::MIN
    } else {
        (a + b) as i128
    }
}

/// The difference of two numbers, or the end of the range that it lies behind.
pub open spec fn clamped_difference(a: i128, b: i128) -> i128 {
    if a - b > i128::MAX {
        i128::MAX
    } else if a - b < i128::MIN {
        i128::MIN
    } else {
        (a - b) as i128
    }
}

/// Adds two numbers and stops at the ends of the range.
pub fn saturating_sum(a: i128, b: i128) -> (r: i128)
    ensures
        r == clamped_sum(a, b),
{
    match a.checked_add(b) {
        Some(r) => r,
        None => if b > 0 {
            i128::MAX
        } else {
            i128::MIN
        },
    }
}

/// Subtracts two numbers and stops at the ends of the range.
pub fn saturating_difference(a: i128, b: i128) -> (r: i128)
    ensures
        r == clamped_difference(a, b),
{
    match a.checked_sub(b) {
        Some(r) => r,
        None => if b > 0 {
            i128::MIN
        } else {
            i128::MAX
        },
    }
}

} // verus!
