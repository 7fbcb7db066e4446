//! Small shared helpers: saturating arithmetic with exact specifications,
//! and cloning of optional strings with a proved result.

use vstd::prelude::*;

verus! {

/// `a + b`, clamped to `u64::MAX`.
pub open spec fn sat_add(a: u64, b: u64) -> u64 {
    if a + b > u64::MAX {
        u64::MAX
    } else {
        (a + b) as u64
    }
}

/// `a - b`, clamped to zero.
pub open spec fn sat_sub(a: u64, b: u64) -> u64 {
    if a >= b {
        (a - b) as u64
    } else {
        0
    }
}

/// Saturating addition on `u64`.
pub fn sat_add_u64(a: u64, b: u64) -> (r: u64)
    ensures
        r == sat_add(a, b),
{
    if a > u64::MAX - b {
        u64::MAX
    } else {
        a + b
    }
}

/// Saturating subtraction on `u64`.
pub fn sat_sub_u64(a: u64, b: u64) -> (r: u64)
    ensures
        r == sat_sub(a, b),
{
    if a >= b {
        a - b
    } else {
        0
    }
}

/// Clones an optional string; the copy equals the source value.
pub fn clone_opt_string(o: &Option<String>) -> (r: Option<String>)
    ensures
        r == *o,
{
    match o {
        Some(s) => Some(s.clone()),
        None => None,
    }
}

} // verus!
