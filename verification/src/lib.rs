//! Verified core of an auction-market metrics collector: per-item price and
//! volume aggregation, item-name resolution, metric-point construction, and
//! the fail-fast run state machine that sequences fetches and writes.

use vstd::prelude::*;

pub mod aggregate;
pub mod catalog;
pub mod laws;
pub mod listing;
pub mod metrics;
pub mod names;
pub mod numtext;
pub mod pipeline;
pub mod requests;
pub mod token;

verus! {

/// Saturating addition on `i64`: the exact sum clamped to the representable range.
pub open spec fn sat_add_i64(a: int, b: int) -> int {
    if a + b > i64::MAX {
        i64::MAX as int
    } else if a + b < i64::MIN {
        i64::MIN as int
    } else {
        a + b
    }
}

/// Adds two `i64` values, saturating at the numeric bounds instead of overflowing.
pub fn saturating_add_i64(a: i64, b: i64) -> (r: i64)
    ensures
        r == sat_add_i64(a as int, b as int),
{
    if b >= 0 {
        if a > i64::MAX - b {
            i64::MAX
        } else {
            a + b
        }
    } else {
        if a < i64::MIN - b {
            i64::MIN
        } else {
            a + b
        }
    }
}

} // verus!
