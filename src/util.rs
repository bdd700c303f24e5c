use std::ops::RangeInclusive;
use vstd::prelude::*;

verus! {

/// A range of `u64` is empty when it has been used up by iteration or its
/// start lies past its end.
pub open spec fn range_empty(r: RangeInclusive<u64>) -> bool {
    r@.exhausted || r@.start > r@.end
}

/// `o` is the range `lo..=hi` when that is non-empty, and `None` otherwise.
pub open spec fn is_norm_range(o: Option<RangeInclusive<u64>>, lo: int, hi: int) -> bool {
    if lo <= hi {
        o matches Some(r) && r@.start == lo && r@.end == hi && !r@.exhausted
    } else {
        o is None
    }
}

/// The number of values in `r`, where it fits in a `u64`.
pub open spec fn range_count(r: RangeInclusive<u64>) -> Option<u64> {
    if range_empty(r) {
        Some(0)
    } else if r@.end - r@.start + 1 <= u64::MAX {
        Some((r@.end - r@.start + 1) as u64)
    } else {
        None
    }
}

/// Relies on `RangeInclusive::start`: the lower bound the range was made with.
#[verifier::external_body]
pub(crate) fn range_start(r: &RangeInclusive<u64>) -> (s: u64)
    ensures
        s == r@.start,
{
    *r.start()
}

/// Relies on `RangeInclusive::end`: the upper bound the range was made with.
#[verifier::external_body]
pub(crate) fn range_end(r: &RangeInclusive<u64>) -> (e: u64)
    ensures
        e == r@.end,
{
    *r.end()
}

/// Relies on `RangeInclusive::is_empty`: true when the start lies past the
/// end, or when iteration has used the range up.
#[verifier::external_body]
pub(crate) fn range_is_empty(r: &RangeInclusive<u64>) -> (b: bool)
    ensures
        b == range_empty(*r),
{
    r.is_empty()
}

/// Builds `lo..=hi` when it is non-empty.
pub(crate) fn norm_range(lo: u64, hi: u64) -> (r: Option<RangeInclusive<u64>>)
    ensures
        is_norm_range(r, lo as int, hi as int),
{
    if lo <= hi {
        Some(RangeInclusive::new(lo, hi))
    } else {
        None
    }
}

/// The number of values in `r`, or `None` when that number does not fit in a
/// `u64` (only for `0..=u64::MAX`).
pub fn range_values_count(r: RangeInclusive<u64>) -> (c: Option<u64>)
    ensures
        c == range_count(r),
{
    if range_is_empty(&r) {
        Some(0)
    } else {
        let start = range_start(&r);
        let end = range_end(&r);
        let d = end - start;
        if d < u64::MAX {
            Some(d + 1)
        } else {
            None
        }
    }
}

} // verus!
