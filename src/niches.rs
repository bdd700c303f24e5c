use std::ops::RangeInclusive;
use vstd::prelude::*;

use crate::util::{
    is_norm_range, norm_range, range_empty, range_end, range_is_empty, range_start,
};

verus! {

/// The lower end of the bounds `(lo, hi)`, as a non-empty range, or `None`.
pub open spec fn norm_bounds(lo: int, hi: int) -> Option<(u64, u64)> {
    if lo <= hi {
        Some((lo as u64, hi as u64))
    } else {
        None
    }
}

/// Whether `count` values can be taken from `lo..=hi`.
pub open spec fn can_shrink(lo: int, hi: int, count: int) -> bool {
    lo <= hi && count <= hi - lo + 1
}

/// What is left of `lo..=hi` after one value is removed: the part above the
/// value, or the part below it where the value was the upper end.
pub open spec fn bounds_without(lo: int, hi: int, v: int) -> Option<(u64, u64)> {
    if v == hi {
        norm_bounds(lo, v - 1)
    } else {
        norm_bounds(v + 1, hi)
    }
}

/// A set of `u64` values known to be unused: empty, or one contiguous
/// inclusive range `(lo, hi)` (empty when `lo > hi`).
#[derive(Debug, PartialEq, Eq)]
pub struct IntNiches {
    pub range: Option<(u64, u64)>,
}

impl Clone for IntNiches {
    fn clone(&self) -> (r: Self)
        ensures
            r == *self,
    {
        IntNiches { range: self.range }
    }
}

impl IntNiches {
    /// The values of the set.
    pub open spec fn contains(self, v: u64) -> bool {
        self.range matches Some((lo, hi)) && lo <= v <= hi
    }

    /// The set as a normalised pair of bounds.
    pub open spec fn bounds(self) -> Option<(u64, u64)> {
        match self.range {
            Some((lo, hi)) => norm_bounds(lo as int, hi as int),
            None => None,
        }
    }

    /// The number of values in the set.
    pub open spec fn size(self) -> int {
        match self.bounds() {
            Some((lo, hi)) => hi - lo + 1,
            None => 0,
        }
    }

    /// The residual and extracted sets after taking `count` values from the
    /// low end, or `None` when there are not that many.
    pub open spec fn shrink_spec(self, count: u64) -> Option<(IntNiches, IntNiches)> {
        match self.range {
            Some((lo, hi)) => if can_shrink(lo as int, hi as int, count as int) {
                Some(
                    (
                        IntNiches { range: norm_bounds(lo + count, hi as int) },
                        IntNiches { range: norm_bounds(lo as int, lo + count - 1) },
                    ),
                )
            } else {
                None
            },
            None => None,
        }
    }

    /// The empty set.
    pub fn none() -> (r: Self)
        ensures
            r.range is None,
    {
        Self { range: None }
    }

    /// The values of `range`.
    pub fn range(range: RangeInclusive<u64>) -> (r: Self)
        ensures
            r.range == Some((range@.start, range@.end)),
    {
        Self { range: Some((range_start(&range), range_end(&range))) }
    }

    /// The set as a range, `None` when it is empty.
    pub fn as_range(&self) -> (r: Option<RangeInclusive<u64>>)
        ensures
            match self.range {
                Some((lo, hi)) => is_norm_range(r, lo as int, hi as int),
                None => r is None,
            },
    {
        match self.range {
            Some((lo, hi)) => norm_range(lo, hi),
            None => None,
        }
    }

    /// Removes `value`. `Err` holds the set unchanged where the value was not
    /// in it (an empty set comes back normalised).
    pub fn remove_value(self, value: u64) -> (r: Result<Self, Self>)
        ensures
            match self.range {
                Some((lo, hi)) => if lo <= value <= hi {
                    r == Ok::<Self, Self>(
                        IntNiches { range: bounds_without(lo as int, hi as int, value as int) },
                    )
                } else {
                    r == Err::<Self, Self>(self)
                },
                None => r == Err::<Self, Self>(IntNiches { range: None }),
            },
    {
        match self.range {
            None => Err(Self::none()),
            Some((lo, hi)) => {
                if !(lo <= value && value <= hi) {
                    Err(self)
                } else if value == hi {
                    if value == 0 {
                        Ok(Self { range: None })
                    } else {
                        Ok(Self { range: norm_pair(lo, value - 1) })
                    }
                } else {
                    Ok(Self { range: norm_pair(value + 1, hi) })
                }
            }
        }
    }

    /// Takes `count` values from the low end: `Ok((residual, extracted))`, or
    /// `Err` with the set unchanged when it holds fewer than `count` values.
    pub fn remove_some_values(self, count: u64) -> (r: Result<(Self, Self), Self>)
        ensures
            match self.shrink_spec(count) {
                Some(p) => r == Ok::<(Self, Self), Self>(p),
                None => r == Err::<(Self, Self), Self>(self),
            },
    {
        match self.range {
            None => Err(Self::none()),
            Some((lo, hi)) => match shrink_pair(lo, hi, count) {
                Some((rest, taken)) => Ok((Self { range: rest }, Self { range: taken })),
                None => Err(self),
            },
        }
    }

    /// As `remove_some_values`, in place: the set keeps the residual and the
    /// extracted values are returned; on failure the set is unchanged.
    pub fn remove_some_values_mut(&mut self, count: u64) -> (r: Result<Self, ()>)
        ensures
            match old(self).shrink_spec(count) {
                Some((rest, taken)) => r == Ok::<Self, ()>(taken) && *final(self) == rest,
                None => r is Err && *final(self) == *old(self),
            },
    {
        match self.clone().remove_some_values(count) {
            Ok((slf, extracted)) => {
                *self = slf;
                Ok(extracted)
            },
            Err(slf) => {
                *self = slf;
                Err(())
            },
        }
    }
}

/// `Some((lo, hi))` when that range is non-empty.
fn norm_pair(lo: u64, hi: u64) -> (r: Option<(u64, u64)>)
    ensures
        r == norm_bounds(lo as int, hi as int),
{
    if lo <= hi {
        Some((lo, hi))
    } else {
        None
    }
}

/// Takes `count` values from the low end of `lo..=hi`.
fn shrink_pair(lo: u64, hi: u64, count: u64) -> (r: Option<(Option<(u64, u64)>, Option<(u64, u64)>)>)
    ensures
        can_shrink(lo as int, hi as int, count as int) ==> r == Some(
            (norm_bounds(lo + count, hi as int), norm_bounds(lo as int, lo + count - 1)),
        ),
        !can_shrink(lo as int, hi as int, count as int) ==> r is None,
{
    if lo <= hi && (count == 0 || count - 1 <= hi - lo) {
        if count == 0 {
            Some((Some((lo, hi)), None))
        } else {
            let last = lo + (count - 1);
            let rest = if last == hi {
                None
            } else {
                Some((last + 1, hi))
            };
            Some((rest, Some((lo, last))))
        }
    } else {
        None
    }
}

/// The two parts of a range after values were taken from its low end.
#[derive(Debug)]
pub struct OkRangeShrink {
    pub new_range: Option<RangeInclusive<u64>>,
    pub extracted: Option<RangeInclusive<u64>>,
}

/// Takes `count` values from the low end of `range`. `Ok` holds what is left
/// and what was taken, each `None` where it is empty; `Err` returns the range
/// unchanged when it holds fewer than `count` values.
pub fn shrink_range_by(range: RangeInclusive<u64>, count: u64) -> (r: Result<
    OkRangeShrink,
    RangeInclusive<u64>,
>)
    ensures
        match r {
            Ok(s) => !range_empty(range) && count <= range@.end - range@.start + 1
                && is_norm_range(s.new_range, range@.start + count, range@.end as int)
                && is_norm_range(s.extracted, range@.start as int, range@.start + count - 1),
            Err(e) => (range_empty(range) || count > range@.end - range@.start + 1) && e == range,
        },
{
    if range_is_empty(&range) {
        return Err(range);
    }
    let start = range_start(&range);
    let end = range_end(&range);
    match shrink_pair(start, end, count) {
        Some((rest, taken)) => Ok(
            OkRangeShrink { new_range: pair_as_range(rest), extracted: pair_as_range(taken) },
        ),
        None => Err(range),
    }
}

fn pair_as_range(p: Option<(u64, u64)>) -> (r: Option<RangeInclusive<u64>>)
    requires
        p matches Some((lo, hi)) ==> lo <= hi,
    ensures
        match p {
            Some((lo, hi)) => is_norm_range(r, lo as int, hi as int),
            None => r is None,
        },
{
    match p {
        Some((lo, hi)) => norm_range(lo, hi),
        None => None,
    }
}

/// Removes `value` from `range`: `Err` returns the range unchanged when it
/// does not hold the value; otherwise what is left, keeping the part above the
/// value (the part below where the value was the upper end), `None` when
/// nothing is left.
pub fn remove_value_from_range(value: u64, range: RangeInclusive<u64>) -> (r: Result<
    Option<RangeInclusive<u64>>,
    RangeInclusive<u64>,
>)
    ensures
        match r {
            Ok(o) => !range_empty(range) && range@.start <= value <= range@.end && if value
                == range@.end {
                is_norm_range(o, range@.start as int, value - 1)
            } else {
                is_norm_range(o, value + 1, range@.end as int)
            },
            Err(e) => !(!range_empty(range) && range@.start <= value <= range@.end) && e == range,
        },
{
    if range_is_empty(&range) {
        return Err(range);
    }
    let start = range_start(&range);
    let end = range_end(&range);
    if !(start <= value && value <= end) {
        return Err(range);
    }
    if value == end {
        if value == 0 {
            Ok(None)
        } else {
            Ok(norm_range(start, value - 1))
        }
    } else {
        Ok(norm_range(value + 1, end))
    }
}

} // verus!
