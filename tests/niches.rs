use std::ops::RangeInclusive;

use niche_lang::niches::{remove_value_from_range, shrink_range_by, IntNiches, OkRangeShrink};
use niche_lang::util::range_values_count;

type Range = RangeInclusive<u64>;

fn shrink(range: Range, count: u64) -> Result<(Option<Range>, Option<Range>), Range> {
    let OkRangeShrink { new_range, extracted } = shrink_range_by(range, count)?;
    Ok((new_range, extracted))
}

#[test]
fn test_shrink_range_by() {
    assert_eq!(shrink(0..=0, 0), Ok((Some(0..=0), None)));
    assert_eq!(shrink(0..=0, 1), Ok((None, Some(0..=0))));
    assert_eq!(shrink(0..=0, 2), Err(0..=0));

    assert_eq!(shrink(0..=3, 0), Ok((Some(0..=3), None)));
    assert_eq!(shrink(0..=3, 2), Ok((Some(2..=3), Some(0..=1))));
    assert_eq!(shrink(0..=3, 3), Ok((Some(3..=3), Some(0..=2))));
    assert_eq!(shrink(0..=3, 4), Ok((None, Some(0..=3))));
    assert_eq!(shrink(0..=3, 5), Err(0..=3));
    assert_eq!(shrink(0..=3, 6), Err(0..=3));

    assert_eq!(shrink(0..=u64::MAX, 0), Ok((Some(0..=u64::MAX), None)));
    assert_eq!(shrink(0..=u64::MAX, 1), Ok((Some(1..=u64::MAX), Some(0..=0))));
    assert_eq!(
        shrink(0..=u64::MAX, u64::MAX - 2),
        Ok((Some((u64::MAX - 2)..=u64::MAX), Some(0..=(u64::MAX - 3))))
    );
    assert_eq!(
        shrink(0..=u64::MAX, u64::MAX - 1),
        Ok((Some((u64::MAX - 1)..=u64::MAX), Some(0..=(u64::MAX - 2))))
    );
    assert_eq!(
        shrink(0..=u64::MAX, u64::MAX),
        Ok((Some(u64::MAX..=u64::MAX), Some(0..=(u64::MAX - 1))))
    );
}

#[test]
fn test_remove_value_from_range() {
    assert_eq!(remove_value_from_range(7, 2..=5), Err(2..=5));
    assert_eq!(remove_value_from_range(0, 0..=0), Ok(None));
    assert_eq!(remove_value_from_range(1, 0..=3), Ok(Some(2..=3)));
    assert_eq!(remove_value_from_range(2, 1..=3), Ok(Some(3..=3)));
    assert_eq!(remove_value_from_range(1, 1..=3), Ok(Some(2..=3)));
    assert_eq!(remove_value_from_range(3, 1..=3), Ok(Some(1..=2)));
}

#[test]
fn test_range_values_count() {
    fn t(r: RangeInclusive<u64>, expect: Option<u64>) {
        assert_eq!(range_values_count(r), expect);
    }

    t(1..=0, Some(0));
    t(2..=0, Some(0));

    t(0..=0, Some(1));
    t(1..=1, Some(1));
    t(0..=2, Some(3));
    t(0..=(u64::MAX - 1), Some(u64::MAX));

    t(0..=u64::MAX, None);
}

#[test]
fn shrink_whole_range_by_one_takes_zero() {
    assert_eq!(shrink(0..=u64::MAX, 1), Ok((Some(1..=u64::MAX), Some(0..=0))));
}

#[test]
fn shrink_high_range_by_its_size_leaves_nothing() {
    assert_eq!(shrink(1..=u64::MAX, u64::MAX), Ok((None, Some(1..=u64::MAX))));
}

#[test]
fn shrink_empty_range_fails() {
    assert_eq!(shrink(3..=2, 0), Err(3..=2));
}

#[test]
fn remove_value_keeps_upper_side() {
    let n = IntNiches::range(0..=3);
    assert_eq!(n.remove_value(1), Ok(IntNiches { range: Some((2, 3)) }));
    let n = IntNiches::range(0..=0);
    assert_eq!(n.remove_value(0), Ok(IntNiches::none()));
    let n = IntNiches::range(2..=5);
    assert_eq!(n.remove_value(5), Ok(IntNiches { range: Some((2, 4)) }));
    assert_eq!(IntNiches::range(2..=5).remove_value(7), Err(IntNiches { range: Some((2, 5)) }));
    assert_eq!(IntNiches::none().remove_value(0), Err(IntNiches::none()));
}

#[test]
fn remove_some_values_from_low_end() {
    let n = IntNiches::range(2..=10);
    assert_eq!(
        n.remove_some_values(3),
        Ok((IntNiches { range: Some((5, 10)) }, IntNiches { range: Some((2, 4)) }))
    );
    assert_eq!(IntNiches::range(2..=3).remove_some_values(3), Err(IntNiches { range: Some((2, 3)) }));
    assert_eq!(IntNiches::none().remove_some_values(1), Err(IntNiches::none()));
    assert_eq!(
        IntNiches::range(0..=0).remove_some_values(1),
        Ok((IntNiches::none(), IntNiches { range: Some((0, 0)) }))
    );
}

#[test]
fn remove_some_values_mut_updates_in_place() {
    let mut n = IntNiches::range(0..=3);
    assert_eq!(n.remove_some_values_mut(2), Ok(IntNiches { range: Some((0, 1)) }));
    assert_eq!(n, IntNiches { range: Some((2, 3)) });
    assert_eq!(n.remove_some_values_mut(3), Err(()));
    assert_eq!(n, IntNiches { range: Some((2, 3)) });
}

#[test]
fn as_range_of_niches() {
    assert_eq!(IntNiches::range(4..=9).as_range(), Some(4..=9));
    assert_eq!(IntNiches::none().as_range(), None);
    assert_eq!(IntNiches { range: Some((5, 4)) }.as_range(), None);
}
