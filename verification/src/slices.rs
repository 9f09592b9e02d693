//! Sub-slices of a slice, read-only and mutable, by each shape of range.

use crate::bound::clip;
use crate::shape::{RangeShape, Shaped};
use core::ops::{Range, RangeFrom, RangeFull, RangeTo};
use vstd::prelude::*;

verus! {

/// The type on which the clipping functions are found: `Clip::by`,
/// `Clip::mut_by`, `Clip::by_as_slice` and `Clip::by_as_mut_slice`.
pub struct Clip;

/// Clipped access to a slice by a range of kind `R`.
pub trait ClipSlice<T, R: Shaped> {
    /// The part of `sl` that `range` selects. A negative endpoint counts
    /// back from the end of the slice, and an endpoint outside the slice is
    /// clamped to it.
    fn by<'t>(sl: &'t [T], range: R) -> (out: &'t [T])
        requires
            range.shape().in_order(sl@.len()),
        ensures
            out@ == range.shape().select(sl@),
    ;

    /// The same part of `sl` as `by` gives, for writing. Once the caller is
    /// done with it, `sl` holds what was written in place of the selected
    /// elements, and its other elements as they were.
    fn mut_by<'t>(sl: &'t mut [T], range: R) -> (out: &'t mut [T])
        requires
            range.shape().in_order(old(sl)@.len()),
        ensures
            out@ == range.shape().select(old(sl)@),
            final(sl)@ == range.shape().replace(old(sl)@, final(out)@),
    ;
}

/// The elements of `sl` from `start` up to `end`, for writing; the elements
/// around them stay as they are.
fn between_mut<'t, T>(sl: &'t mut [T], start: usize, end: usize) -> (out: &'t mut [T])
    requires
        start <= end <= old(sl)@.len(),
    ensures
        out@ == old(sl)@.subrange(start as int, end as int),
        final(sl)@ == old(sl)@.subrange(0, start as int) + final(out)@ + old(sl)@.subrange(
            end as int,
            old(sl)@.len() as int,
        ),
{
    let (front, _) = sl.split_at_mut(end);
    let (_, kept) = front.split_at_mut(start);
    kept
}

impl<T> ClipSlice<T, Range<isize>> for Clip {
    fn by<'t>(sl: &'t [T], range: Range<isize>) -> (out: &'t [T]) {
        let len: usize = sl.len();
        let start: usize = clip(range.start, len);
        let end: usize = clip(range.end, len);
        &sl[start..end]
    }

    fn mut_by<'t>(sl: &'t mut [T], range: Range<isize>) -> (out: &'t mut [T]) {
        let len: usize = sl.len();
        let start: usize = clip(range.start, len);
        let end: usize = clip(range.end, len);
        between_mut(sl, start, end)
    }
}

impl<T> ClipSlice<T, RangeFrom<isize>> for Clip {
    fn by<'t>(sl: &'t [T], range: RangeFrom<isize>) -> (out: &'t [T]) {
        let len: usize = sl.len();
        let start: usize = clip(range.start, len);
        &sl[start..len]
    }

    fn mut_by<'t>(sl: &'t mut [T], range: RangeFrom<isize>) -> (out: &'t mut [T]) {
        let len: usize = sl.len();
        let start: usize = clip(range.start, len);
        between_mut(sl, start, len)
    }
}

impl<T> ClipSlice<T, RangeTo<isize>> for Clip {
    fn by<'t>(sl: &'t [T], range: RangeTo<isize>) -> (out: &'t [T]) {
        let len: usize = sl.len();
        let end: usize = clip(range.end, len);
        &sl[0..end]
    }

    fn mut_by<'t>(sl: &'t mut [T], range: RangeTo<isize>) -> (out: &'t mut [T]) {
        let len: usize = sl.len();
        let end: usize = clip(range.end, len);
        between_mut(sl, 0, end)
    }
}

impl<T> ClipSlice<T, RangeFull> for Clip {
    fn by<'t>(sl: &'t [T], _range: RangeFull) -> (out: &'t [T])
        ensures
            out@ == sl@,
    {
        sl
    }

    fn mut_by<'t>(sl: &'t mut [T], _range: RangeFull) -> (out: &'t mut [T])
        ensures
            out@ == old(sl)@,
            final(sl)@ == final(out)@,
    {
        sl
    }
}

impl<T> ClipSlice<T, RangeShape> for Clip {
    fn by<'t>(sl: &'t [T], range: RangeShape) -> (out: &'t [T])
        ensures
            range is Full ==> out@ == sl@,
    {
        let (start, end) = range.bounds(sl.len());
        &sl[start..end]
    }

    fn mut_by<'t>(sl: &'t mut [T], range: RangeShape) -> (out: &'t mut [T])
        ensures
            range is Full ==> out@ == old(sl)@ && final(sl)@ == final(out)@,
    {
        let (start, end) = range.bounds(sl.len());
        between_mut(sl, start, end)
    }
}

} // verus!
