//! The same access for a vector: a view of its current contents, clipped.

use crate::shape::{RangeShape, Shaped};
use crate::slices::{Clip, ClipSlice};
use core::ops::{Range, RangeFrom, RangeFull, RangeTo};
use vstd::prelude::*;

verus! {

/// Clipped access to the contents of a vector by a range of kind `R`.
pub trait ClipAsSlice<T, R: Shaped> {
    /// The part that `range` selects of what `vec` holds at the time of the
    /// call.
    fn by_as_slice<'t>(vec: &'t Vec<T>, range: R) -> (out: &'t [T])
        requires
            range.shape().in_order(vec@.len()),
        ensures
            out@ == range.shape().select(vec@),
    ;

    /// The same part of `vec`, for writing. Once the caller is done with it,
    /// `vec` holds what was written in place of the selected elements, and
    /// its other elements as they were.
    fn by_as_mut_slice<'t>(vec: &'t mut Vec<T>, range: R) -> (out: &'t mut [T])
        requires
            range.shape().in_order(old(vec)@.len()),
        ensures
            out@ == range.shape().select(old(vec)@),
            final(vec)@ == range.shape().replace(old(vec)@, final(out)@),
    ;
}

impl<T> ClipAsSlice<T, Range<isize>> for Clip {
    fn by_as_slice<'t>(vec: &'t Vec<T>, range: Range<isize>) -> (out: &'t [T]) {
        let slice = vec.as_slice();
        Clip::by(&*slice, range)
    }

    fn by_as_mut_slice<'t>(vec: &'t mut Vec<T>, range: Range<isize>) -> (out: &'t mut [T]) {
        let slice = vec.as_mut_slice();
        Clip::mut_by(slice, range)
    }
}

impl<T> ClipAsSlice<T, RangeFrom<isize>> for Clip {
    fn by_as_slice<'t>(vec: &'t Vec<T>, range: RangeFrom<isize>) -> (out: &'t [T]) {
        let slice = vec.as_slice();
        Clip::by(&*slice, range)
    }

    fn by_as_mut_slice<'t>(vec: &'t mut Vec<T>, range: RangeFrom<isize>) -> (out: &'t mut [T]) {
        let slice = vec.as_mut_slice();
        Clip::mut_by(slice, range)
    }
}

impl<T> ClipAsSlice<T, RangeTo<isize>> for Clip {
    fn by_as_slice<'t>(vec: &'t Vec<T>, range: RangeTo<isize>) -> (out: &'t [T]) {
        let slice = vec.as_slice();
        Clip::by(&*slice, range)
    }

    fn by_as_mut_slice<'t>(vec: &'t mut Vec<T>, range: RangeTo<isize>) -> (out: &'t mut [T]) {
        let slice = vec.as_mut_slice();
        Clip::mut_by(slice, range)
    }
}

impl<T> ClipAsSlice<T, RangeFull> for Clip {
    fn by_as_slice<'t>(vec: &'t Vec<T>, range: RangeFull) -> (out: &'t [T])
        ensures
            out@ == vec@,
    {
        let slice = vec.as_slice();
        Clip::by(&*slice, range)
    }

    fn by_as_mut_slice<'t>(vec: &'t mut Vec<T>, range: RangeFull) -> (out: &'t mut [T])
        ensures
            out@ == old(vec)@,
            final(vec)@ == final(out)@,
    {
        let slice = vec.as_mut_slice();
        Clip::mut_by(slice, range)
    }
}

impl<T> ClipAsSlice<T, RangeShape> for Clip {
    fn by_as_slice<'t>(vec: &'t Vec<T>, range: RangeShape) -> (out: &'t [T])
        ensures
            range is Full ==> out@ == vec@,
    {
        let slice = vec.as_slice();
        Clip::by(&*slice, range)
    }

    fn by_as_mut_slice<'t>(vec: &'t mut Vec<T>, range: RangeShape) -> (out: &'t mut [T])
        ensures
            range is Full ==> out@ == old(vec)@ && final(vec)@ == final(out)@,
    {
        let slice = vec.as_mut_slice();
        Clip::mut_by(slice, range)
    }
}

} // verus!
