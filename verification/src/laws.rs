//! What holds of clipping and of the selections, for every endpoint, every
//! shape and every sequence.

use crate::bound::clip_bound;
use crate::shape::RangeShape;
use vstd::prelude::*;

verus! {

/// A clipped endpoint is a bound on the sequence: it never exceeds the
/// length. The endpoint zero is the front, and an endpoint at or past the
/// length is the end.
pub proof fn clip_bound_within(pos: int, len: nat)
    ensures
        0 <= clip_bound(pos, len) <= len,
        clip_bound(0, len) == 0,
        pos >= len ==> clip_bound(pos, len) == len,
{
}

/// Counting back by the whole length, or by more, stops at the front.
pub proof fn clip_bound_far_back(pos: int, len: nat)
    requires
        pos <= -len,
    ensures
        clip_bound(pos, len) == 0,
        clip_bound(-len, len) == 0,
{
}

/// Both bounds of every shape lie within the sequence, and only a bounded
/// range can have its start behind its end.
pub proof fn bounds_stay_within(shape: RangeShape, len: nat)
    ensures
        shape.start_bound(len) <= len,
        shape.end_bound(len) <= len,
        !(shape is Bounded) ==> shape.in_order(len),
{
}

/// A selection is as long as the distance between its bounds.
pub proof fn selection_length<T>(shape: RangeShape, s: Seq<T>)
    requires
        shape.in_order(s.len()),
    ensures
        shape.select(s).len() == shape.end_bound(s.len()) - shape.start_bound(s.len()),
{
    bounds_stay_within(shape, s.len());
}

/// The full range selects the whole sequence, and what replaces its
/// selection replaces the whole sequence.
pub proof fn full_range_is_identity<T>(s: Seq<T>, part: Seq<T>)
    ensures
        RangeShape::Full.select(s) == s,
        RangeShape::Full.replace(s, part) == part,
{
    assert(RangeShape::Full.select(s) =~= s);
    assert(RangeShape::Full.replace(s, part) =~= part);
}

/// Putting a selection back unchanged gives the sequence it was taken from.
pub proof fn unchanged_selection_restores<T>(shape: RangeShape, s: Seq<T>)
    requires
        shape.in_order(s.len()),
    ensures
        shape.replace(s, shape.select(s)) == s,
{
    bounds_stay_within(shape, s.len());
    assert(shape.replace(s, shape.select(s)) =~= s);
}

/// A replacement of the same length is what the range selects afterwards,
/// and the sequence keeps its length.
pub proof fn replacement_is_selected<T>(shape: RangeShape, s: Seq<T>, part: Seq<T>)
    requires
        shape.in_order(s.len()),
        part.len() == shape.select(s).len(),
    ensures
        shape.replace(s, part).len() == s.len(),
        shape.select(shape.replace(s, part)) == part,
{
    bounds_stay_within(shape, s.len());
    assert(shape.select(shape.replace(s, part)) =~= part);
}

/// Writing `value` at index `i` of a selection writes it into the sequence
/// at `i` places behind the start of the selection, and nowhere else.
pub proof fn write_lands_at_offset<T>(shape: RangeShape, s: Seq<T>, i: int, value: T)
    requires
        shape.in_order(s.len()),
        0 <= i < shape.select(s).len(),
    ensures
        shape.replace(s, shape.select(s).update(i, value)) == s.update(
            shape.start_bound(s.len()) + i,
            value,
        ),
{
    bounds_stay_within(shape, s.len());
    assert(shape.replace(s, shape.select(s).update(i, value)) =~= s.update(
        shape.start_bound(s.len()) + i,
        value,
    ));
}

} // verus!
