//! The four shapes a requested range can take, and what each one selects
//! from a sequence.

use crate::bound::{clip, clip_bound};
use core::ops::{Range, RangeFrom, RangeFull, RangeTo};
use vstd::prelude::*;

verus! {

/// A requested range over a sequence. Its endpoints may be negative or lie
/// outside the sequence; the end is never included.
#[derive(Clone, Copy, Debug, PartialEq, Eq)]
pub enum RangeShape {
    /// From `start` up to `end`.
    Bounded { start: isize, end: isize },
    /// From `start` to the end of the sequence.
    FromStart { start: isize },
    /// From the front of the sequence up to `end`.
    ToEnd { end: isize },
    /// The whole sequence.
    Full,
}

impl RangeShape {
    /// Where the selection begins in a sequence of `len` elements.
    pub open spec fn start_bound(self, len: nat) -> nat {
        match self {
            RangeShape::Bounded { start, .. } => clip_bound(start as int, len),
            RangeShape::FromStart { start } => clip_bound(start as int, len),
            RangeShape::ToEnd { .. } => 0,
            RangeShape::Full => 0,
        }
    }

    /// Where the selection stops in a sequence of `len` elements.
    pub open spec fn end_bound(self, len: nat) -> nat {
        match self {
            RangeShape::Bounded { end, .. } => clip_bound(end as int, len),
            RangeShape::FromStart { .. } => len,
            RangeShape::ToEnd { end } => clip_bound(end as int, len),
            RangeShape::Full => len,
        }
    }

    /// Whether the clipped start does not lie behind the clipped end. The
    /// two are clipped independently, so a bounded range can fail this.
    pub open spec fn in_order(self, len: nat) -> bool {
        self.start_bound(len) <= self.end_bound(len)
    }

    /// The elements of `s` that the range selects.
    pub open spec fn select<T>(self, s: Seq<T>) -> Seq<T> {
        s.subrange(self.start_bound(s.len()) as int, self.end_bound(s.len()) as int)
    }

    /// The sequence `s` with the selected elements replaced by `part`, and
    /// everything before and behind them kept.
    pub open spec fn replace<T>(self, s: Seq<T>, part: Seq<T>) -> Seq<T> {
        s.subrange(0, self.start_bound(s.len()) as int) + part + s.subrange(
            self.end_bound(s.len()) as int,
            s.len() as int,
        )
    }

    /// Clips the range to a sequence of `len` elements: where the selection
    /// begins and where it stops. Only a bounded range can come out with
    /// its start behind its end.
    pub fn bounds(&self, len: usize) -> (found: (usize, usize))
        ensures
            found.0 == self.start_bound(len as nat),
            found.1 == self.end_bound(len as nat),
            found.0 <= len,
            found.1 <= len,
            !(self is Bounded) ==> found.0 <= found.1,
    {
        match *self {
            RangeShape::Bounded { start, end } => (clip(start, len), clip(end, len)),
            RangeShape::FromStart { start } => (clip(start, len), len),
            RangeShape::ToEnd { end } => (0, clip(end, len)),
            RangeShape::Full => (0, len),
        }
    }
}

/// A range argument, read as one of the four shapes.
pub trait Shaped {
    /// The shape that this argument stands for.
    spec fn shape(&self) -> RangeShape;
}

impl Shaped for RangeShape {
    open spec fn shape(&self) -> RangeShape {
        *self
    }
}

impl Shaped for Range<isize> {
    open spec fn shape(&self) -> RangeShape {
        RangeShape::Bounded { start: self.start, end: self.end }
    }
}

impl Shaped for RangeFrom<isize> {
    open spec fn shape(&self) -> RangeShape {
        RangeShape::FromStart { start: self.start }
    }
}

impl Shaped for RangeTo<isize> {
    open spec fn shape(&self) -> RangeShape {
        RangeShape::ToEnd { end: self.end }
    }
}

impl Shaped for RangeFull {
    open spec fn shape(&self) -> RangeShape {
        RangeShape::Full
    }
}

} // verus!
