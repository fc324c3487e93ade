//! Byte ranges of a track.

use vstd::prelude::*;

verus! {

/// A half-open byte range `[start, end)`; without an `end` it runs to the end of
/// the object.
#[derive(Clone, Copy, Debug, PartialEq, Eq, Structural)]
pub struct Range {
    pub start: u64,
    pub end: Option<u64>,
}

/// The part `[offset, offset + count)` of an object that a request covers.
#[derive(Clone, Copy, Debug, PartialEq, Eq, Structural)]
pub struct Window {
    pub offset: u64,
    pub count: u64,
}

impl Range {
    /// A range is valid when its end, if it has one, is not before its start.
    pub open spec fn valid(self) -> bool {
        match self.end {
            Some(end) => self.start <= end,
            None => true,
        }
    }

    /// The number of bytes the range asks for, `None` when it is unbounded.
    pub open spec fn spec_length(self) -> Option<u64> {
        match self.end {
            Some(end) => Some((end - self.start) as u64),
            None => None,
        }
    }

    /// The bytes of an object of `total` bytes that the range selects: the range
    /// cut off at the object's end.
    pub open spec fn spec_window(self, total: u64) -> Window {
        let offset = if self.start <= total { self.start } else { total };
        let rest = (total - offset) as u64;
        let count = match self.end {
            Some(end) => if end - self.start <= rest { (end - self.start) as u64 } else { rest },
            None => rest,
        };
        Window { offset, count }
    }

    /// The range of a whole object.
    pub fn full() -> (r: Range)
        ensures
            r == (Range { start: 0, end: None }),
            r.valid(),
    {
        Range { start: 0, end: None }
    }

    pub fn new(start: u64, end: Option<u64>) -> (r: Range)
        ensures
            r == (Range { start, end }),
    {
        Range { start, end }
    }

    pub fn is_valid(&self) -> (b: bool)
        ensures
            b == self.valid(),
    {
        match self.end {
            Some(end) => self.start <= end,
            None => true,
        }
    }

    pub fn is_full(&self) -> (b: bool)
        ensures
            b == (self.start == 0 && self.end is None),
    {
        self.start == 0 && self.end.is_none()
    }

    pub fn length(&self) -> (n: Option<u64>)
        requires
            self.valid(),
        ensures
            n == self.spec_length(),
            self.end matches Some(end) ==> n == Some((end - self.start) as u64),
    {
        match self.end {
            Some(end) => Some(end - self.start),
            None => None,
        }
    }

    /// Which bytes of an object of `total` bytes a reader for this range delivers:
    /// it skips `start` bytes, or all of them if there are fewer, and then hands
    /// out `length()` bytes, or what is left if that is less.
    pub fn window(&self, total: u64) -> (w: Window)
        requires
            self.valid(),
        ensures
            w == self.spec_window(total),
            w.offset + w.count <= total,
    {
        let offset: u64 = if self.start <= total { self.start } else { total };
        let rest: u64 = total - offset;
        let count: u64 = match self.end {
            Some(end) => if end - self.start <= rest { end - self.start } else { rest },
            None => rest,
        };
        Window { offset, count }
    }
}

/// A request for a whole object of `total` bytes covers exactly those bytes.
pub proof fn full_range_covers_object(total: u64)
    ensures
        (Range { start: 0, end: None }).spec_window(total) == (Window { offset: 0, count: total }),
{
}

/// A range `[start, end)` that lies inside an object of `total` bytes covers
/// `end - start` bytes, beginning at `start`.
pub proof fn inner_range_is_exact(start: u64, end: u64, total: u64)
    requires
        start <= end <= total,
    ensures
        (Range { start, end: Some(end) }).spec_window(total) == (Window {
            offset: start,
            count: (end - start) as u64,
        }),
{
}

} // verus!
