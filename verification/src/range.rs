use vstd::prelude::*;
use crate::double::Double;
use crate::error::{UHD_ERROR_NONE, UHD_ERROR_STDEXCEPT};

verus! {

/// A range of floating-point values, and a step-by amount
#[derive(Debug, Clone, Copy, PartialEq, Eq, Structural)]
pub struct Range {
    pub start: Double,
    pub stop: Double,
    pub step: Double,
}

impl Range {
    /// The range from `start` to `stop` in steps of `step`.
    pub fn new(start: Double, stop: Double, step: Double) -> (range: Self)
        ensures
            range == (Range { start, stop, step }),
    {
        Range { start, stop, step }
    }
}

impl Default for Range {
    /// The range whose start, stop and step are zero.
    fn default() -> (range: Self)
        ensures
            range.start.bits == 0,
            range.stop.bits == 0,
            range.step.bits == 0,
    {
        Range { start: Double::zero(), stop: Double::zero(), step: Double::zero() }
    }
}

/// A list of ranges of floating-point values
///
/// The ranges in a meta-range should be monotonic (the start of each range should be greater
/// than or equal to the end of the preceding range). Gaps between ranges are allowed.
#[derive(Debug)]
pub struct MetaRange {
    ranges: Vec<Range>,
}

impl View for MetaRange {
    type V = Seq<Range>;

    /// The ranges, in order.
    closed spec fn view(&self) -> Seq<Range> {
        self.ranges@
    }
}

impl MetaRange {
    /// The range at an index, if there is one.
    pub open spec fn spec_get(self, index: int) -> Option<Range> {
        if 0 <= index < self@.len() {
            Some(self@[index])
        } else {
            None
        }
    }

    /// Creates an empty meta-range
    pub fn new() -> (ranges: Self)
        ensures
            ranges@ == Seq::<Range>::empty(),
    {
        MetaRange { ranges: Vec::new() }
    }

    /// Returns the number of ranges in this meta-range
    pub fn len(&self) -> (length: usize)
        ensures
            length == self@.len(),
    {
        self.ranges.len()
    }

    /// Returns the range at the provided index, if one exists
    pub fn get(&self, index: usize) -> (range: Option<Range>)
        ensures
            range == self.spec_get(index as int),
    {
        if index < self.ranges.len() {
            Some(self.ranges[index])
        } else {
            None
        }
    }

    /// Appends a range to the end of this meta-range
    pub fn push(&mut self, range: Range)
        ensures
            final(self)@ == old(self)@.push(range),
    {
        self.ranges.push(range);
    }

    /// Returns an iterator over ranges in this meta-range
    pub fn iter(&self) -> (iter: Iter<'_>)
        ensures
            iter@ == self@,
    {
        let length = self.len();
        Iter { range: self, next: 0, length }
    }

    /// Reads what the native library answered when asked for the range at
    /// an index: the range where the call succeeded, and none where it threw
    /// a `std::exception`, which is how it reports an index past the end.
    ///
    /// The status must be one of these two.
    pub fn range_from_status(status: u32, range: Range) -> (found: Option<Range>)
        requires
            status == UHD_ERROR_NONE || status == UHD_ERROR_STDEXCEPT,
        ensures
            found == (if status == UHD_ERROR_NONE {
                Some(range)
            } else {
                None
            }),
    {
        if status == UHD_ERROR_NONE {
            Some(range)
        } else {
            None
        }
    }
}

impl Default for MetaRange {
    /// Creates an empty meta-range
    fn default() -> (ranges: Self)
        ensures
            ranges@ == Seq::<Range>::empty(),
    {
        MetaRange::new()
    }
}

/// An iterator over ranges in a meta-range
#[derive(Debug)]
pub struct Iter<'m> {
    range: &'m MetaRange,
    /// The index of the next element to yield
    next: usize,
    length: usize,
}

impl<'m> View for Iter<'m> {
    type V = Seq<Range>;

    /// The ranges that are still to come, in order.
    closed spec fn view(&self) -> Seq<Range> {
        self.range@.skip(self.next as int)
    }
}

impl<'m> Iter<'m> {
    #[verifier::type_invariant]
    closed spec fn wf(self) -> bool {
        self.next <= self.length && self.length == self.range@.len()
    }

    /// Yields the next range, or `None` after the last.
    pub fn next(&mut self) -> (item: Option<Range>)
        ensures
            old(self)@.len() == 0 ==> item is None && final(self)@ == old(self)@,
            old(self)@.len() > 0 ==> item == Some(old(self)@[0]) && final(self)@ == old(
                self,
            )@.skip(1),
    {
        proof {
            use_type_invariant(&*self);
        }
        if self.next == self.length {
            None
        } else {
            let item = self.range.get(self.next);
            self.next += 1;
            item
        }
    }

    /// Returns the number of ranges that are still to come, as the lower and
    /// the upper bound.
    pub fn size_hint(&self) -> (hint: (usize, Option<usize>))
        ensures
            hint.0 == self@.len(),
            hint.1 == Some(hint.0),
    {
        proof {
            use_type_invariant(self);
        }
        let remaining: usize = self.length - self.next;
        (remaining, Some(remaining))
    }

    /// Returns the number of ranges that are still to come.
    pub fn count(self) -> (remaining: usize)
        ensures
            remaining == self@.len(),
    {
        proof {
            use_type_invariant(&self);
        }
        self.length - self.next
    }
}

/// Past the last range there is none, and just before the end stands the
/// last one.
pub proof fn lemma_get_at_the_end(ranges: MetaRange)
    ensures
        ranges.spec_get(ranges@.len() as int) is None,
        ranges@.len() > 0 ==> ranges.spec_get(ranges@.len() - 1) == Some(ranges@.last()),
{
}

} // verus!
