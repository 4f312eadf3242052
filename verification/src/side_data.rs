use crate::desc::SideDataEntry;
use crate::stream::Stream;
use vstd::prelude::*;

verus! {

/// A lazy, single-pass traversal of the side-data array attached to a
/// stream's descriptor. The iterator holds the stream view it was built from
/// and a cursor; the entry count is read afresh from the descriptor on every
/// call, never cached, and entries are yielded as borrows into the
/// descriptor, never copied. Exhaustion is an ordinary end-of-sequence
/// signal, not an error, and it is terminal: the iterator cannot restart.
pub struct SideDataIter<'a> {
    stream: Stream<'a>,
    current: usize,
}

impl<'a> SideDataIter<'a> {
    /// The stream view the iterator reads through.
    pub closed spec fn stream_spec(&self) -> Stream<'a> {
        self.stream
    }

    /// The cursor: how many entries have been yielded.
    pub closed spec fn cursor_spec(&self) -> int {
        self.current as int
    }

    /// How many entries the descriptor holds.
    pub open spec fn count_spec(&self) -> int {
        self.stream_spec().desc_spec().side_data@.len() as int
    }

    /// How many entries are still to come.
    pub open spec fn remaining_spec(&self) -> int {
        self.count_spec() - self.cursor_spec()
    }

    /// Validity: the stream view is valid and the cursor lies in
    /// `[0, count]`.
    pub open spec fn wf(&self) -> bool {
        &&& self.stream_spec().wf()
        &&& 0 <= self.cursor_spec() <= self.count_spec()
    }

    /// A fresh iterator over `stream`'s side data, starting at position
    /// zero.
    pub fn new(stream: &Stream<'a>) -> (r: SideDataIter<'a>)
        requires
            stream.wf(),
        ensures
            r.wf(),
            r.stream_spec() == *stream,
            r.cursor_spec() == 0,
    {
        SideDataIter { stream: *stream, current: 0 }
    }

    /// Yields the entry at the cursor and advances, or signals exhaustion
    /// once the cursor has reached the count — and keeps signalling it on
    /// every later call, leaving the state unchanged.
    pub fn next(&mut self) -> (r: Option<&'a SideDataEntry>)
        requires
            old(self).wf(),
        ensures
            final(self).wf(),
            final(self).stream_spec() == old(self).stream_spec(),
            old(self).cursor_spec() == old(self).count_spec() ==> r is None
                && final(self).cursor_spec() == old(self).cursor_spec(),
            old(self).cursor_spec() < old(self).count_spec() ==> (match r {
                Some(e) => *e == old(self).stream_spec().desc_spec().side_data@[old(self).cursor_spec()]
                    && final(self).cursor_spec() == old(self).cursor_spec() + 1,
                None => false,
            }),
    {
        // the count is read fresh from the descriptor, not cached
        let count: usize = self.stream.descriptor().side_data.len();
        if self.current >= count {
            return None;
        }
        let entry: &'a SideDataEntry = &self.stream.descriptor().side_data[self.current];
        self.current = self.current + 1;
        Some(entry)
    }

    /// How many entries are still to come, recomputed from the descriptor at
    /// call time and clamped to be non-negative; exact by both bounds.
    pub fn size_hint(&self) -> (r: (usize, Option<usize>))
        requires
            self.wf(),
        ensures
            r.0 == self.remaining_spec(),
            r.1 == Some(r.0),
    {
        let count: usize = self.stream.descriptor().side_data.len();
        let remaining: usize = if self.current <= count {
            count - self.current
        } else {
            0
        };
        (remaining, Some(remaining))
    }
}

} // verus!
