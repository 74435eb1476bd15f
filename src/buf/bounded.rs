use core::ops::Range;
use vstd::prelude::*;

use super::{IoBuf, Slice};

verus! {

/// Slicing for every buffer.
///
/// A malformed range, one that starts after it ends or ends past the
/// capacity, is a caller's error and is ruled out before the call.
pub trait BoundedBuf: IoBuf {
    /// Bounds the buffer to `range`, taking ownership of it.
    fn slice(self, range: Range<usize>) -> (r: Slice<Self>)
        requires
            self.wf(),
            range.start <= range.end,
            range.end <= self.memory().len(),
        ensures
            r.wf(),
            r == Slice::bounded(self, range.start, range.end),
            r.inner() == self,
            r.range_start() == range.start,
            r.range_end() == range.end,
    ;

    /// Bounds the buffer to its initialized bytes, `0..bytes_init()`.
    fn slice_full(self) -> (r: Slice<Self>)
        requires
            self.wf(),
        ensures
            r.wf(),
            r == Slice::bounded(self, 0, self.init_len() as usize),
            r.inner() == self,
            r.range_start() == 0,
            r.range_end() == self.init_len(),
    ;
}

impl<T: IoBuf> BoundedBuf for T {
    fn slice(self, range: Range<usize>) -> (r: Slice<Self>) {
        Slice::new(self, range.start, range.end)
    }

    fn slice_full(self) -> (r: Slice<Self>) {
        proof {
            self.lemma_wf();
        }
        let end = self.bytes_init();
        Slice::new(self, 0, end)
    }
}

} // verus!
