use vstd::prelude::*;

use super::IoBufMut;

verus! {

/// A buffer whose memory lies in a region registered with the backend, for
/// operations that the backend writes into.
///
/// The index must be the one under which exactly this memory was registered:
/// a wrong one lets the backend write into an unrelated region.
pub trait IoBufFixedMut: IoBufMut {
    /// Index of the registered region that holds the buffer's memory.
    spec fn fixed_index_mut(&self) -> u16;

    /// Associates `index` with the buffer's memory. The caller guarantees
    /// that the memory was registered under this index and that no operation
    /// in flight still uses the previous association.
    fn set_buf_index(&mut self, index: u16)
        requires
            old(self).wf(),
        ensures
            final(self).wf(),
            final(self).addr() == old(self).addr(),
            final(self).memory() == old(self).memory(),
            final(self).init_len() == old(self).init_len(),
            final(self).fixed_index_mut() == index,
    ;

    /// Returns the index of the registered region.
    fn buf_index(&self) -> (r: u16)
        requires
            self.wf(),
        ensures
            r == self.fixed_index_mut(),
    ;
}

} // verus!
