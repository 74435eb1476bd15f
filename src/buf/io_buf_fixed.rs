use vstd::prelude::*;

use super::IoBuf;

verus! {

/// A buffer whose memory lies in a region registered with the backend, for
/// operations that the backend reads from.
///
/// Such operations name the region by its index rather than by an address;
/// the index must be the one under which exactly this memory was registered.
pub trait IoBufFixed: IoBuf {
    /// Index of the registered region that holds the buffer's memory.
    spec fn fixed_index(&self) -> u16;

    /// Returns the index of the registered region.
    fn buf_index(&self) -> (r: u16)
        requires
            self.wf(),
        ensures
            r == self.fixed_index(),
    ;
}

} // verus!
