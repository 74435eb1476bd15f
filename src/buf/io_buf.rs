use vstd::prelude::*;

verus! {

/// A buffer that the backend may read from.
///
/// The model of a buffer is its base address, the contents of its whole
/// capacity, and how many of those bytes, counted from the start, are
/// initialized. An implementation proves that it reports exactly these
/// values, so that a pointer and a length handed to the backend describe
/// memory that the buffer owns.
pub trait IoBuf: Sized {
    /// Address of the first byte of the buffer's memory.
    spec fn addr(&self) -> nat;

    /// Contents of the buffer's whole capacity.
    spec fn memory(&self) -> Seq<u8>;

    /// Number of initialized bytes at the start of the memory.
    spec fn init_len(&self) -> nat;

    /// The buffer's own invariant.
    spec fn wf(&self) -> bool;

    /// What every well-formed buffer satisfies.
    proof fn lemma_wf(&self)
        requires
            self.wf(),
        ensures
            self.init_len() <= self.memory().len(),
            self.addr() + self.memory().len() <= usize::MAX,
    ;

    /// Address of the first initialized byte; stays the same while the
    /// value lives, wherever it is moved.
    fn stable_ptr(&self) -> (r: usize)
        requires
            self.wf(),
        ensures
            r == self.addr(),
    ;

    /// Number of initialized bytes.
    fn bytes_init(&self) -> (r: usize)
        requires
            self.wf(),
        ensures
            r == self.init_len(),
    ;

    /// Total capacity of the buffer.
    fn bytes_total(&self) -> (r: usize)
        requires
            self.wf(),
        ensures
            r == self.memory().len(),
    ;

    /// The initialized bytes, for inspection while no operation holds the
    /// buffer.
    fn init_bytes(&self) -> (r: &[u8])
        requires
            self.wf(),
        ensures
            r@ == self.memory().take(self.init_len() as int),
    ;
}

} // verus!
