use vstd::prelude::*;

use super::IoBuf;

verus! {

/// `m` with the bytes from `pos` on replaced by `src`.
pub open spec fn overwrite(m: Seq<u8>, pos: int, src: Seq<u8>) -> Seq<u8> {
    m.take(pos) + src + m.skip(pos + src.len())
}

/// A buffer that the backend may write into.
///
/// The backend writes anywhere within the capacity and then reports how many
/// bytes it transferred; `set_init` is how that count becomes visible.
pub trait IoBufMut: IoBuf {
    /// Address of the first byte of the capacity, for the backend to write
    /// through.
    fn stable_mut_ptr(&mut self) -> (r: usize)
        requires
            old(self).wf(),
        ensures
            *final(self) == *old(self),
            r == old(self).addr(),
    ;

    /// Marks the first `pos` bytes as initialized, after the backend wrote
    /// them.
    ///
    /// Moving the mark to or past the current count sets it to `pos`; what a
    /// buffer does with a mark below its count is its own (see the impls).
    fn set_init(&mut self, pos: usize)
        requires
            old(self).wf(),
            pos <= old(self).memory().len(),
        ensures
            final(self).wf(),
            final(self).addr() == old(self).addr(),
            final(self).memory() == old(self).memory(),
            pos <= final(self).init_len(),
            old(self).init_len() <= pos ==> final(self).init_len() == pos,
    ;

    /// Writes `src` into the capacity at `pos`, as the backend does through
    /// the mutable pointer. The initialized count is left as it is.
    fn write_at(&mut self, pos: usize, src: &[u8])
        requires
            old(self).wf(),
            pos + src@.len() <= old(self).memory().len(),
        ensures
            final(self).wf(),
            final(self).addr() == old(self).addr(),
            final(self).init_len() == old(self).init_len(),
            final(self).memory() == overwrite(old(self).memory(), pos as int, src@),
    ;
}

} // verus!
