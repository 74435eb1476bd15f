//! Buffers whose memory lies in a region registered with the backend.
use vstd::prelude::*;

use super::{Buf, IoBuf, IoBufFixed, IoBufFixedMut, IoBufMut};

verus! {

/// A buffer together with the index of the registered region that holds its
/// memory.
pub struct FixedBuf {
    buf: Buf,
    index: u16,
}

impl FixedBuf {
    /// A buffer of `capacity` zeroed bytes at `addr`, none initialized, in
    /// the region registered under `index`.
    pub fn new(addr: usize, capacity: usize, index: u16) -> (r: FixedBuf)
        requires
            addr + capacity <= usize::MAX,
        ensures
            r.wf(),
            r.addr() == addr,
            r.memory() == Seq::new(capacity as nat, |i: int| 0u8),
            r.init_len() == 0,
            r.fixed_index() == index,
            r.fixed_index_mut() == index,
    {
        FixedBuf { buf: Buf::new(addr, capacity), index }
    }
}

impl IoBuf for FixedBuf {
    closed spec fn addr(&self) -> nat {
        self.buf.addr()
    }

    closed spec fn memory(&self) -> Seq<u8> {
        self.buf.memory()
    }

    closed spec fn init_len(&self) -> nat {
        self.buf.init_len()
    }

    closed spec fn wf(&self) -> bool {
        self.buf.wf()
    }

    proof fn lemma_wf(&self) {
        self.buf.lemma_wf();
    }

    fn stable_ptr(&self) -> (r: usize) {
        self.buf.stable_ptr()
    }

    fn bytes_init(&self) -> (r: usize) {
        self.buf.bytes_init()
    }

    fn bytes_total(&self) -> (r: usize) {
        self.buf.bytes_total()
    }

    fn init_bytes(&self) -> (r: &[u8]) {
        self.buf.init_bytes()
    }
}

impl IoBufMut for FixedBuf {
    fn stable_mut_ptr(&mut self) -> (r: usize) {
        self.buf.stable_mut_ptr()
    }

    /// Sets the initialized count to exactly `pos`; the index stays.
    fn set_init(&mut self, pos: usize)
        ensures
            final(self).init_len() == pos,
            final(self).fixed_index() == old(self).fixed_index(),
    {
        self.buf.set_init(pos);
    }

    /// The index stays.
    fn write_at(&mut self, pos: usize, src: &[u8])
        ensures
            final(self).fixed_index() == old(self).fixed_index(),
    {
        self.buf.write_at(pos, src);
    }
}

impl IoBufFixed for FixedBuf {
    closed spec fn fixed_index(&self) -> u16 {
        self.index
    }

    fn buf_index(&self) -> (r: u16) {
        self.index
    }
}

impl IoBufFixedMut for FixedBuf {
    closed spec fn fixed_index_mut(&self) -> u16 {
        self.index
    }

    fn set_buf_index(&mut self, index: u16) {
        self.index = index;
    }

    fn buf_index(&self) -> (r: u16) {
        self.index
    }
}

} // verus!
