//! A buffer that owns its memory.
use vstd::prelude::*;

use super::io_buf_mut::overwrite;
use super::{IoBuf, IoBufMut};

verus! {

/// A buffer of fixed capacity at a given base address.
pub struct Buf {
    data: Vec<u8>,
    init: usize,
    addr: usize,
}

impl Buf {
    /// A buffer of `capacity` zeroed bytes at `addr`, none initialized.
    pub fn new(addr: usize, capacity: usize) -> (r: Buf)
        requires
            addr + capacity <= usize::MAX,
        ensures
            r.wf(),
            r.addr() == addr,
            r.memory() == Seq::new(capacity as nat, |i: int| 0u8),
            r.init_len() == 0,
    {
        let mut data: Vec<u8> = Vec::new();
        let mut i: usize = 0;
        while i < capacity
            invariant
                i <= capacity,
                data@ == Seq::new(i as nat, |j: int| 0u8),
            decreases capacity - i,
        {
            data.push(0u8);
            i = i + 1;
            assert(data@ =~= Seq::new(i as nat, |j: int| 0u8));
        }
        Buf { data, init: 0, addr }
    }

    /// A buffer at `addr` holding `bytes`, all of them initialized.
    pub fn from_vec(addr: usize, bytes: Vec<u8>) -> (r: Buf)
        requires
            addr + bytes@.len() <= usize::MAX,
        ensures
            r.wf(),
            r.addr() == addr,
            r.memory() == bytes@,
            r.init_len() == bytes@.len(),
    {
        let init = bytes.len();
        Buf { data: bytes, init, addr }
    }
}

impl IoBuf for Buf {
    closed spec fn addr(&self) -> nat {
        self.addr as nat
    }

    closed spec fn memory(&self) -> Seq<u8> {
        self.data@
    }

    closed spec fn init_len(&self) -> nat {
        self.init as nat
    }

    closed spec fn wf(&self) -> bool {
        &&& self.init <= self.data@.len()
        &&& self.addr + self.data@.len() <= usize::MAX
    }

    proof fn lemma_wf(&self) {
    }

    fn stable_ptr(&self) -> (r: usize) {
        self.addr
    }

    fn bytes_init(&self) -> (r: usize) {
        self.init
    }

    fn bytes_total(&self) -> (r: usize) {
        self.data.len()
    }

    fn init_bytes(&self) -> (r: &[u8]) {
        let all = self.data.as_slice();
        &all[0..self.init]
    }
}

impl IoBufMut for Buf {
    fn stable_mut_ptr(&mut self) -> (r: usize) {
        self.addr
    }

    /// Sets the initialized count to exactly `pos`.
    fn set_init(&mut self, pos: usize)
        ensures
            final(self).init_len() == pos,
    {
        self.init = pos;
    }

    fn write_at(&mut self, pos: usize, src: &[u8]) {
        let ghost before = self.data@;
        let mut i: usize = 0;
        while i < src.len()
            invariant
                self.init == old(self).init,
                self.addr == old(self).addr,
                before == old(self).data@,
                i <= src@.len(),
                pos + src@.len() <= before.len(),
                self.addr + before.len() <= usize::MAX,
                self.data@.len() == before.len(),
                self.data@ == overwrite(before, pos as int, src@.take(i as int)),
            decreases src@.len() - i,
        {
            self.data.set(pos + i, src[i]);
            i = i + 1;
            assert(self.data@ =~= overwrite(before, pos as int, src@.take(i as int)));
        }
        assert(src@.take(i as int) =~= src@);
    }
}
} // verus!
