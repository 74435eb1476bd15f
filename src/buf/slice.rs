use core::ops::Range;
use vstd::prelude::*;

use super::io_buf_mut::overwrite;
use super::{IoBuf, IoBufFixed, IoBufFixedMut, IoBufMut};

verus! {

/// A buffer bounded to the byte range `begin..end` of its capacity.
///
/// The slice owns the buffer, so the buffer cannot be touched while an
/// operation holds the slice; [`Slice::into_inner`] gives the very same buffer
/// back. As a buffer, the slice shows its range only: its memory starts at
/// `begin`, and its initialized bytes are those of the buffer that fall in
/// the range.
pub struct Slice<T> {
    buf: T,
    begin: usize,
    end: usize,
}

/// Number of bytes of `begin..end` below the mark `init`.
pub open spec fn clamp_init(init: nat, begin: nat, end: nat) -> nat {
    if init <= begin {
        0
    } else if init >= end {
        (end - begin) as nat
    } else {
        (init - begin) as nat
    }
}

/// The mark `init` moved up to `mark`, or left where it lies at or above it.
pub open spec fn raise_mark(init: nat, mark: nat) -> nat {
    if init < mark {
        mark
    } else {
        init
    }
}

impl<T> Slice<T> {
    /// The buffer that the slice holds.
    pub closed spec fn inner(&self) -> T {
        self.buf
    }

    /// Offset of the range's first byte in the buffer.
    pub closed spec fn range_start(&self) -> nat {
        self.begin as nat
    }

    /// Offset just past the range's last byte in the buffer.
    pub closed spec fn range_end(&self) -> nat {
        self.end as nat
    }

    /// `buf` bounded to `begin..end`.
    pub closed spec fn bounded(buf: T, begin: usize, end: usize) -> Slice<T> {
        Slice { buf, begin, end }
    }

    /// Bounds `buf` to `begin..end`.
    pub(crate) fn new(buf: T, begin: usize, end: usize) -> (r: Slice<T>)
        ensures
            r == Slice::bounded(buf, begin, end),
            r.inner() == buf,
            r.range_start() == begin,
            r.range_end() == end,
    {
        Slice { buf, begin, end }
    }

    /// Offset of the range's first byte in the buffer.
    pub fn begin(&self) -> (r: usize)
        ensures
            r == self.range_start(),
    {
        self.begin
    }

    /// Offset just past the range's last byte in the buffer.
    pub fn end(&self) -> (r: usize)
        ensures
            r == self.range_end(),
    {
        self.end
    }

    /// The buffer that the slice holds.
    pub fn get_ref(&self) -> (r: &T)
        ensures
            *r == self.inner(),
    {
        &self.buf
    }

    /// Gives the buffer back, with whatever the operation wrote into it.
    pub fn into_inner(self) -> (r: T)
        ensures
            r == self.inner(),
    {
        self.buf
    }

    /// Gives the buffer back together with the range the slice was bounded
    /// to.
    pub fn into_parts(self) -> (r: (T, Range<usize>))
        ensures
            r.0 == self.inner(),
            r.1.start == self.range_start(),
            r.1.end == self.range_end(),
    {
        (self.buf, self.begin..self.end)
    }
}

impl<T: IoBuf> IoBuf for Slice<T> {
    open spec fn addr(&self) -> nat {
        self.inner().addr() + self.range_start()
    }

    open spec fn memory(&self) -> Seq<u8> {
        self.inner().memory().subrange(self.range_start() as int, self.range_end() as int)
    }

    open spec fn init_len(&self) -> nat {
        clamp_init(self.inner().init_len(), self.range_start(), self.range_end())
    }

    open spec fn wf(&self) -> bool {
        &&& self.inner().wf()
        &&& self.range_start() <= self.range_end()
        &&& self.range_end() <= self.inner().memory().len()
    }

    proof fn lemma_wf(&self) {
        self.inner().lemma_wf();
    }

    fn stable_ptr(&self) -> (r: usize) {
        proof {
            self.buf.lemma_wf();
        }
        self.buf.stable_ptr() + self.begin
    }

    fn bytes_init(&self) -> (r: usize) {
        let init = self.buf.bytes_init();
        if init <= self.begin {
            0
        } else if init >= self.end {
            self.end - self.begin
        } else {
            init - self.begin
        }
    }

    fn bytes_total(&self) -> (r: usize) {
        self.end - self.begin
    }

    fn init_bytes(&self) -> (r: &[u8]) {
        proof {
            self.buf.lemma_wf();
        }
        let all = self.buf.init_bytes();
        let n = self.bytes_init();
        if n == 0 {
            let r = &all[0..0];
            assert(r@ =~= self.memory().take(0));
            r
        } else {
            let r = &all[self.begin..self.begin + n];
            assert(r@ =~= self.memory().take(n as int));
            r
        }
    }
}

impl<T: IoBufMut> IoBufMut for Slice<T> {
    fn stable_mut_ptr(&mut self) -> (r: usize) {
        proof {
            self.buf.lemma_wf();
        }
        let p = self.buf.stable_mut_ptr();
        p + self.begin
    }

    /// Moves the buffer's mark to `begin + pos` where it lies below that, and
    /// leaves the buffer as it is otherwise: the backend wrote at the start
    /// of the range, not at the start of the buffer.
    fn set_init(&mut self, pos: usize)
        ensures
            final(self).range_start() == old(self).range_start(),
            final(self).range_end() == old(self).range_end(),
            final(self).inner().addr() == old(self).inner().addr(),
            final(self).inner().memory() == old(self).inner().memory(),
            final(self).inner().init_len() == raise_mark(
                old(self).inner().init_len(),
                old(self).range_start() + pos as nat,
            ),
            old(self).range_start() + pos <= old(self).inner().init_len() ==> final(self).inner()
                == old(self).inner(),
    {
        proof {
            self.buf.lemma_wf();
        }
        let mark = self.begin + pos;
        if self.buf.bytes_init() < mark {
            self.buf.set_init(mark);
        }
    }

    /// Writes into the buffer at `begin + pos`.
    fn write_at(&mut self, pos: usize, src: &[u8])
        ensures
            final(self).range_start() == old(self).range_start(),
            final(self).range_end() == old(self).range_end(),
            final(self).inner().addr() == old(self).inner().addr(),
            final(self).inner().init_len() == old(self).inner().init_len(),
            final(self).inner().memory() == overwrite(
                old(self).inner().memory(),
                old(self).range_start() + pos,
                src@,
            ),
    {
        proof {
            self.buf.lemma_wf();
        }
        let ghost before = self.buf.memory();
        self.buf.write_at(self.begin + pos, src);
        assert(self.memory() =~= overwrite(
            before.subrange(self.begin as int, self.end as int),
            pos as int,
            src@,
        ));
    }
}

impl<T: IoBufFixed> IoBufFixed for Slice<T> {
    open spec fn fixed_index(&self) -> u16 {
        self.inner().fixed_index()
    }

    fn buf_index(&self) -> (r: u16) {
        self.buf.buf_index()
    }
}

impl<T: IoBufFixedMut> IoBufFixedMut for Slice<T> {
    open spec fn fixed_index_mut(&self) -> u16 {
        self.inner().fixed_index_mut()
    }

    /// Associates `index` with the buffer that the slice holds.
    fn set_buf_index(&mut self, index: u16)
        ensures
            final(self).range_start() == old(self).range_start(),
            final(self).range_end() == old(self).range_end(),
    {
        self.buf.set_buf_index(index);
    }

    fn buf_index(&self) -> (r: u16) {
        IoBufFixedMut::buf_index(&self.buf)
    }
}

/// Slicing and then unwrapping is a round trip: the slice is well formed, and
/// the buffer it gives back is the one that was sliced, with the same address,
/// capacity, contents and initialized count.
pub proof fn lemma_slice_round_trip<T: IoBuf>(b: T, range: Range<usize>)
    requires
        b.wf(),
        range.start <= range.end,
        range.end <= b.memory().len(),
    ensures
        Slice::bounded(b, range.start, range.end).wf(),
        Slice::bounded(b, range.start, range.end).inner() == b,
{
}

/// A slice over `a..b` shows the buffer from `a` on: its pointer is the
/// buffer's pointer plus `a`, its capacity is `b - a`, and its initialized
/// bytes are those of the buffer within the range, `b - a` of them or fewer
/// when the buffer's initialized count lies below `b`.
pub proof fn lemma_slice_view<T: IoBuf>(buf: T, range: Range<usize>)
    requires
        buf.wf(),
        range.start <= range.end,
        range.end <= buf.memory().len(),
    ensures
        ({
            let s = Slice::bounded(buf, range.start, range.end);
            &&& s.addr() == buf.addr() + range.start
            &&& s.memory() == buf.memory().subrange(range.start as int, range.end as int)
            &&& s.memory().len() == range.end - range.start
            &&& s.init_len() <= range.end - range.start
            &&& buf.init_len() >= range.end ==> s.init_len() == range.end - range.start
            &&& range.start <= buf.init_len() <= range.end ==> s.init_len() == buf.init_len()
                - range.start
            &&& buf.init_len() <= range.start ==> s.init_len() == 0
            &&& s.memory().take(s.init_len() as int) == buf.memory().subrange(
                range.start as int,
                range.start + s.init_len(),
            )
        }),
{
    let s = Slice::bounded(buf, range.start, range.end);
    assert(s.memory().take(s.init_len() as int) =~= buf.memory().subrange(
        range.start as int,
        range.start + s.init_len(),
    ));
}

/// Slicing the initialized bytes and unwrapping is a round trip that loses
/// nothing: the slice shows exactly the buffer's initialized bytes, and the
/// buffer comes back with the same initialized count.
pub proof fn lemma_slice_full_round_trip<T: IoBuf>(b: T)
    requires
        b.wf(),
    ensures
        ({
            let s = Slice::bounded(b, 0, b.init_len() as usize);
            &&& s.wf()
            &&& s.inner() == b
            &&& s.inner().init_len() == b.init_len()
            &&& s.init_len() == b.init_len()
            &&& s.memory() == b.memory().take(b.init_len() as int)
        }),
{
    b.lemma_wf();
    let s = Slice::bounded(b, 0, b.init_len() as usize);
    assert(s.memory() =~= b.memory().take(b.init_len() as int));
}

/// A range that starts where it ends gives a valid slice with nothing in it.
pub proof fn lemma_empty_slice<T: IoBuf>(b: T, at: usize)
    requires
        b.wf(),
        at <= b.memory().len(),
    ensures
        Slice::bounded(b, at, at).wf(),
        Slice::bounded(b, at, at).memory().len() == 0,
        Slice::bounded(b, at, at).init_len() == 0,
{
}

/// A slice of a registered buffer reports the buffer's registration index.
pub proof fn lemma_slice_keeps_index<T: IoBufFixed>(b: T, range: Range<usize>)
    ensures
        Slice::bounded(b, range.start, range.end).fixed_index() == b.fixed_index(),
{
}

} // verus!
