//! Utilities for working with buffers.
//!
//! Operations take ownership of the buffers they use. [`IoBuf`] and
//! [`IoBufMut`] describe buffers that the backend reads from and writes into;
//! [`IoBufFixed`] and [`IoBufFixedMut`] mark buffers whose memory lies in a
//! region registered with the backend.
use vstd::prelude::*;

mod io_buf;
pub use io_buf::IoBuf;

mod io_buf_mut;
pub use io_buf_mut::{overwrite, IoBufMut};

mod io_buf_fixed;
pub use io_buf_fixed::IoBufFixed;

mod io_buf_fixed_mut;
pub use io_buf_fixed_mut::IoBufFixedMut;

mod slice;
pub use slice::{
    clamp_init, lemma_empty_slice, lemma_slice_full_round_trip, lemma_slice_keeps_index,
    lemma_slice_round_trip, lemma_slice_view, raise_mark, Slice,
};

mod bounded;
pub use bounded::BoundedBuf;

pub mod fixed;
pub use fixed::FixedBuf;

pub mod owned;
pub use owned::Buf;

verus! {

/// The initialized bytes of `buf`, for inspection while no operation holds
/// it.
pub fn deref<T: IoBuf>(buf: &T) -> (r: &[u8])
    requires
        buf.wf(),
    ensures
        r@ == buf.memory().take(buf.init_len() as int),
{
    buf.init_bytes()
}

} // verus!
