//! Buffers that can be handed to a completion-based I/O backend.
//!
//! A buffer is moved into an operation for as long as the backend may touch
//! its memory and is moved back out on completion. The capability traits in
//! [`buf`] state, as verified contracts, what a buffer must report so that
//! this hand-off is sound.
pub mod buf;
