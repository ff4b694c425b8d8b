//! Utilities for working with I/O streams.
//!
//! Limited forms of seeking (forward only, rewind only, absolute, from the
//! end), a way to tell the position of a stream that cannot report it, and
//! adapters that build one form of seeking out of others.

mod std_io;
pub mod consume;

pub mod seek_forward;
mod io_ref;
pub mod adapters;
pub mod read_write_tell;
pub mod seekable;

pub use seek_forward::{
    SeekRewind, SeekForward, SeekBackward, SeekAbsolute, SeekEnd, Tell, StreamPosition,
};
pub use io_ref::IoRef;
pub use adapters::{SeekForwardRead, SeekForwardWrite, SeekAbsoluteRewind, absolute_seek_steps,
    absolute_seek_landing, forward_skip, zero_fill};
pub use read_write_tell::ReadWriteTell;
pub use seekable::{
    tell_by_seek, seek_forward_by_seek, seek_backward_by_seek, seek_absolute_by_seek,
    seek_rewind_by_seek, seek_end_by_seek, seek_target, next_step, SeekTarget, SeekRequest,
};
pub use consume::{consume_amount, consume_within_buffer};
