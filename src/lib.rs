//! Bounded views into seekable byte streams.
//!
//! An [`IoSlice`] owns an underlying stream and exposes only the bytes in
//! `[start, start + length)` of it, mapping every position, seek, read and
//! write into the underlying stream's absolute offsets.

pub mod error;
pub mod io_slice;
pub mod laws;
pub mod stream;
pub mod window;

pub use error::SliceError;
pub use io_slice::IoSlice;
pub use stream::{Readable, Seekable, TryClone, Writable};
pub use window::{check_window, plan_seek, SeekFrom, Window, I64_MAX};
