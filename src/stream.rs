use vstd::prelude::*;

verus! {

/// A stream that can be positioned at an absolute byte offset.
///
/// Nothing is assumed of what an implementation returns: the view checks the
/// reported position itself.
pub trait Seekable {
    /// Moves to the absolute offset `offset` and reports the resulting position.
    fn seek_to(&mut self, offset: u64) -> Result<u64, std::io::Error>;
}

/// A stream that bytes can be read from.
pub trait Readable {
    /// Reads some bytes into `buf` and reports how many were read.
    fn read(&mut self, buf: &mut [u8]) -> Result<usize, std::io::Error>;

    /// Fills `buf` entirely, or fails.
    fn read_exact(&mut self, buf: &mut [u8]) -> Result<(), std::io::Error>;
}

/// A stream that bytes can be written to.
pub trait Writable {
    /// Writes some prefix of `buf` and reports how many bytes were accepted.
    fn write(&mut self, buf: &[u8]) -> Result<usize, std::io::Error>;

    /// Writes all of `buf`, or fails.
    fn write_all(&mut self, buf: &[u8]) -> Result<(), std::io::Error>;

    /// Flushes buffered data to its destination.
    fn flush(&mut self) -> Result<(), std::io::Error>;
}

/// Duplication that can fail, such as duplicating an operating-system handle.
pub trait TryClone: Sized {
    fn try_clone(&self) -> Result<Self, std::io::Error>;
}

} // verus!
