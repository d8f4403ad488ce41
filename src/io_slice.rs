use vstd::prelude::*;

use crate::error::SliceError;
use crate::stream::{Readable, Seekable, TryClone, Writable};
use crate::window::{check_window, has_room, open_outcome, plan_seek, read_limit, seek_plan, window_fits, SeekFrom, Window};

verus! {

/// A view into the bytes `[start, start + length)` of an owned underlying stream.
///
/// Positions, seeks, reads and writes are relative to the window, and no
/// operation lets the cursor leave it.
#[derive(Debug)]
pub struct IoSlice<T> {
    underlying: T,
    begin: u64,
    length: u64,
    remaining: u64,
}

impl<T> View for IoSlice<T> {
    type V = Window;

    closed spec fn view(&self) -> Window {
        Window { start: self.begin, length: self.length, remaining: self.remaining }
    }
}

impl<T> IoSlice<T> {
    /// The underlying stream the view owns.
    pub closed spec fn inner(&self) -> T {
        self.underlying
    }

    /// Builds a view from what the source reported when it was asked to seek
    /// to `begin`.
    pub fn from_seek(source: T, begin: u64, length: u64, reported: Result<u64, std::io::Error>) -> (r: Result<IoSlice<T>, SliceError>)
        ensures
            match open_outcome(begin, length, reported) {
                Ok(w) => r matches Ok(s) && s@ == w && s.inner() == source,
                Err(e) => r == Err::<IoSlice<T>, SliceError>(e),
            },
    {
        if !check_window(begin, length) {
            return Err(SliceError::InvalidInput);
        }
        match reported {
            Ok(p) => {
                if p == begin {
                    Ok(IoSlice { underlying: source, begin, length, remaining: length })
                } else {
                    Err(SliceError::InvalidInput)
                }
            },
            Err(e) => Err(SliceError::Io(e)),
        }
    }

    /// Returns the total length of the view.
    pub fn len(&self) -> (r: u64)
        ensures
            r == self@.length,
    {
        self.length
    }

    /// Returns the cursor's position within the view.
    pub fn pos(&self) -> (r: u64)
        requires
            self@.valid(),
        ensures
            r == self@.position(),
    {
        self.position()
    }

    /// Returns the cursor's position within the view.
    pub fn position(&self) -> (r: u64)
        requires
            self@.valid(),
        ensures
            r == self@.position(),
    {
        self.length - self.remaining
    }

    /// Finishes a seek to window position `target`, given what the underlying
    /// stream reported when asked to move to the matching absolute offset.
    pub fn settle_seek(&mut self, target: u64, reported: Result<u64, std::io::Error>) -> (r: Result<u64, SliceError>)
        requires
            old(self)@.valid(),
            target <= old(self)@.length,
        ensures
            final(self).inner() == old(self).inner(),
            reported == Ok::<u64, std::io::Error>((old(self)@.absolute(target as nat)) as u64) ==> r == Ok::<u64, SliceError>(target)
                && final(self)@ == old(self)@.moved_to(target as nat),
            reported matches Ok(p) && p != old(self)@.absolute(target as nat) ==> r == Err::<u64, SliceError>(SliceError::Other)
                && final(self)@ == old(self)@,
            reported matches Err(e) ==> r == Err::<u64, SliceError>(SliceError::Io(e)) && final(self)@ == old(self)@,
    {
        let absolute = self.begin + target;
        match reported {
            Ok(p) => {
                if p == absolute {
                    self.remaining = self.length - target;
                    Ok(target)
                } else {
                    Err(SliceError::Other)
                }
            },
            Err(e) => Err(SliceError::Io(e)),
        }
    }

    /// The underlying stream's absolute offset of window position `target`.
    pub fn absolute_offset(&self, target: u64) -> (r: u64)
        requires
            self@.valid(),
            target <= self@.length,
        ensures
            r == self@.absolute(target as nat),
    {
        self.begin + target
    }

    /// How many bytes a read into a buffer of `buf_len` bytes asks the
    /// underlying stream for: no more than is left of the window.
    pub fn read_request(&self, buf_len: usize) -> (r: usize)
        ensures
            r == read_limit(self@, buf_len as nat),
    {
        if self.remaining < buf_len as u64 {
            self.remaining as usize
        } else {
            buf_len
        }
    }

    /// Finishes a read of at most `request` bytes, given what the underlying
    /// stream reported.
    pub fn settle_read(&mut self, request: usize, got: Result<usize, std::io::Error>) -> (r: Result<usize, SliceError>)
        requires
            old(self)@.valid(),
            request <= old(self)@.remaining,
        ensures
            final(self).inner() == old(self).inner(),
            got matches Ok(n) ==> if n <= request {
                r == Ok::<usize, SliceError>(n) && final(self)@ == old(self)@.advanced(n as nat)
            } else {
                r == Err::<usize, SliceError>(SliceError::Other) && final(self)@ == old(self)@
            },
            got matches Err(e) ==> r == Err::<usize, SliceError>(SliceError::Io(e)) && final(self)@ == old(self)@,
    {
        match got {
            Ok(n) => {
                if n > request {
                    Err(SliceError::Other)
                } else {
                    self.remaining = self.remaining - n as u64;
                    Ok(n)
                }
            },
            Err(e) => Err(SliceError::Io(e)),
        }
    }

    /// A zeroed region as long as what is left of the window, for the
    /// underlying stream to fill; `InvalidInput` when that cannot be addressed.
    pub fn region_for_rest(&self) -> (r: Result<Vec<u8>, SliceError>)
        ensures
            self@.remaining > usize::MAX ==> r == Err::<Vec<u8>, SliceError>(SliceError::InvalidInput),
            self@.remaining <= usize::MAX ==> (r matches Ok(v) && v@.len() == self@.remaining),
    {
        if self.remaining > usize::MAX as u64 {
            return Err(SliceError::InvalidInput);
        }
        Ok(vec![0u8; self.remaining as usize])
    }

    /// Finishes reading the rest of the window, given the region the
    /// underlying stream was asked to fill and what it reported: the region is
    /// appended to `buffer` only when it was filled in full.
    pub fn settle_read_to_end(&mut self, buffer: &mut Vec<u8>, fill: Vec<u8>, got: Result<(), std::io::Error>) -> (r: Result<usize, SliceError>)
        requires
            old(self)@.valid(),
        ensures
            final(self).inner() == old(self).inner(),
            got is Ok && fill@.len() == old(self)@.remaining ==> r == Ok::<usize, SliceError>(fill@.len() as usize)
                && final(buffer)@ == old(buffer)@ + fill@
                && final(self)@ == old(self)@.advanced(fill@.len()),
            got is Ok && fill@.len() != old(self)@.remaining ==> r == Err::<usize, SliceError>(SliceError::Other)
                && final(buffer)@ == old(buffer)@ && final(self)@ == old(self)@,
            got matches Err(e) ==> r == Err::<usize, SliceError>(SliceError::Io(e))
                && final(buffer)@ == old(buffer)@ && final(self)@ == old(self)@,
    {
        let mut fill = fill;
        match got {
            Ok(()) => {
                if fill.len() as u64 != self.remaining {
                    return Err(SliceError::Other);
                }
                let count = fill.len();
                buffer.append(&mut fill);
                self.remaining = 0;
                Ok(count)
            },
            Err(e) => Err(SliceError::Io(e)),
        }
    }

    /// Finishes a write of `len` bytes, given how many the underlying stream
    /// reported accepting.
    pub fn settle_write(&mut self, len: usize, got: Result<usize, std::io::Error>) -> (r: Result<usize, SliceError>)
        requires
            old(self)@.valid(),
            len <= old(self)@.remaining,
        ensures
            final(self).inner() == old(self).inner(),
            got matches Ok(n) ==> if n <= len {
                r == Ok::<usize, SliceError>(n) && final(self)@ == old(self)@.advanced(n as nat)
            } else {
                r == Err::<usize, SliceError>(SliceError::Other) && final(self)@ == old(self)@
            },
            got matches Err(e) ==> r == Err::<usize, SliceError>(SliceError::Io(e)) && final(self)@ == old(self)@,
    {
        match got {
            Ok(n) => {
                if n > len {
                    Err(SliceError::Other)
                } else {
                    self.remaining = self.remaining - n as u64;
                    Ok(n)
                }
            },
            Err(e) => Err(SliceError::Io(e)),
        }
    }

    /// Finishes a write of all `len` bytes, given what the underlying stream
    /// reported.
    pub fn settle_write_all(&mut self, len: usize, got: Result<(), std::io::Error>) -> (r: Result<(), SliceError>)
        requires
            old(self)@.valid(),
            len <= old(self)@.remaining,
        ensures
            final(self).inner() == old(self).inner(),
            got is Ok ==> r is Ok && final(self)@ == old(self)@.advanced(len as nat),
            got matches Err(e) ==> r == Err::<(), SliceError>(SliceError::Io(e)) && final(self)@ == old(self)@,
    {
        match got {
            Ok(()) => {
                self.remaining = self.remaining - len as u64;
                Ok(())
            },
            Err(e) => Err(SliceError::Io(e)),
        }
    }

    /// Finishes a flush, given what the underlying stream reported.
    pub fn settle_flush(&self, got: Result<(), std::io::Error>) -> (r: Result<(), SliceError>)
        ensures
            got is Ok ==> r is Ok,
            got matches Err(e) ==> r == Err::<(), SliceError>(SliceError::Io(e)),
    {
        match got {
            Ok(()) => Ok(()),
            Err(e) => Err(SliceError::Io(e)),
        }
    }

    /// A view of the same window with the same cursor over `got`'s stream, or
    /// `got`'s error as it came.
    pub fn with_stream(&self, got: Result<T, std::io::Error>) -> (r: Result<IoSlice<T>, std::io::Error>)
        ensures
            got matches Ok(u) ==> (r matches Ok(c) && c@ == self@ && c.inner() == u),
            got matches Err(e) ==> r == Err::<IoSlice<T>, std::io::Error>(e),
    {
        match got {
            Ok(underlying) => Ok(IoSlice { underlying, begin: self.begin, length: self.length, remaining: self.remaining }),
            Err(e) => Err(e),
        }
    }
}

impl<T: Seekable> IoSlice<T> {
    /// Opens a view of `length` bytes of `source`, starting at `begin`.
    ///
    /// Fails with `InvalidInput` when the window does not fit the signed 64-bit
    /// range or when `source` does not land at `begin`; passes on the source's
    /// own seek error.
    pub fn new(source: T, begin: u64, length: u64) -> (r: Result<IoSlice<T>, SliceError>)
        ensures
            !window_fits(begin as int, length as int) ==> r == Err::<IoSlice<T>, SliceError>(SliceError::InvalidInput),
            r matches Ok(s) ==> s@ == Window::fresh(begin, length),
            r matches Err(e) ==> e is InvalidInput || e is Io,
    {
        if !check_window(begin, length) {
            return Err(SliceError::InvalidInput);
        }
        let mut source = source;
        let reported = source.seek_to(begin);
        Self::from_seek(source, begin, length, reported)
    }

    /// Moves the cursor within the window and returns its new position.
    ///
    /// A target outside the window fails with `UnexpectedEof` and one whose
    /// magnitude exceeds `i64::MAX` with `InvalidInput`; neither touches the
    /// underlying stream. A stream that lands elsewhere than asked gives `Other`.
    pub fn seek(&mut self, from: SeekFrom) -> (r: Result<u64, SliceError>)
        requires
            old(self)@.valid(),
        ensures
            final(self)@.valid(),
            seek_plan(old(self)@, from) is Err ==> r == seek_plan(old(self)@, from) && *final(self) == *old(self),
            seek_plan(old(self)@, from) matches Ok(t) ==> {
                ||| r == Ok::<u64, SliceError>(t) && final(self)@ == old(self)@.moved_to(t as nat)
                ||| r matches Err(e) && (e is Other || e is Io) && final(self)@ == old(self)@
            },
    {
        match plan_seek(self.begin, self.length, self.remaining, &from) {
            Err(e) => Err(e),
            Ok(target) => {
                let absolute = self.absolute_offset(target);
                let reported = self.underlying.seek_to(absolute);
                self.settle_seek(target, reported)
            },
        }
    }
}

impl<T: Readable> IoSlice<T> {
    /// Reads at most `min(remaining, buffer.len())` bytes into the front of
    /// `buffer`, and returns how many were read; the rest of `buffer` is left
    /// as it was. At the end of the window, or with an empty buffer, it reads
    /// nothing and returns 0.
    pub fn read(&mut self, buffer: &mut [u8]) -> (r: Result<usize, SliceError>)
        requires
            old(self)@.valid(),
        ensures
            final(self)@.valid(),
            read_limit(old(self)@, old(buffer)@.len()) == 0 ==> r == Ok::<usize, SliceError>(0)
                && *final(self) == *old(self) && final(buffer)@ == old(buffer)@,
            final(buffer)@.len() == old(buffer)@.len() ==> final(buffer)@.subrange(read_limit(old(self)@, old(buffer)@.len()) as int, old(buffer)@.len() as int)
                    == old(buffer)@.subrange(read_limit(old(self)@, old(buffer)@.len()) as int, old(buffer)@.len() as int),
            r matches Ok(n) ==> n <= read_limit(old(self)@, old(buffer)@.len())
                && final(self)@ == old(self)@.advanced(n as nat),
            r matches Err(e) ==> (e is Other || e is Io) && final(self)@ == old(self)@,
    {
        let len = buffer.len();
        let request = self.read_request(len);
        if request == 0 {
            return Ok(0);
        }
        let got = {
            let (head, _) = buffer.split_at_mut(request);
            self.underlying.read(head)
        };
        self.settle_read(request, got)
    }

    /// Reads every byte left in the window and appends them to `buffer`,
    /// returning how many there were. Either the whole rest of the window is
    /// read or the view and `buffer` are left as they were.
    pub fn read_to_end(&mut self, buffer: &mut Vec<u8>) -> (r: Result<usize, SliceError>)
        requires
            old(self)@.valid(),
        ensures
            final(self)@.valid(),
            old(self)@.remaining > usize::MAX ==> r == Err::<usize, SliceError>(SliceError::InvalidInput)
                && *final(self) == *old(self) && final(buffer)@ == old(buffer)@,
            old(self)@.remaining == 0 ==> r == Ok::<usize, SliceError>(0)
                && *final(self) == *old(self) && final(buffer)@ == old(buffer)@,
            r matches Ok(n) ==> n == old(self)@.remaining && final(self)@ == old(self)@.advanced(n as nat)
                && final(buffer)@.len() == old(buffer)@.len() + n
                && final(buffer)@.subrange(0, old(buffer)@.len() as int) == old(buffer)@,
            r matches Err(e) ==> final(self)@ == old(self)@ && final(buffer)@ == old(buffer)@
                && (e is InvalidInput <==> old(self)@.remaining > usize::MAX)
                && (e is InvalidInput || e is Other || e is Io),
    {
        let mut fill = match self.region_for_rest() {
            Ok(v) => v,
            Err(e) => return Err(e),
        };
        if fill.len() == 0 {
            return Ok(0);
        }
        let got = self.underlying.read_exact(fill.as_mut_slice());
        self.settle_read_to_end(buffer, fill, got)
    }
}

impl<T: Writable> IoSlice<T> {
    /// Writes part or all of `buffer` at the cursor and returns how many bytes
    /// the underlying stream accepted. A buffer longer than what is left of the
    /// window fails with `UnexpectedEof` and nothing is written.
    pub fn write(&mut self, buffer: &[u8]) -> (r: Result<usize, SliceError>)
        requires
            old(self)@.valid(),
        ensures
            final(self)@.valid(),
            !has_room(old(self)@, buffer@.len()) ==> r == Err::<usize, SliceError>(SliceError::UnexpectedEof)
                && *final(self) == *old(self),
            r matches Ok(n) ==> n <= buffer@.len() && final(self)@ == old(self)@.advanced(n as nat),
            r matches Err(e) ==> final(self)@ == old(self)@
                && (e is UnexpectedEof <==> !has_room(old(self)@, buffer@.len()))
                && (e is UnexpectedEof || e is Other || e is Io),
    {
        if buffer.len() as u64 > self.remaining {
            return Err(SliceError::UnexpectedEof);
        }
        let got = self.underlying.write(buffer);
        self.settle_write(buffer.len(), got)
    }

    /// Writes all of `buffer` at the cursor. A buffer longer than what is left
    /// of the window fails with `UnexpectedEof` and nothing is written.
    pub fn write_all(&mut self, buffer: &[u8]) -> (r: Result<(), SliceError>)
        requires
            old(self)@.valid(),
        ensures
            final(self)@.valid(),
            !has_room(old(self)@, buffer@.len()) ==> r == Err::<(), SliceError>(SliceError::UnexpectedEof)
                && *final(self) == *old(self),
            r is Ok ==> final(self)@ == old(self)@.advanced(buffer@.len()),
            r matches Err(e) ==> final(self)@ == old(self)@
                && (e is UnexpectedEof <==> !has_room(old(self)@, buffer@.len()))
                && (e is UnexpectedEof || e is Io),
    {
        if buffer.len() as u64 > self.remaining {
            return Err(SliceError::UnexpectedEof);
        }
        let got = self.underlying.write_all(buffer);
        self.settle_write_all(buffer.len(), got)
    }

    /// Flushes the underlying stream. The window and the cursor do not change,
    /// however often it is called.
    pub fn flush(&mut self) -> (r: Result<(), SliceError>)
        ensures
            final(self)@ == old(self)@,
            r matches Err(e) ==> e is Io,
    {
        let got = self.underlying.flush();
        self.settle_flush(got)
    }
}

impl<T: Clone> Clone for IoSlice<T> {
    /// A view of the same window with the same cursor, over a clone of the
    /// underlying stream.
    fn clone(&self) -> (r: IoSlice<T>)
        ensures
            r@ == self@,
    {
        IoSlice {
            underlying: self.underlying.clone(),
            begin: self.begin,
            length: self.length,
            remaining: self.remaining,
        }
    }
}

impl<T: TryClone> TryClone for IoSlice<T> {
    /// A view of the same window with the same cursor, over a duplicate of the
    /// underlying stream; fails when the stream cannot be duplicated.
    fn try_clone(&self) -> (r: Result<IoSlice<T>, std::io::Error>)
        ensures
            r matches Ok(c) ==> c@ == self@,
    {
        let got = self.underlying.try_clone();
        self.with_stream(got)
    }
}

} // verus!
