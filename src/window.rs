use vstd::prelude::*;

use crate::error::SliceError;

verus! {

/// The largest offset a view may address: `i64::MAX`.
pub const I64_MAX: u64 = 0x7fff_ffff_ffff_ffff;

/// Where a seek is measured from, all relative to the view's window.
#[derive(Clone, Copy, Debug)]
pub enum SeekFrom {
    /// An offset from the start of the window.
    Start(u64),
    /// A signed offset from the end of the window.
    End(i64),
    /// A signed offset from the current position.
    Current(i64),
}

/// The arithmetic state of a view: where its window begins in the underlying
/// stream, how long it is, and how many bytes are left after the cursor.
#[derive(Clone, Copy, Debug)]
pub struct Window {
    pub start: u64,
    pub length: u64,
    pub remaining: u64,
}

/// A window `[start, start + length)` lies wholly within the signed 64-bit range.
pub open spec fn window_fits(start: int, length: int) -> bool {
    &&& 0 <= start <= I64_MAX
    &&& 0 <= length <= I64_MAX
    &&& start + length <= I64_MAX
}

impl Window {
    /// The window fits the address range and the cursor lies inside it.
    pub open spec fn valid(self) -> bool {
        &&& window_fits(self.start as int, self.length as int)
        &&& self.remaining <= self.length
    }

    /// The cursor, counted from the start of the window.
    pub open spec fn position(self) -> int {
        self.length - self.remaining
    }

    /// A freshly opened window, with the cursor at its start.
    pub open spec fn fresh(start: u64, length: u64) -> Window {
        Window { start, length, remaining: length }
    }

    /// The same window after the cursor moved forward by `n` bytes.
    pub open spec fn advanced(self, n: nat) -> Window {
        Window { remaining: (self.remaining - n) as u64, ..self }
    }

    /// The same window with the cursor at `pos`.
    pub open spec fn moved_to(self, pos: nat) -> Window {
        Window { remaining: (self.length - pos) as u64, ..self }
    }

    /// The underlying stream's absolute offset of window position `pos`.
    pub open spec fn absolute(self, pos: nat) -> int {
        self.start + pos
    }
}

/// What opening a window over a stream yields, given what the stream reported
/// when asked to seek to `start`.
pub open spec fn open_outcome(start: u64, length: u64, reported: Result<u64, std::io::Error>) -> Result<Window, SliceError> {
    if !window_fits(start as int, length as int) {
        Err(SliceError::InvalidInput)
    } else {
        match reported {
            Ok(p) => if p == start {
                Ok(Window::fresh(start, length))
            } else {
                Err(SliceError::InvalidInput)
            },
            Err(e) => Err(SliceError::Io(e)),
        }
    }
}

/// The window position that a seek asks for, before any bounds check.
pub open spec fn seek_offset(w: Window, from: SeekFrom) -> int {
    match from {
        SeekFrom::Start(x) => x as int,
        SeekFrom::Current(d) => w.position() + d,
        SeekFrom::End(d) => w.length + d,
    }
}

/// The window position a seek goes to, or why it is refused before the
/// underlying stream is touched.
pub open spec fn seek_plan(w: Window, from: SeekFrom) -> Result<u64, SliceError> {
    let r = seek_offset(w, from);
    if r > I64_MAX || r < -(I64_MAX as int) {
        Err(SliceError::InvalidInput)
    } else if r < 0 || r > w.length {
        Err(SliceError::UnexpectedEof)
    } else {
        Ok(r as u64)
    }
}

/// How many bytes a read into a buffer of `buf_len` bytes may take: what is
/// left of the window, or the buffer's size if that is smaller.
pub open spec fn read_limit(w: Window, buf_len: nat) -> nat {
    if w.remaining < buf_len {
        w.remaining as nat
    } else {
        buf_len
    }
}

/// Whether the window has room for a write of `n` bytes at the cursor.
pub open spec fn has_room(w: Window, n: nat) -> bool {
    n <= w.remaining
}

/// Checks that `[start, start + length)` fits the signed 64-bit range.
pub fn check_window(start: u64, length: u64) -> (r: bool)
    ensures
        r == window_fits(start as int, length as int),
{
    start <= I64_MAX && length <= I64_MAX && start <= I64_MAX - length
}

/// Computes the window position `seek` moves to from a window state, or the
/// error it is refused with.
pub fn plan_seek(start: u64, length: u64, remaining: u64, from: &SeekFrom) -> (r: Result<u64, SliceError>)
    requires
        (Window { start, length, remaining }).valid(),
    ensures
        r == seek_plan(Window { start, length, remaining }, *from),
{
    let position: i128 = (length - remaining) as i128;
    let requested: i128 = match from {
        SeekFrom::Start(x) => *x as i128,
        SeekFrom::Current(d) => position + *d as i128,
        SeekFrom::End(d) => length as i128 + *d as i128,
    };
    let max: i128 = I64_MAX as i128;
    if requested > max || requested < -max {
        Err(SliceError::InvalidInput)
    } else if requested < 0 || requested > length as i128 {
        Err(SliceError::UnexpectedEof)
    } else {
        Ok(requested as u64)
    }
}

} // verus!
