use vstd::prelude::*;

use crate::error::SliceError;
use crate::window::{has_room, open_outcome, seek_plan, window_fits, SeekFrom, Window};

verus! {

/// A window that fits the signed 64-bit range opens, when the source lands
/// where it was asked, with the given size and the cursor at 0.
pub proof fn law_open_fits(start: u64, length: u64)
    requires
        window_fits(start as int, length as int),
    ensures
        open_outcome(start, length, Ok(start)) == Ok::<Window, SliceError>(Window::fresh(start, length)),
        Window::fresh(start, length).valid(),
        Window::fresh(start, length).length == length,
        Window::fresh(start, length).position() == 0,
{
}

/// A window that ends past `i64::MAX` is refused with `InvalidInput`, whatever
/// the source would report.
pub proof fn law_open_too_far(start: u64, length: u64, reported: Result<u64, std::io::Error>)
    requires
        start + length > crate::window::I64_MAX,
    ensures
        open_outcome(start, length, reported) == Err::<Window, SliceError>(SliceError::InvalidInput),
{
}

/// The total of a sequence of byte counts.
pub open spec fn total(counts: Seq<nat>) -> nat
    decreases counts.len(),
{
    if counts.len() == 0 {
        0
    } else {
        total(counts.drop_last()) + counts.last()
    }
}

/// A window after reads of the given byte counts, in order.
pub open spec fn after_reads(w: Window, counts: Seq<nat>) -> Window
    decreases counts.len(),
{
    if counts.len() == 0 {
        w
    } else {
        after_reads(w, counts.drop_last()).advanced(counts.last())
    }
}

/// Reads that add up to `k` bytes, at most the window's length, from a fresh
/// window leave the cursor at `k`, with `length - k` bytes left for later reads.
pub proof fn law_reads_add_up(start: u64, length: u64, counts: Seq<nat>)
    requires
        window_fits(start as int, length as int),
        total(counts) <= length,
    ensures
        after_reads(Window::fresh(start, length), counts) == Window::fresh(start, length).advanced(total(counts)),
        after_reads(Window::fresh(start, length), counts).valid(),
        after_reads(Window::fresh(start, length), counts).position() == total(counts),
        after_reads(Window::fresh(start, length), counts).remaining == length - total(counts),
    decreases counts.len(),
{
    if counts.len() > 0 {
        law_reads_add_up(start, length, counts.drop_last());
    }
}

/// Seeking from the start to any offset inside the window, its end included,
/// is accepted and puts the cursor there.
pub proof fn law_seek_inside(w: Window, o: u64)
    requires
        w.valid(),
        o <= w.length,
    ensures
        seek_plan(w, SeekFrom::Start(o)) == Ok::<u64, SliceError>(o),
        w.moved_to(o as nat).valid(),
        w.moved_to(o as nat).position() == o,
{
}

/// Seeking one byte past the end of the window, from the start, the end or
/// the cursor, is refused with `UnexpectedEof`. (For a window of `i64::MAX`
/// bytes that target is itself out of range and is refused with `InvalidInput`.)
pub proof fn law_seek_past_end(w: Window)
    requires
        w.valid(),
        w.length < crate::window::I64_MAX,
    ensures
        seek_plan(w, SeekFrom::Start((w.length + 1) as u64)) == Err::<u64, SliceError>(SliceError::UnexpectedEof),
        seek_plan(w, SeekFrom::End(1)) == Err::<u64, SliceError>(SliceError::UnexpectedEof),
        seek_plan(w, SeekFrom::Current((w.remaining + 1) as i64)) == Err::<u64, SliceError>(SliceError::UnexpectedEof),
{
}

/// Seeking one byte before the start of the window, from the cursor or from
/// the end, is refused with `UnexpectedEof`.
pub proof fn law_seek_before_start(w: Window)
    requires
        w.valid(),
    ensures
        seek_plan(w, SeekFrom::Current((-(w.position() + 1)) as i64)) == Err::<u64, SliceError>(SliceError::UnexpectedEof),
        seek_plan(w, SeekFrom::End((-(w.length + 1)) as i64)) == Err::<u64, SliceError>(SliceError::UnexpectedEof),
{
}

/// A write of exactly what is left of the window fits and leaves nothing
/// remaining; one byte more does not fit.
pub proof fn law_write_to_end(w: Window)
    requires
        w.valid(),
    ensures
        has_room(w, w.remaining as nat),
        w.advanced(w.remaining as nat).remaining == 0,
        !has_room(w, (w.remaining + 1) as nat),
{
}

} // verus!
