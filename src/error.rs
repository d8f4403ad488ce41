use vstd::prelude::*;

verus! {

/// `std::io::Error` is carried through opaquely: the library never looks inside it.
#[verifier::external_type_specification]
#[verifier::external_body]
pub struct ExIoError(std::io::Error);

/// What can go wrong when using a bounded view.
#[derive(Debug)]
pub enum SliceError {
    /// The window does not fit the signed 64-bit address range, or a request
    /// is too large to represent.
    InvalidInput,
    /// A seek target lies outside the window, or a write would run past its end.
    UnexpectedEof,
    /// The underlying stream broke its own contract (it seeked elsewhere than
    /// asked, or reported more bytes than it was given).
    Other,
    /// An error reported by the underlying stream, passed on unchanged.
    Io(std::io::Error),
}

} // verus!
