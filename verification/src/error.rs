use vstd::prelude::*;

verus! {

/// An error while pulling bytes out of the underlying byte source.
///
/// `UnexpectedEOF` reports that the source ran out of bytes. `IO` carries the
/// raw OS error code of a host I/O failure, for callers that feed the decoder
/// from a fallible device; the in-memory byte source of this crate never
/// produces it.
#[derive(Clone, Copy, Debug, PartialEq, Eq, Structural)]
pub enum ReadError {
    UnexpectedEOF,
    IO(i32),
}

/// An error in the leading marker byte of an element.
#[derive(Clone, Copy, Debug, PartialEq, Eq, Structural)]
pub enum MarkerError {
    /// The marker decoded to a tag that the invoked reader does not accept.
    TypeMismatch,
    /// The byte maps to no marker tag at all; carries the offending byte.
    Unexpected(u8),
}

/// What a failed UTF-8 validation reports: how many bytes at the front of the
/// payload formed valid UTF-8.
#[derive(Clone, Copy, Debug, PartialEq, Eq, Structural)]
pub struct Utf8ErrorInfo {
    pub valid_up_to: usize,
}

/// The discriminated error taxonomy of the decoder.
///
/// The first three kinds belong to the marker phase of a read, the last four
/// to the payload phase; no reader ever relabels one phase's error as the
/// other's.
#[derive(Clone, Copy, Debug, PartialEq, Eq, Structural)]
pub enum Error {
    /// The marker byte decoded but was not acceptable, or mapped to no tag.
    InvalidMarker(MarkerError),
    /// The source failed while the marker byte itself was being read.
    InvalidMarkerRead(ReadError),
    /// The source failed while a fixed-width payload was being read.
    InvalidDataRead(ReadError),
    /// The caller's destination buffer is smaller than the declared payload
    /// length; carries that length. No payload byte has been consumed.
    BufferSizeTooSmall(u32),
    /// A variable-length payload was only partially available; carries how
    /// many bytes were copied before the failure.
    InvalidDataCopy(u32, ReadError),
    /// A string payload was fully read but is not valid UTF-8; carries the
    /// declared length.
    InvalidUtf8(u32, Utf8ErrorInfo),
}

} // verus!
