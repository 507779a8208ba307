use vstd::prelude::*;

use crate::data::{
    read_data_i16, read_data_i32, read_data_i64, read_data_i8, read_data_u16, read_data_u32,
    read_data_u64, read_data_u8, spec_data_i16, spec_data_i32, spec_data_i64, spec_data_i8,
    spec_data_u16, spec_data_u32, spec_data_u64, spec_data_u8,
};
use crate::error::{Error, MarkerError};
use crate::marker::Marker;
use crate::source::{read_marker, spec_read_marker, ByteSource};

verus! {

/// The outcome of decoding a nil element at position `p` of `s`.
pub open spec fn spec_read_nil(s: Seq<u8>, p: int) -> (Result<(), Error>, int) {
    let (m, q) = spec_read_marker(s, p);
    match m {
        Ok(Marker::Null) => (Ok(()), q),
        Ok(_) => (Err(Error::InvalidMarker(MarkerError::TypeMismatch)), q),
        Err(e) => (Err(e), q),
    }
}

/// Decodes a nil value: exactly the marker `Null`.
pub fn read_nil(rd: &mut ByteSource) -> (r: Result<(), Error>)
    ensures
        final(rd).bytes() == old(rd).bytes(),
        (r, final(rd).pos()) == spec_read_nil(old(rd).bytes(), old(rd).pos()),
{
    match read_marker(rd) {
        Ok(Marker::Null) => Ok(()),
        Ok(_) => Err(Error::InvalidMarker(MarkerError::TypeMismatch)),
        Err(e) => Err(e),
    }
}

/// The outcome of decoding a boolean element at position `p` of `s`.
pub open spec fn spec_read_bool(s: Seq<u8>, p: int) -> (Result<bool, Error>, int) {
    let (m, q) = spec_read_marker(s, p);
    match m {
        Ok(Marker::True) => (Ok(true), q),
        Ok(Marker::False) => (Ok(false), q),
        Ok(_) => (Err(Error::InvalidMarker(MarkerError::TypeMismatch)), q),
        Err(e) => (Err(e), q),
    }
}

/// Decodes a boolean: exactly the markers `True` and `False`.
pub fn read_bool(rd: &mut ByteSource) -> (r: Result<bool, Error>)
    ensures
        final(rd).bytes() == old(rd).bytes(),
        (r, final(rd).pos()) == spec_read_bool(old(rd).bytes(), old(rd).pos()),
{
    match read_marker(rd) {
        Ok(Marker::True) => Ok(true),
        Ok(Marker::False) => Ok(false),
        Ok(_) => Err(Error::InvalidMarker(MarkerError::TypeMismatch)),
        Err(e) => Err(e),
    }
}

/// The outcome of decoding a positive fixnum at position `p` of `s`.
pub open spec fn spec_read_pfix(s: Seq<u8>, p: int) -> (Result<u8, Error>, int) {
    let (m, q) = spec_read_marker(s, p);
    match m {
        Ok(Marker::PositiveFixnum(v)) => (Ok(v), q),
        Ok(_) => (Err(Error::InvalidMarker(MarkerError::TypeMismatch)), q),
        Err(e) => (Err(e), q),
    }
}

/// Decodes exactly a positive fixnum, whose value is packed into the marker.
pub fn read_pfix(rd: &mut ByteSource) -> (r: Result<u8, Error>)
    ensures
        final(rd).bytes() == old(rd).bytes(),
        (r, final(rd).pos()) == spec_read_pfix(old(rd).bytes(), old(rd).pos()),
{
    match read_marker(rd) {
        Ok(Marker::PositiveFixnum(v)) => Ok(v),
        Ok(_) => Err(Error::InvalidMarker(MarkerError::TypeMismatch)),
        Err(e) => Err(e),
    }
}

/// The outcome of decoding a negative fixnum at position `p` of `s`.
pub open spec fn spec_read_nfix(s: Seq<u8>, p: int) -> (Result<i8, Error>, int) {
    let (m, q) = spec_read_marker(s, p);
    match m {
        Ok(Marker::NegativeFixnum(v)) => (Ok(v), q),
        Ok(_) => (Err(Error::InvalidMarker(MarkerError::TypeMismatch)), q),
        Err(e) => (Err(e), q),
    }
}

/// Decodes exactly a negative fixnum, whose value is packed into the marker.
pub fn read_nfix(rd: &mut ByteSource) -> (r: Result<i8, Error>)
    ensures
        final(rd).bytes() == old(rd).bytes(),
        (r, final(rd).pos()) == spec_read_nfix(old(rd).bytes(), old(rd).pos()),
{
    match read_marker(rd) {
        Ok(Marker::NegativeFixnum(v)) => Ok(v),
        Ok(_) => Err(Error::InvalidMarker(MarkerError::TypeMismatch)),
        Err(e) => Err(e),
    }
}

/// The outcome of decoding a strict `u8` element at position `p` of `s`.
pub open spec fn spec_read_u8(s: Seq<u8>, p: int) -> (Result<u8, Error>, int) {
    let (m, q) = spec_read_marker(s, p);
    match m {
        Ok(Marker::U8) => spec_data_u8(s, q),
        Ok(_) => (Err(Error::InvalidMarker(MarkerError::TypeMismatch)), q),
        Err(e) => (Err(e), q),
    }
}

/// Decodes exactly a `U8` element: the marker and one payload byte.
pub fn read_u8(rd: &mut ByteSource) -> (r: Result<u8, Error>)
    ensures
        final(rd).bytes() == old(rd).bytes(),
        (r, final(rd).pos()) == spec_read_u8(old(rd).bytes(), old(rd).pos()),
{
    match read_marker(rd) {
        Ok(Marker::U8) => read_data_u8(rd),
        Ok(_) => Err(Error::InvalidMarker(MarkerError::TypeMismatch)),
        Err(e) => Err(e),
    }
}

/// The outcome of decoding a strict `u16` element at position `p` of `s`.
pub open spec fn spec_read_u16(s: Seq<u8>, p: int) -> (Result<u16, Error>, int) {
    let (m, q) = spec_read_marker(s, p);
    match m {
        Ok(Marker::U16) => spec_data_u16(s, q),
        Ok(_) => (Err(Error::InvalidMarker(MarkerError::TypeMismatch)), q),
        Err(e) => (Err(e), q),
    }
}

/// Decodes exactly a `U16` element: the marker and two big-endian bytes.
pub fn read_u16(rd: &mut ByteSource) -> (r: Result<u16, Error>)
    ensures
        final(rd).bytes() == old(rd).bytes(),
        (r, final(rd).pos()) == spec_read_u16(old(rd).bytes(), old(rd).pos()),
{
    match read_marker(rd) {
        Ok(Marker::U16) => read_data_u16(rd),
        Ok(_) => Err(Error::InvalidMarker(MarkerError::TypeMismatch)),
        Err(e) => Err(e),
    }
}

/// The outcome of decoding a strict `u32` element at position `p` of `s`.
pub open spec fn spec_read_u32(s: Seq<u8>, p: int) -> (Result<u32, Error>, int) {
    let (m, q) = spec_read_marker(s, p);
    match m {
        Ok(Marker::U32) => spec_data_u32(s, q),
        Ok(_) => (Err(Error::InvalidMarker(MarkerError::TypeMismatch)), q),
        Err(e) => (Err(e), q),
    }
}

/// Decodes exactly a `U32` element: the marker and four big-endian bytes.
pub fn read_u32(rd: &mut ByteSource) -> (r: Result<u32, Error>)
    ensures
        final(rd).bytes() == old(rd).bytes(),
        (r, final(rd).pos()) == spec_read_u32(old(rd).bytes(), old(rd).pos()),
{
    match read_marker(rd) {
        Ok(Marker::U32) => read_data_u32(rd),
        Ok(_) => Err(Error::InvalidMarker(MarkerError::TypeMismatch)),
        Err(e) => Err(e),
    }
}

/// The outcome of decoding a strict `u64` element at position `p` of `s`.
pub open spec fn spec_read_u64(s: Seq<u8>, p: int) -> (Result<u64, Error>, int) {
    let (m, q) = spec_read_marker(s, p);
    match m {
        Ok(Marker::U64) => spec_data_u64(s, q),
        Ok(_) => (Err(Error::InvalidMarker(MarkerError::TypeMismatch)), q),
        Err(e) => (Err(e), q),
    }
}

/// Decodes exactly a `U64` element: the marker and eight big-endian bytes.
pub fn read_u64(rd: &mut ByteSource) -> (r: Result<u64, Error>)
    ensures
        final(rd).bytes() == old(rd).bytes(),
        (r, final(rd).pos()) == spec_read_u64(old(rd).bytes(), old(rd).pos()),
{
    match read_marker(rd) {
        Ok(Marker::U64) => read_data_u64(rd),
        Ok(_) => Err(Error::InvalidMarker(MarkerError::TypeMismatch)),
        Err(e) => Err(e),
    }
}

/// The outcome of decoding a strict `i8` element at position `p` of `s`.
pub open spec fn spec_read_i8(s: Seq<u8>, p: int) -> (Result<i8, Error>, int) {
    let (m, q) = spec_read_marker(s, p);
    match m {
        Ok(Marker::I8) => spec_data_i8(s, q),
        Ok(_) => (Err(Error::InvalidMarker(MarkerError::TypeMismatch)), q),
        Err(e) => (Err(e), q),
    }
}

/// Decodes exactly an `I8` element: the marker and one payload byte.
pub fn read_i8(rd: &mut ByteSource) -> (r: Result<i8, Error>)
    ensures
        final(rd).bytes() == old(rd).bytes(),
        (r, final(rd).pos()) == spec_read_i8(old(rd).bytes(), old(rd).pos()),
{
    match read_marker(rd) {
        Ok(Marker::I8) => read_data_i8(rd),
        Ok(_) => Err(Error::InvalidMarker(MarkerError::TypeMismatch)),
        Err(e) => Err(e),
    }
}

/// The outcome of decoding a strict `i16` element at position `p` of `s`.
pub open spec fn spec_read_i16(s: Seq<u8>, p: int) -> (Result<i16, Error>, int) {
    let (m, q) = spec_read_marker(s, p);
    match m {
        Ok(Marker::I16) => spec_data_i16(s, q),
        Ok(_) => (Err(Error::InvalidMarker(MarkerError::TypeMismatch)), q),
        Err(e) => (Err(e), q),
    }
}

/// Decodes exactly an `I16` element: the marker and two big-endian bytes.
pub fn read_i16(rd: &mut ByteSource) -> (r: Result<i16, Error>)
    ensures
        final(rd).bytes() == old(rd).bytes(),
        (r, final(rd).pos()) == spec_read_i16(old(rd).bytes(), old(rd).pos()),
{
    match read_marker(rd) {
        Ok(Marker::I16) => read_data_i16(rd),
        Ok(_) => Err(Error::InvalidMarker(MarkerError::TypeMismatch)),
        Err(e) => Err(e),
    }
}

/// The outcome of decoding a strict `i32` element at position `p` of `s`.
pub open spec fn spec_read_i32(s: Seq<u8>, p: int) -> (Result<i32, Error>, int) {
    let (m, q) = spec_read_marker(s, p);
    match m {
        Ok(Marker::I32) => spec_data_i32(s, q),
        Ok(_) => (Err(Error::InvalidMarker(MarkerError::TypeMismatch)), q),
        Err(e) => (Err(e), q),
    }
}

/// Decodes exactly an `I32` element: the marker and four big-endian bytes.
pub fn read_i32(rd: &mut ByteSource) -> (r: Result<i32, Error>)
    ensures
        final(rd).bytes() == old(rd).bytes(),
        (r, final(rd).pos()) == spec_read_i32(old(rd).bytes(), old(rd).pos()),
{
    match read_marker(rd) {
        Ok(Marker::I32) => read_data_i32(rd),
        Ok(_) => Err(Error::InvalidMarker(MarkerError::TypeMismatch)),
        Err(e) => Err(e),
    }
}

/// The outcome of decoding a strict `i64` element at position `p` of `s`.
pub open spec fn spec_read_i64(s: Seq<u8>, p: int) -> (Result<i64, Error>, int) {
    let (m, q) = spec_read_marker(s, p);
    match m {
        Ok(Marker::I64) => spec_data_i64(s, q),
        Ok(_) => (Err(Error::InvalidMarker(MarkerError::TypeMismatch)), q),
        Err(e) => (Err(e), q),
    }
}

/// Decodes exactly an `I64` element: the marker and eight big-endian bytes.
pub fn read_i64(rd: &mut ByteSource) -> (r: Result<i64, Error>)
    ensures
        final(rd).bytes() == old(rd).bytes(),
        (r, final(rd).pos()) == spec_read_i64(old(rd).bytes(), old(rd).pos()),
{
    match read_marker(rd) {
        Ok(Marker::I64) => read_data_i64(rd),
        Ok(_) => Err(Error::InvalidMarker(MarkerError::TypeMismatch)),
        Err(e) => Err(e),
    }
}

/// The outcome of a lax unsigned decode at position `p` of `s`: any unsigned
/// marker, widened to `u64`.
pub open spec fn spec_read_u64_loosely(s: Seq<u8>, p: int) -> (Result<u64, Error>, int) {
    let (m, q) = spec_read_marker(s, p);
    match m {
        Ok(Marker::PositiveFixnum(v)) => (Ok(v as u64), q),
        Ok(Marker::U8) => {
            let (d, q2) = spec_data_u8(s, q);
            match d {
                Ok(v) => (Ok(v as u64), q2),
                Err(e) => (Err(e), q2),
            }
        },
        Ok(Marker::U16) => {
            let (d, q2) = spec_data_u16(s, q);
            match d {
                Ok(v) => (Ok(v as u64), q2),
                Err(e) => (Err(e), q2),
            }
        },
        Ok(Marker::U32) => {
            let (d, q2) = spec_data_u32(s, q);
            match d {
                Ok(v) => (Ok(v as u64), q2),
                Err(e) => (Err(e), q2),
            }
        },
        Ok(Marker::U64) => spec_data_u64(s, q),
        Ok(_) => (Err(Error::InvalidMarker(MarkerError::TypeMismatch)), q),
        Err(e) => (Err(e), q),
    }
}

/// Decodes any unsigned integer element — positive fixnum or `U8` through
/// `U64` — and widens it to `u64`. Signed forms are rejected with a type
/// mismatch: this reader expresses the intent "I know this is non-negative".
pub fn read_u64_loosely(rd: &mut ByteSource) -> (r: Result<u64, Error>)
    ensures
        final(rd).bytes() == old(rd).bytes(),
        (r, final(rd).pos()) == spec_read_u64_loosely(old(rd).bytes(), old(rd).pos()),
{
    match read_marker(rd) {
        Ok(Marker::PositiveFixnum(v)) => Ok(v as u64),
        Ok(Marker::U8) => match read_data_u8(rd) {
            Ok(v) => Ok(v as u64),
            Err(e) => Err(e),
        },
        Ok(Marker::U16) => match read_data_u16(rd) {
            Ok(v) => Ok(v as u64),
            Err(e) => Err(e),
        },
        Ok(Marker::U32) => match read_data_u32(rd) {
            Ok(v) => Ok(v as u64),
            Err(e) => Err(e),
        },
        Ok(Marker::U64) => read_data_u64(rd),
        Ok(_) => Err(Error::InvalidMarker(MarkerError::TypeMismatch)),
        Err(e) => Err(e),
    }
}

/// The outcome of a lax signed decode at position `p` of `s`: any signed
/// marker, widened to `i64`.
pub open spec fn spec_read_i64_loosely(s: Seq<u8>, p: int) -> (Result<i64, Error>, int) {
    let (m, q) = spec_read_marker(s, p);
    match m {
        Ok(Marker::NegativeFixnum(v)) => (Ok(v as i64), q),
        Ok(Marker::I8) => {
            let (d, q2) = spec_data_i8(s, q);
            match d {
                Ok(v) => (Ok(v as i64), q2),
                Err(e) => (Err(e), q2),
            }
        },
        Ok(Marker::I16) => {
            let (d, q2) = spec_data_i16(s, q);
            match d {
                Ok(v) => (Ok(v as i64), q2),
                Err(e) => (Err(e), q2),
            }
        },
        Ok(Marker::I32) => {
            let (d, q2) = spec_data_i32(s, q);
            match d {
                Ok(v) => (Ok(v as i64), q2),
                Err(e) => (Err(e), q2),
            }
        },
        Ok(Marker::I64) => spec_data_i64(s, q),
        Ok(_) => (Err(Error::InvalidMarker(MarkerError::TypeMismatch)), q),
        Err(e) => (Err(e), q),
    }
}

/// Decodes any signed integer element — negative fixnum or `I8` through
/// `I64` — and widens it to `i64`. Unsigned forms, positive fixnums included,
/// are rejected with a type mismatch: this reader expresses the intent "I
/// know this may be negative".
pub fn read_i64_loosely(rd: &mut ByteSource) -> (r: Result<i64, Error>)
    ensures
        final(rd).bytes() == old(rd).bytes(),
        (r, final(rd).pos()) == spec_read_i64_loosely(old(rd).bytes(), old(rd).pos()),
{
    match read_marker(rd) {
        Ok(Marker::NegativeFixnum(v)) => Ok(v as i64),
        Ok(Marker::I8) => match read_data_i8(rd) {
            Ok(v) => Ok(v as i64),
            Err(e) => Err(e),
        },
        Ok(Marker::I16) => match read_data_i16(rd) {
            Ok(v) => Ok(v as i64),
            Err(e) => Err(e),
        },
        Ok(Marker::I32) => match read_data_i32(rd) {
            Ok(v) => Ok(v as i64),
            Err(e) => Err(e),
        },
        Ok(Marker::I64) => read_data_i64(rd),
        Ok(_) => Err(Error::InvalidMarker(MarkerError::TypeMismatch)),
        Err(e) => Err(e),
    }
}

/// The outcome of decoding the raw bits of an `F32` element at position `p`.
pub open spec fn spec_read_f32_bits(s: Seq<u8>, p: int) -> (Result<u32, Error>, int) {
    let (m, q) = spec_read_marker(s, p);
    match m {
        Ok(Marker::F32) => spec_data_u32(s, q),
        Ok(_) => (Err(Error::InvalidMarker(MarkerError::TypeMismatch)), q),
        Err(e) => (Err(e), q),
    }
}

/// Decodes exactly an `F32` element, returning the raw big-endian bits of the
/// 32-bit IEEE 754 payload. Callers reinterpret the bits as a float.
pub fn read_f32_bits(rd: &mut ByteSource) -> (r: Result<u32, Error>)
    ensures
        final(rd).bytes() == old(rd).bytes(),
        (r, final(rd).pos()) == spec_read_f32_bits(old(rd).bytes(), old(rd).pos()),
{
    match read_marker(rd) {
        Ok(Marker::F32) => read_data_u32(rd),
        Ok(_) => Err(Error::InvalidMarker(MarkerError::TypeMismatch)),
        Err(e) => Err(e),
    }
}

/// The outcome of decoding the raw bits of an `F64` element at position `p`.
pub open spec fn spec_read_f64_bits(s: Seq<u8>, p: int) -> (Result<u64, Error>, int) {
    let (m, q) = spec_read_marker(s, p);
    match m {
        Ok(Marker::F64) => spec_data_u64(s, q),
        Ok(_) => (Err(Error::InvalidMarker(MarkerError::TypeMismatch)), q),
        Err(e) => (Err(e), q),
    }
}

/// Decodes exactly an `F64` element, returning the raw big-endian bits of the
/// 64-bit IEEE 754 payload. Callers reinterpret the bits as a float.
pub fn read_f64_bits(rd: &mut ByteSource) -> (r: Result<u64, Error>)
    ensures
        final(rd).bytes() == old(rd).bytes(),
        (r, final(rd).pos()) == spec_read_f64_bits(old(rd).bytes(), old(rd).pos()),
{
    match read_marker(rd) {
        Ok(Marker::F64) => read_data_u64(rd),
        Ok(_) => Err(Error::InvalidMarker(MarkerError::TypeMismatch)),
        Err(e) => Err(e),
    }
}

} // verus!
