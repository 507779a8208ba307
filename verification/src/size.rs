use vstd::prelude::*;

use crate::data::{
    read_data_u16, read_data_u32, read_data_u8, spec_data_u16, spec_data_u32, spec_data_u8,
};
use crate::error::{Error, MarkerError};
use crate::marker::Marker;
use crate::source::{read_marker, spec_read_marker, ByteSource};

verus! {

/// How many length bytes follow a length-prefixed marker: none for the fix
/// forms, one, two or four for the 8-, 16- and 32-bit forms.
pub open spec fn payload_length_width(m: Marker) -> int {
    match m {
        Marker::FixedString(_) => 0,
        Marker::FixedArray(_) => 0,
        Marker::FixedMap(_) => 0,
        Marker::Str8 => 1,
        Marker::Bin8 => 1,
        Marker::Str16 => 2,
        Marker::Bin16 => 2,
        Marker::Array16 => 2,
        Marker::Map16 => 2,
        Marker::Str32 => 4,
        Marker::Bin32 => 4,
        Marker::Array32 => 4,
        Marker::Map32 => 4,
        _ => 0,
    }
}

/// The outcome of decoding a string length at position `p` of `s`: a fixstr
/// length packed in the marker, or a 1-, 2- or 4-byte big-endian length.
pub open spec fn spec_read_str_len(s: Seq<u8>, p: int) -> (Result<u32, Error>, int) {
    let (m, q) = spec_read_marker(s, p);
    match m {
        Ok(Marker::FixedString(n)) => (Ok(n as u32), q),
        Ok(Marker::Str8) => {
            let (d, q2) = spec_data_u8(s, q);
            match d {
                Ok(v) => (Ok(v as u32), q2),
                Err(e) => (Err(e), q2),
            }
        },
        Ok(Marker::Str16) => {
            let (d, q2) = spec_data_u16(s, q);
            match d {
                Ok(v) => (Ok(v as u32), q2),
                Err(e) => (Err(e), q2),
            }
        },
        Ok(Marker::Str32) => spec_data_u32(s, q),
        Ok(_) => (Err(Error::InvalidMarker(MarkerError::TypeMismatch)), q),
        Err(e) => (Err(e), q),
    }
}

/// Decodes a string's declared byte length: marker plus length bytes only;
/// the payload is left for the caller.
pub fn read_str_len(rd: &mut ByteSource) -> (r: Result<u32, Error>)
    ensures
        final(rd).bytes() == old(rd).bytes(),
        (r, final(rd).pos()) == spec_read_str_len(old(rd).bytes(), old(rd).pos()),
{
    match read_marker(rd) {
        Ok(Marker::FixedString(n)) => Ok(n as u32),
        Ok(Marker::Str8) => match read_data_u8(rd) {
            Ok(v) => Ok(v as u32),
            Err(e) => Err(e),
        },
        Ok(Marker::Str16) => match read_data_u16(rd) {
            Ok(v) => Ok(v as u32),
            Err(e) => Err(e),
        },
        Ok(Marker::Str32) => read_data_u32(rd),
        Ok(_) => Err(Error::InvalidMarker(MarkerError::TypeMismatch)),
        Err(e) => Err(e),
    }
}

/// The outcome of decoding a binary-blob length at position `p` of `s`.
pub open spec fn spec_read_bin_len(s: Seq<u8>, p: int) -> (Result<u32, Error>, int) {
    let (m, q) = spec_read_marker(s, p);
    match m {
        Ok(Marker::Bin8) => {
            let (d, q2) = spec_data_u8(s, q);
            match d {
                Ok(v) => (Ok(v as u32), q2),
                Err(e) => (Err(e), q2),
            }
        },
        Ok(Marker::Bin16) => {
            let (d, q2) = spec_data_u16(s, q);
            match d {
                Ok(v) => (Ok(v as u32), q2),
                Err(e) => (Err(e), q2),
            }
        },
        Ok(Marker::Bin32) => spec_data_u32(s, q),
        Ok(_) => (Err(Error::InvalidMarker(MarkerError::TypeMismatch)), q),
        Err(e) => (Err(e), q),
    }
}

/// Decodes a binary blob's declared byte length: marker plus length bytes
/// only; the payload is left for the caller.
pub fn read_bin_len(rd: &mut ByteSource) -> (r: Result<u32, Error>)
    ensures
        final(rd).bytes() == old(rd).bytes(),
        (r, final(rd).pos()) == spec_read_bin_len(old(rd).bytes(), old(rd).pos()),
{
    match read_marker(rd) {
        Ok(Marker::Bin8) => match read_data_u8(rd) {
            Ok(v) => Ok(v as u32),
            Err(e) => Err(e),
        },
        Ok(Marker::Bin16) => match read_data_u16(rd) {
            Ok(v) => Ok(v as u32),
            Err(e) => Err(e),
        },
        Ok(Marker::Bin32) => read_data_u32(rd),
        Ok(_) => Err(Error::InvalidMarker(MarkerError::TypeMismatch)),
        Err(e) => Err(e),
    }
}

/// The outcome of decoding an array element count at position `p` of `s`.
pub open spec fn spec_read_array_size(s: Seq<u8>, p: int) -> (Result<u32, Error>, int) {
    let (m, q) = spec_read_marker(s, p);
    match m {
        Ok(Marker::FixedArray(n)) => (Ok(n as u32), q),
        Ok(Marker::Array16) => {
            let (d, q2) = spec_data_u16(s, q);
            match d {
                Ok(v) => (Ok(v as u32), q2),
                Err(e) => (Err(e), q2),
            }
        },
        Ok(Marker::Array32) => spec_data_u32(s, q),
        Ok(_) => (Err(Error::InvalidMarker(MarkerError::TypeMismatch)), q),
        Err(e) => (Err(e), q),
    }
}

/// Decodes an array's element count: marker plus count bytes only; the caller
/// then reads that many elements.
pub fn read_array_size(rd: &mut ByteSource) -> (r: Result<u32, Error>)
    ensures
        final(rd).bytes() == old(rd).bytes(),
        (r, final(rd).pos()) == spec_read_array_size(old(rd).bytes(), old(rd).pos()),
{
    match read_marker(rd) {
        Ok(Marker::FixedArray(n)) => Ok(n as u32),
        Ok(Marker::Array16) => match read_data_u16(rd) {
            Ok(v) => Ok(v as u32),
            Err(e) => Err(e),
        },
        Ok(Marker::Array32) => read_data_u32(rd),
        Ok(_) => Err(Error::InvalidMarker(MarkerError::TypeMismatch)),
        Err(e) => Err(e),
    }
}

/// The outcome of decoding a map pair count at position `p` of `s`.
pub open spec fn spec_read_map_size(s: Seq<u8>, p: int) -> (Result<u32, Error>, int) {
    let (m, q) = spec_read_marker(s, p);
    match m {
        Ok(Marker::FixedMap(n)) => (Ok(n as u32), q),
        Ok(Marker::Map16) => {
            let (d, q2) = spec_data_u16(s, q);
            match d {
                Ok(v) => (Ok(v as u32), q2),
                Err(e) => (Err(e), q2),
            }
        },
        Ok(Marker::Map32) => spec_data_u32(s, q),
        Ok(_) => (Err(Error::InvalidMarker(MarkerError::TypeMismatch)), q),
        Err(e) => (Err(e), q),
    }
}

/// Decodes a map's key-value pair count: marker plus count bytes only; the
/// caller then reads that many alternating keys and values.
pub fn read_map_size(rd: &mut ByteSource) -> (r: Result<u32, Error>)
    ensures
        final(rd).bytes() == old(rd).bytes(),
        (r, final(rd).pos()) == spec_read_map_size(old(rd).bytes(), old(rd).pos()),
{
    match read_marker(rd) {
        Ok(Marker::FixedMap(n)) => Ok(n as u32),
        Ok(Marker::Map16) => match read_data_u16(rd) {
            Ok(v) => Ok(v as u32),
            Err(e) => Err(e),
        },
        Ok(Marker::Map32) => read_data_u32(rd),
        Ok(_) => Err(Error::InvalidMarker(MarkerError::TypeMismatch)),
        Err(e) => Err(e),
    }
}

} // verus!
