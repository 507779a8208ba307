use vstd::array::array_fill_for_copy_types;
use vstd::prelude::*;

use crate::data::{
    read_data_i8, read_data_u16, read_data_u32, read_data_u8, spec_copy_data, spec_data_i8,
    spec_data_u16, spec_data_u32, spec_data_u8, spec_read_data,
};
use crate::error::{Error, MarkerError, ReadError};
use crate::marker::Marker;
use crate::source::{read_marker, spec_read_marker, ByteSource};

verus! {

/// The header of a MessagePack extension value: an application-defined type
/// id and the byte size of the payload that follows the header.
#[derive(Clone, Copy, Debug, PartialEq, Eq, Structural)]
pub struct ExtMeta {
    pub typeid: i8,
    pub size: u32,
}

/// Copies a slice of exactly `N` bytes into an array.
fn to_array<const N: usize>(s: &[u8]) -> (r: [u8; N])
    requires
        s@.len() == N,
    ensures
        r@ == s@,
{
    let mut out = array_fill_for_copy_types::<u8, N>(0u8);
    let mut i: usize = 0;
    while i < N
        invariant
            s@.len() == N,
            out@.len() == N,
            i <= N,
            forall|j: int| 0 <= j < i ==> out@[j] == s@[j],
        decreases N - i,
    {
        out[i] = s[i];
        i = i + 1;
    }
    proof {
        assert(out@ =~= s@);
    }
    out
}

/// The outcome of decoding a one-byte fixed extension at position `p` of
/// `s`: the marker `FixExt1`, a type id byte, and one payload byte.
pub open spec fn spec_read_fixext1(s: Seq<u8>, p: int) -> (Result<(i8, u8), Error>, int) {
    let (m, q) = spec_read_marker(s, p);
    match m {
        Ok(Marker::FixExt1) => {
            let (d, q2) = spec_data_i8(s, q);
            match d {
                Ok(id) => {
                    let (d2, q3) = spec_data_u8(s, q2);
                    match d2 {
                        Ok(v) => (Ok((id, v)), q3),
                        Err(e) => (Err(e), q3),
                    }
                },
                Err(e) => (Err(e), q2),
            }
        },
        Ok(_) => (Err(Error::InvalidMarker(MarkerError::TypeMismatch)), q),
        Err(e) => (Err(e), q),
    }
}

/// Decodes exactly a `FixExt1` element: type id, then one payload byte.
pub fn read_fixext1(rd: &mut ByteSource) -> (r: Result<(i8, u8), Error>)
    ensures
        final(rd).bytes() == old(rd).bytes(),
        (r, final(rd).pos()) == spec_read_fixext1(old(rd).bytes(), old(rd).pos()),
{
    match read_marker(rd) {
        Ok(Marker::FixExt1) => match read_data_i8(rd) {
            Ok(id) => match read_data_u8(rd) {
                Ok(v) => Ok((id, v)),
                Err(e) => Err(e),
            },
            Err(e) => Err(e),
        },
        Ok(_) => Err(Error::InvalidMarker(MarkerError::TypeMismatch)),
        Err(e) => Err(e),
    }
}

/// The outcome of decoding a two-byte fixed extension at position `p` of
/// `s`: the marker `FixExt2`, a type id byte, and a big-endian `u16` payload.
pub open spec fn spec_read_fixext2(s: Seq<u8>, p: int) -> (Result<(i8, u16), Error>, int) {
    let (m, q) = spec_read_marker(s, p);
    match m {
        Ok(Marker::FixExt2) => {
            let (d, q2) = spec_data_i8(s, q);
            match d {
                Ok(id) => {
                    let (d2, q3) = spec_data_u16(s, q2);
                    match d2 {
                        Ok(v) => (Ok((id, v)), q3),
                        Err(e) => (Err(e), q3),
                    }
                },
                Err(e) => (Err(e), q2),
            }
        },
        Ok(_) => (Err(Error::InvalidMarker(MarkerError::TypeMismatch)), q),
        Err(e) => (Err(e), q),
    }
}

/// Decodes exactly a `FixExt2` element: type id, then two big-endian payload
/// bytes.
pub fn read_fixext2(rd: &mut ByteSource) -> (r: Result<(i8, u16), Error>)
    ensures
        final(rd).bytes() == old(rd).bytes(),
        (r, final(rd).pos()) == spec_read_fixext2(old(rd).bytes(), old(rd).pos()),
{
    match read_marker(rd) {
        Ok(Marker::FixExt2) => match read_data_i8(rd) {
            Ok(id) => match read_data_u16(rd) {
                Ok(v) => Ok((id, v)),
                Err(e) => Err(e),
            },
            Err(e) => Err(e),
        },
        Ok(_) => Err(Error::InvalidMarker(MarkerError::TypeMismatch)),
        Err(e) => Err(e),
    }
}

/// The outcome of decoding a four-byte fixed extension at position `p` of
/// `s`: the marker `FixExt4`, a type id byte, and four raw payload bytes in
/// wire order. A truncated payload is a data-read failure, as for the other
/// fixed-width payloads.
pub open spec fn spec_read_fixext4(s: Seq<u8>, p: int) -> (Result<(i8, Seq<u8>), Error>, int) {
    let (m, q) = spec_read_marker(s, p);
    match m {
        Ok(Marker::FixExt4) => {
            let (d, q2) = spec_data_i8(s, q);
            match d {
                Ok(id) => {
                    let (d2, q3) = spec_read_data(s, q2, 4);
                    match d2 {
                        Ok(bs) => (Ok((id, bs)), q3),
                        Err(e) => (Err(e), q3),
                    }
                },
                Err(e) => (Err(e), q2),
            }
        },
        Ok(_) => (Err(Error::InvalidMarker(MarkerError::TypeMismatch)), q),
        Err(e) => (Err(e), q),
    }
}

/// Decodes exactly a `FixExt4` element: type id, then four raw payload bytes
/// in wire order.
pub fn read_fixext4(rd: &mut ByteSource) -> (r: Result<(i8, [u8; 4]), Error>)
    ensures
        final(rd).bytes() == old(rd).bytes(),
        final(rd).pos() == spec_read_fixext4(old(rd).bytes(), old(rd).pos()).1,
        (match r {
            Ok(v) => spec_read_fixext4(old(rd).bytes(), old(rd).pos()).0 == Ok::<
                (i8, Seq<u8>),
                Error,
            >((v.0, v.1@)),
            Err(e) => spec_read_fixext4(old(rd).bytes(), old(rd).pos()).0 == Err::<
                (i8, Seq<u8>),
                Error,
            >(e),
        }),
{
    match read_marker(rd) {
        Ok(Marker::FixExt4) => match read_data_i8(rd) {
            Ok(id) => {
                let s = rd.read_bytes(4);
                if s.len() == 4 {
                    Ok((id, to_array::<4>(s)))
                } else {
                    Err(Error::InvalidDataRead(ReadError::UnexpectedEOF))
                }
            },
            Err(e) => Err(e),
        },
        Ok(_) => Err(Error::InvalidMarker(MarkerError::TypeMismatch)),
        Err(e) => Err(e),
    }
}

/// The outcome of decoding an eight-byte fixed extension at position `p` of
/// `s`: the marker `FixExt8`, a type id byte, and eight raw payload bytes. A
/// truncated payload is a partial-copy failure that carries how many bytes
/// could be copied.
pub open spec fn spec_read_fixext8(s: Seq<u8>, p: int) -> (Result<(i8, Seq<u8>), Error>, int) {
    let (m, q) = spec_read_marker(s, p);
    match m {
        Ok(Marker::FixExt8) => {
            let (d, q2) = spec_data_i8(s, q);
            match d {
                Ok(id) => {
                    let (d2, q3) = spec_copy_data(s, q2, 8);
                    match d2 {
                        Ok(bs) => (Ok((id, bs)), q3),
                        Err(e) => (Err(e), q3),
                    }
                },
                Err(e) => (Err(e), q2),
            }
        },
        Ok(_) => (Err(Error::InvalidMarker(MarkerError::TypeMismatch)), q),
        Err(e) => (Err(e), q),
    }
}

/// Decodes exactly a `FixExt8` element: type id, then eight raw payload bytes
/// in wire order.
pub fn read_fixext8(rd: &mut ByteSource) -> (r: Result<(i8, [u8; 8]), Error>)
    ensures
        final(rd).bytes() == old(rd).bytes(),
        final(rd).pos() == spec_read_fixext8(old(rd).bytes(), old(rd).pos()).1,
        (match r {
            Ok(v) => spec_read_fixext8(old(rd).bytes(), old(rd).pos()).0 == Ok::<
                (i8, Seq<u8>),
                Error,
            >((v.0, v.1@)),
            Err(e) => spec_read_fixext8(old(rd).bytes(), old(rd).pos()).0 == Err::<
                (i8, Seq<u8>),
                Error,
            >(e),
        }),
{
    match read_marker(rd) {
        Ok(Marker::FixExt8) => match read_data_i8(rd) {
            Ok(id) => {
                let s = rd.read_bytes(8);
                if s.len() == 8 {
                    Ok((id, to_array::<8>(s)))
                } else {
                    Err(Error::InvalidDataCopy(s.len() as u32, ReadError::UnexpectedEOF))
                }
            },
            Err(e) => Err(e),
        },
        Ok(_) => Err(Error::InvalidMarker(MarkerError::TypeMismatch)),
        Err(e) => Err(e),
    }
}

/// The outcome of decoding a sixteen-byte fixed extension at position `p` of
/// `s`: the marker `FixExt16`, a type id byte, and sixteen raw payload bytes.
/// A truncated payload is a partial-copy failure that carries how many bytes
/// could be copied.
pub open spec fn spec_read_fixext16(s: Seq<u8>, p: int) -> (Result<(i8, Seq<u8>), Error>, int) {
    let (m, q) = spec_read_marker(s, p);
    match m {
        Ok(Marker::FixExt16) => {
            let (d, q2) = spec_data_i8(s, q);
            match d {
                Ok(id) => {
                    let (d2, q3) = spec_copy_data(s, q2, 16);
                    match d2 {
                        Ok(bs) => (Ok((id, bs)), q3),
                        Err(e) => (Err(e), q3),
                    }
                },
                Err(e) => (Err(e), q2),
            }
        },
        Ok(_) => (Err(Error::InvalidMarker(MarkerError::TypeMismatch)), q),
        Err(e) => (Err(e), q),
    }
}

/// Decodes exactly a `FixExt16` element: type id, then sixteen raw payload
/// bytes in wire order.
pub fn read_fixext16(rd: &mut ByteSource) -> (r: Result<(i8, [u8; 16]), Error>)
    ensures
        final(rd).bytes() == old(rd).bytes(),
        final(rd).pos() == spec_read_fixext16(old(rd).bytes(), old(rd).pos()).1,
        (match r {
            Ok(v) => spec_read_fixext16(old(rd).bytes(), old(rd).pos()).0 == Ok::<
                (i8, Seq<u8>),
                Error,
            >((v.0, v.1@)),
            Err(e) => spec_read_fixext16(old(rd).bytes(), old(rd).pos()).0 == Err::<
                (i8, Seq<u8>),
                Error,
            >(e),
        }),
{
    match read_marker(rd) {
        Ok(Marker::FixExt16) => match read_data_i8(rd) {
            Ok(id) => {
                let s = rd.read_bytes(16);
                if s.len() == 16 {
                    Ok((id, to_array::<16>(s)))
                } else {
                    Err(Error::InvalidDataCopy(s.len() as u32, ReadError::UnexpectedEOF))
                }
            },
            Err(e) => Err(e),
        },
        Ok(_) => Err(Error::InvalidMarker(MarkerError::TypeMismatch)),
        Err(e) => Err(e),
    }
}

/// The declared payload size of an extension element at position `p` of `s`:
/// implicit in the five fixed markers, or read from one, two or four
/// big-endian bytes for `Ext8`, `Ext16` and `Ext32`.
pub open spec fn spec_ext_size(s: Seq<u8>, q: int, mk: Marker) -> (Result<u32, Error>, int) {
    match mk {
        Marker::FixExt1 => (Ok(1u32), q),
        Marker::FixExt2 => (Ok(2u32), q),
        Marker::FixExt4 => (Ok(4u32), q),
        Marker::FixExt8 => (Ok(8u32), q),
        Marker::FixExt16 => (Ok(16u32), q),
        Marker::Ext8 => {
            let (d, q2) = spec_data_u8(s, q);
            match d {
                Ok(v) => (Ok(v as u32), q2),
                Err(e) => (Err(e), q2),
            }
        },
        Marker::Ext16 => {
            let (d, q2) = spec_data_u16(s, q);
            match d {
                Ok(v) => (Ok(v as u32), q2),
                Err(e) => (Err(e), q2),
            }
        },
        Marker::Ext32 => spec_data_u32(s, q),
        _ => (Err(Error::InvalidMarker(MarkerError::TypeMismatch)), q),
    }
}

/// The outcome of decoding an extension header at position `p` of `s`: the
/// marker, the declared size, then the type id byte.
pub open spec fn spec_read_ext_meta(s: Seq<u8>, p: int) -> (Result<ExtMeta, Error>, int) {
    let (m, q) = spec_read_marker(s, p);
    match m {
        Ok(mk) => {
            let (sz, q2) = spec_ext_size(s, q, mk);
            match sz {
                Ok(size) => {
                    let (d, q3) = spec_data_i8(s, q2);
                    match d {
                        Ok(id) => (Ok(ExtMeta { typeid: id, size }), q3),
                        Err(e) => (Err(e), q3),
                    }
                },
                Err(e) => (Err(e), q2),
            }
        },
        Err(e) => (Err(e), q),
    }
}

/// Decodes an extension header: any `FixExt*` or `Ext*` marker, the declared
/// payload size, and the type id. The payload itself is left for the caller.
pub fn read_ext_meta(rd: &mut ByteSource) -> (r: Result<ExtMeta, Error>)
    ensures
        final(rd).bytes() == old(rd).bytes(),
        (r, final(rd).pos()) == spec_read_ext_meta(old(rd).bytes(), old(rd).pos()),
{
    let size = match read_marker(rd) {
        Ok(Marker::FixExt1) => 1u32,
        Ok(Marker::FixExt2) => 2u32,
        Ok(Marker::FixExt4) => 4u32,
        Ok(Marker::FixExt8) => 8u32,
        Ok(Marker::FixExt16) => 16u32,
        Ok(Marker::Ext8) => match read_data_u8(rd) {
            Ok(v) => v as u32,
            Err(e) => {
                return Err(e);
            },
        },
        Ok(Marker::Ext16) => match read_data_u16(rd) {
            Ok(v) => v as u32,
            Err(e) => {
                return Err(e);
            },
        },
        Ok(Marker::Ext32) => match read_data_u32(rd) {
            Ok(v) => v,
            Err(e) => {
                return Err(e);
            },
        },
        Ok(_) => {
            return Err(Error::InvalidMarker(MarkerError::TypeMismatch));
        },
        Err(e) => {
            return Err(e);
        },
    };
    match read_data_i8(rd) {
        Ok(typeid) => Ok(ExtMeta { typeid, size }),
        Err(e) => Err(e),
    }
}

} // verus!
