use vstd::prelude::*;

use crate::error::{Error, ReadError};
use crate::marker::byte_as_i8;
use crate::source::ByteSource;

use byteorder::ByteOrder;

verus! {

/// The value of two big-endian bytes.
pub open spec fn be_u16(s: Seq<u8>) -> u16
    recommends
        s.len() == 2,
{
    ((s[0] as u16) << 8) | (s[1] as u16)
}

/// The value of four big-endian bytes.
pub open spec fn be_u32(s: Seq<u8>) -> u32
    recommends
        s.len() == 4,
{
    ((s[0] as u32) << 24) | ((s[1] as u32) << 16) | ((s[2] as u32) << 8) | (s[3] as u32)
}

/// The value of eight big-endian bytes.
pub open spec fn be_u64(s: Seq<u8>) -> u64
    recommends
        s.len() == 8,
{
    ((s[0] as u64) << 56) | ((s[1] as u64) << 48) | ((s[2] as u64) << 40) | ((s[3] as u64) << 32)
        | ((s[4] as u64) << 24) | ((s[5] as u64) << 16) | ((s[6] as u64) << 8) | (s[7] as u64)
}

/// The two's-complement reinterpretation of two big-endian bytes.
pub open spec fn be_i16(s: Seq<u8>) -> i16
    recommends
        s.len() == 2,
{
    be_u16(s) as i16
}

/// The two's-complement reinterpretation of four big-endian bytes.
pub open spec fn be_i32(s: Seq<u8>) -> i32
    recommends
        s.len() == 4,
{
    be_u32(s) as i32
}

/// The two's-complement reinterpretation of eight big-endian bytes.
pub open spec fn be_i64(s: Seq<u8>) -> i64
    recommends
        s.len() == 8,
{
    be_u64(s) as i64
}

/// Relies on byteorder's `BigEndian::read_u16`: the big-endian value of the
/// two bytes of `b`.
#[verifier::external_body]
fn be_read_u16(b: &[u8]) -> (r: u16)
    requires
        b@.len() == 2,
    ensures
        r == be_u16(b@),
{
    byteorder::BigEndian::read_u16(b)
}

/// Relies on byteorder's `BigEndian::read_u32`: the big-endian value of the
/// four bytes of `b`.
#[verifier::external_body]
fn be_read_u32(b: &[u8]) -> (r: u32)
    requires
        b@.len() == 4,
    ensures
        r == be_u32(b@),
{
    byteorder::BigEndian::read_u32(b)
}

/// Relies on byteorder's `BigEndian::read_u64`: the big-endian value of the
/// eight bytes of `b`.
#[verifier::external_body]
fn be_read_u64(b: &[u8]) -> (r: u64)
    requires
        b@.len() == 8,
    ensures
        r == be_u64(b@),
{
    byteorder::BigEndian::read_u64(b)
}

/// Relies on byteorder's `BigEndian::read_i16`: the two's-complement
/// reinterpretation of `BigEndian::read_u16`.
#[verifier::external_body]
fn be_read_i16(b: &[u8]) -> (r: i16)
    requires
        b@.len() == 2,
    ensures
        r == be_i16(b@),
{
    byteorder::BigEndian::read_i16(b)
}

/// Relies on byteorder's `BigEndian::read_i32`: the two's-complement
/// reinterpretation of `BigEndian::read_u32`.
#[verifier::external_body]
fn be_read_i32(b: &[u8]) -> (r: i32)
    requires
        b@.len() == 4,
    ensures
        r == be_i32(b@),
{
    byteorder::BigEndian::read_i32(b)
}

/// Relies on byteorder's `BigEndian::read_i64`: the two's-complement
/// reinterpretation of `BigEndian::read_u64`.
#[verifier::external_body]
fn be_read_i64(b: &[u8]) -> (r: i64)
    requires
        b@.len() == 8,
    ensures
        r == be_i64(b@),
{
    byteorder::BigEndian::read_i64(b)
}

/// The payload-phase outcome of reading `k` fixed bytes at position `p` of
/// `s`: the bytes, with the position moved past them, or the data-read error,
/// with everything that remained consumed.
pub open spec fn spec_read_data(s: Seq<u8>, p: int, k: int) -> (Result<Seq<u8>, Error>, int) {
    if p + k <= s.len() {
        (Ok(s.subrange(p, p + k)), p + k)
    } else {
        (Err(Error::InvalidDataRead(ReadError::UnexpectedEOF)), s.len() as int)
    }
}

/// The payload-phase outcome of copying `k` variable-length bytes at
/// position `p` of `s`: the bytes, or — when the source ran out — how many of
/// them could still be copied.
pub open spec fn spec_copy_data(s: Seq<u8>, p: int, k: int) -> (Result<Seq<u8>, Error>, int) {
    if p + k <= s.len() {
        (Ok(s.subrange(p, p + k)), p + k)
    } else {
        (
            (Err(Error::InvalidDataCopy((s.len() - p) as u32, ReadError::UnexpectedEOF))),
            s.len() as int,
        )
    }
}

/// The payload-phase outcome of a one-byte unsigned read.
pub open spec fn spec_data_u8(s: Seq<u8>, p: int) -> (Result<u8, Error>, int) {
    let (d, q) = spec_read_data(s, p, 1);
    match d {
        Ok(bs) => (Ok(bs[0]), q),
        Err(e) => (Err(e), q),
    }
}

/// The payload-phase outcome of a one-byte signed read.
pub open spec fn spec_data_i8(s: Seq<u8>, p: int) -> (Result<i8, Error>, int) {
    let (d, q) = spec_read_data(s, p, 1);
    match d {
        Ok(bs) => (Ok(byte_as_i8(bs[0])), q),
        Err(e) => (Err(e), q),
    }
}

/// The payload-phase outcome of a two-byte big-endian unsigned read.
pub open spec fn spec_data_u16(s: Seq<u8>, p: int) -> (Result<u16, Error>, int) {
    let (d, q) = spec_read_data(s, p, 2);
    match d {
        Ok(bs) => (Ok(be_u16(bs)), q),
        Err(e) => (Err(e), q),
    }
}

/// The payload-phase outcome of a four-byte big-endian unsigned read.
pub open spec fn spec_data_u32(s: Seq<u8>, p: int) -> (Result<u32, Error>, int) {
    let (d, q) = spec_read_data(s, p, 4);
    match d {
        Ok(bs) => (Ok(be_u32(bs)), q),
        Err(e) => (Err(e), q),
    }
}

/// The payload-phase outcome of an eight-byte big-endian unsigned read.
pub open spec fn spec_data_u64(s: Seq<u8>, p: int) -> (Result<u64, Error>, int) {
    let (d, q) = spec_read_data(s, p, 8);
    match d {
        Ok(bs) => (Ok(be_u64(bs)), q),
        Err(e) => (Err(e), q),
    }
}

/// The payload-phase outcome of a two-byte big-endian signed read.
pub open spec fn spec_data_i16(s: Seq<u8>, p: int) -> (Result<i16, Error>, int) {
    let (d, q) = spec_read_data(s, p, 2);
    match d {
        Ok(bs) => (Ok(be_i16(bs)), q),
        Err(e) => (Err(e), q),
    }
}

/// The payload-phase outcome of a four-byte big-endian signed read.
pub open spec fn spec_data_i32(s: Seq<u8>, p: int) -> (Result<i32, Error>, int) {
    let (d, q) = spec_read_data(s, p, 4);
    match d {
        Ok(bs) => (Ok(be_i32(bs)), q),
        Err(e) => (Err(e), q),
    }
}

/// The payload-phase outcome of an eight-byte big-endian signed read.
pub open spec fn spec_data_i64(s: Seq<u8>, p: int) -> (Result<i64, Error>, int) {
    let (d, q) = spec_read_data(s, p, 8);
    match d {
        Ok(bs) => (Ok(be_i64(bs)), q),
        Err(e) => (Err(e), q),
    }
}

/// Reads one byte of payload.
pub(crate) fn read_data_u8(rd: &mut ByteSource) -> (r: Result<u8, Error>)
    ensures
        final(rd).bytes() == old(rd).bytes(),
        (r, final(rd).pos()) == spec_data_u8(old(rd).bytes(), old(rd).pos()),
{
    let s = rd.read_bytes(1);
    if s.len() == 1 {
        Ok(s[0])
    } else {
        Err(Error::InvalidDataRead(ReadError::UnexpectedEOF))
    }
}

/// Reads one byte of payload as a signed value.
pub(crate) fn read_data_i8(rd: &mut ByteSource) -> (r: Result<i8, Error>)
    ensures
        final(rd).bytes() == old(rd).bytes(),
        (r, final(rd).pos()) == spec_data_i8(old(rd).bytes(), old(rd).pos()),
{
    let s = rd.read_bytes(1);
    if s.len() == 1 {
        Ok(#[verifier::truncate] (s[0] as i8))
    } else {
        Err(Error::InvalidDataRead(ReadError::UnexpectedEOF))
    }
}

/// Reads a two-byte big-endian unsigned payload.
pub(crate) fn read_data_u16(rd: &mut ByteSource) -> (r: Result<u16, Error>)
    ensures
        final(rd).bytes() == old(rd).bytes(),
        (r, final(rd).pos()) == spec_data_u16(old(rd).bytes(), old(rd).pos()),
{
    let s = rd.read_bytes(2);
    if s.len() == 2 {
        Ok(be_read_u16(s))
    } else {
        Err(Error::InvalidDataRead(ReadError::UnexpectedEOF))
    }
}

/// Reads a four-byte big-endian unsigned payload.
pub(crate) fn read_data_u32(rd: &mut ByteSource) -> (r: Result<u32, Error>)
    ensures
        final(rd).bytes() == old(rd).bytes(),
        (r, final(rd).pos()) == spec_data_u32(old(rd).bytes(), old(rd).pos()),
{
    let s = rd.read_bytes(4);
    if s.len() == 4 {
        Ok(be_read_u32(s))
    } else {
        Err(Error::InvalidDataRead(ReadError::UnexpectedEOF))
    }
}

/// Reads an eight-byte big-endian unsigned payload.
pub(crate) fn read_data_u64(rd: &mut ByteSource) -> (r: Result<u64, Error>)
    ensures
        final(rd).bytes() == old(rd).bytes(),
        (r, final(rd).pos()) == spec_data_u64(old(rd).bytes(), old(rd).pos()),
{
    let s = rd.read_bytes(8);
    if s.len() == 8 {
        Ok(be_read_u64(s))
    } else {
        Err(Error::InvalidDataRead(ReadError::UnexpectedEOF))
    }
}

/// Reads a two-byte big-endian signed payload.
pub(crate) fn read_data_i16(rd: &mut ByteSource) -> (r: Result<i16, Error>)
    ensures
        final(rd).bytes() == old(rd).bytes(),
        (r, final(rd).pos()) == spec_data_i16(old(rd).bytes(), old(rd).pos()),
{
    let s = rd.read_bytes(2);
    if s.len() == 2 {
        Ok(be_read_i16(s))
    } else {
        Err(Error::InvalidDataRead(ReadError::UnexpectedEOF))
    }
}

/// Reads a four-byte big-endian signed payload.
pub(crate) fn read_data_i32(rd: &mut ByteSource) -> (r: Result<i32, Error>)
    ensures
        final(rd).bytes() == old(rd).bytes(),
        (r, final(rd).pos()) == spec_data_i32(old(rd).bytes(), old(rd).pos()),
{
    let s = rd.read_bytes(4);
    if s.len() == 4 {
        Ok(be_read_i32(s))
    } else {
        Err(Error::InvalidDataRead(ReadError::UnexpectedEOF))
    }
}

/// Reads an eight-byte big-endian signed payload.
pub(crate) fn read_data_i64(rd: &mut ByteSource) -> (r: Result<i64, Error>)
    ensures
        final(rd).bytes() == old(rd).bytes(),
        (r, final(rd).pos()) == spec_data_i64(old(rd).bytes(), old(rd).pos()),
{
    let s = rd.read_bytes(8);
    if s.len() == 8 {
        Ok(be_read_i64(s))
    } else {
        Err(Error::InvalidDataRead(ReadError::UnexpectedEOF))
    }
}

} // verus!
