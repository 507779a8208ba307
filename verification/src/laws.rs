use vstd::prelude::*;

use crate::data::spec_copy_data;
use crate::error::{Error, MarkerError};
use crate::ext::{
    spec_read_ext_meta, spec_read_fixext1, spec_read_fixext16, spec_read_fixext2,
    spec_read_fixext4, spec_read_fixext8,
};
use crate::marker::{marker_of, Marker};
use crate::scalar::{
    spec_read_bool, spec_read_f32_bits, spec_read_f64_bits, spec_read_i16, spec_read_i32,
    spec_read_i64, spec_read_i64_loosely, spec_read_i8, spec_read_nfix, spec_read_nil,
    spec_read_pfix, spec_read_u16, spec_read_u32, spec_read_u64, spec_read_u64_loosely,
    spec_read_u8,
};
use crate::size::{
    payload_length_width, spec_read_array_size, spec_read_bin_len, spec_read_map_size,
    spec_read_str_len,
};
use crate::source::{spec_read_marker, spec_take};
use crate::value::spec_read_integer;

verus! {

// ---------------------------------------------------------------------------
// Marker coverage
// ---------------------------------------------------------------------------
/// Marker coverage at the reader: over a one-byte source holding `b`, the
/// marker read succeeds for every byte except the reserved `0xc1`, which it
/// reports as unexpected; either way exactly the one byte is consumed.
pub proof fn lemma_read_marker_coverage(b: u8)
    ensures
        b != 0xc1 ==> spec_read_marker(seq![b], 0).0 == Ok::<Marker, Error>(
            marker_of(b)->Some_0,
        ) && marker_of(b) is Some,
        b == 0xc1 ==> spec_read_marker(seq![b], 0).0 == Err::<Marker, Error>(
            Error::InvalidMarker(MarkerError::Unexpected(0xc1)),
        ),
        spec_read_marker(seq![b], 0).1 == 1,
{
    assert(seq![b].len() == 1);
    assert(seq![b][0] == b);
}

// ---------------------------------------------------------------------------
// Length precision
// ---------------------------------------------------------------------------
/// Length precision for the string-length reader: when it succeeds, the
/// position lands exactly one marker byte plus the marker's length-byte width
/// past the start.
pub proof fn lemma_str_len_position(s: Seq<u8>, p: int)
    requires
        spec_read_str_len(s, p).0 is Ok,
    ensures
        marker_of(s[p]) matches Some(m) && spec_read_str_len(s, p).1 == p + 1
            + payload_length_width(m),
{
}

/// Length precision for the binary-length reader.
pub proof fn lemma_bin_len_position(s: Seq<u8>, p: int)
    requires
        spec_read_bin_len(s, p).0 is Ok,
    ensures
        marker_of(s[p]) matches Some(m) && spec_read_bin_len(s, p).1 == p + 1
            + payload_length_width(m),
{
}

/// Length precision for the array-size reader.
pub proof fn lemma_array_size_position(s: Seq<u8>, p: int)
    requires
        spec_read_array_size(s, p).0 is Ok,
    ensures
        marker_of(s[p]) matches Some(m) && spec_read_array_size(s, p).1 == p + 1
            + payload_length_width(m),
{
}

/// Length precision for the map-size reader.
pub proof fn lemma_map_size_position(s: Seq<u8>, p: int)
    requires
        spec_read_map_size(s, p).0 is Ok,
    ensures
        marker_of(s[p]) matches Some(m) && spec_read_map_size(s, p).1 == p + 1
            + payload_length_width(m),
{
}

// ---------------------------------------------------------------------------
// Round trips for the fixed-width numerics
// ---------------------------------------------------------------------------
/// The two big-endian bytes of a 16-bit value.
pub open spec fn be_u16_bytes(v: u16) -> Seq<u8> {
    seq![(v >> 8) as u8, v as u8]
}

/// The four big-endian bytes of a 32-bit value.
pub open spec fn be_u32_bytes(v: u32) -> Seq<u8> {
    seq![(v >> 24) as u8, (v >> 16) as u8, (v >> 8) as u8, v as u8]
}

/// The eight big-endian bytes of a 64-bit value.
pub open spec fn be_u64_bytes(v: u64) -> Seq<u8> {
    seq![
        (v >> 56) as u8,
        (v >> 48) as u8,
        (v >> 40) as u8,
        (v >> 32) as u8,
        (v >> 24) as u8,
        (v >> 16) as u8,
        (v >> 8) as u8,
        v as u8,
    ]
}

/// Round trip: a `U8` element built from any 8-bit value decodes back to
/// exactly that value.
pub proof fn lemma_u8_round_trip(v: u8)
    ensures
        spec_read_u8(seq![0xccu8, v], 0) == (Ok::<u8, Error>(v), 2int),
{
    let s = seq![0xccu8, v];
    assert(s.subrange(1, 2)[0] == v);
}

/// Round trip: an `I8` element built from any signed 8-bit value decodes
/// back to exactly that value.
pub proof fn lemma_i8_round_trip(v: i8)
    ensures
        spec_read_i8(seq![0xd0u8, v as u8], 0) == (Ok::<i8, Error>(v), 2int),
{
    let s = seq![0xd0u8, v as u8];
    assert(s.subrange(1, 2)[0] == v as u8);
    assert((v as u8) as i8 == v) by (bit_vector);
}

/// Round trip: a `U16` element built from any 16-bit value decodes back to
/// exactly that value.
pub proof fn lemma_u16_round_trip(v: u16)
    ensures
        spec_read_u16(seq![0xcdu8] + be_u16_bytes(v), 0) == (Ok::<u16, Error>(v), 3int),
{
    let s = seq![0xcdu8] + be_u16_bytes(v);
    let bs = s.subrange(1, 3);
    assert(bs[0] == (v >> 8) as u8 && bs[1] == v as u8);
    assert(((((v >> 8) as u8) as u16) << 8 | ((v as u8) as u16)) == v) by (bit_vector);
}

/// Round trip: an `I16` element built from any signed 16-bit value decodes
/// back to exactly that value.
pub proof fn lemma_i16_round_trip(v: i16)
    ensures
        spec_read_i16(seq![0xd1u8] + be_u16_bytes(v as u16), 0) == (Ok::<i16, Error>(v), 3int),
{
    let s = seq![0xd1u8] + be_u16_bytes(v as u16);
    let bs = s.subrange(1, 3);
    assert(bs[0] == ((v as u16) >> 8) as u8 && bs[1] == (v as u16) as u8);
    assert((((((v as u16) >> 8) as u8) as u16) << 8 | (((v as u16) as u8) as u16)) as i16 == v)
        by (bit_vector);
}

/// Round trip: a `U32` element built from any 32-bit value decodes back to
/// exactly that value.
pub proof fn lemma_u32_round_trip(v: u32)
    ensures
        spec_read_u32(seq![0xceu8] + be_u32_bytes(v), 0) == (Ok::<u32, Error>(v), 5int),
{
    let s = seq![0xceu8] + be_u32_bytes(v);
    let bs = s.subrange(1, 5);
    assert(bs[0] == (v >> 24) as u8 && bs[1] == (v >> 16) as u8 && bs[2] == (v >> 8) as u8 && bs[3]
        == v as u8);
    assert(((((v >> 24) as u8) as u32) << 24 | (((v >> 16) as u8) as u32) << 16 | (((v
        >> 8) as u8) as u32) << 8 | ((v as u8) as u32)) == v) by (bit_vector);
}

/// Round trip: an `I32` element built from any signed 32-bit value decodes
/// back to exactly that value.
pub proof fn lemma_i32_round_trip(v: i32)
    ensures
        spec_read_i32(seq![0xd2u8] + be_u32_bytes(v as u32), 0) == (Ok::<i32, Error>(v), 5int),
{
    let s = seq![0xd2u8] + be_u32_bytes(v as u32);
    let bs = s.subrange(1, 5);
    let u = v as u32;
    assert(bs[0] == (u >> 24) as u8 && bs[1] == (u >> 16) as u8 && bs[2] == (u >> 8) as u8 && bs[3]
        == u as u8);
    assert(((((u >> 24) as u8) as u32) << 24 | (((u >> 16) as u8) as u32) << 16 | (((u
        >> 8) as u8) as u32) << 8 | ((u as u8) as u32)) as i32 == v) by (bit_vector)
        requires
            u == v as u32,
    ;
}

/// Round trip: a `U64` element built from any 64-bit value decodes back to
/// exactly that value.
pub proof fn lemma_u64_round_trip(v: u64)
    ensures
        spec_read_u64(seq![0xcfu8] + be_u64_bytes(v), 0) == (Ok::<u64, Error>(v), 9int),
{
    let s = seq![0xcfu8] + be_u64_bytes(v);
    let bs = s.subrange(1, 9);
    assert(bs[0] == (v >> 56) as u8 && bs[1] == (v >> 48) as u8 && bs[2] == (v >> 40) as u8 && bs[3]
        == (v >> 32) as u8 && bs[4] == (v >> 24) as u8 && bs[5] == (v >> 16) as u8 && bs[6] == (v
        >> 8) as u8 && bs[7] == v as u8);
    assert(((((v >> 56) as u8) as u64) << 56 | (((v >> 48) as u8) as u64) << 48 | (((v
        >> 40) as u8) as u64) << 40 | (((v >> 32) as u8) as u64) << 32 | (((v >> 24) as u8) as u64)
        << 24 | (((v >> 16) as u8) as u64) << 16 | (((v >> 8) as u8) as u64) << 8 | ((
    v as u8) as u64)) == v) by (bit_vector);
}

/// Round trip: an `I64` element built from any signed 64-bit value decodes
/// back to exactly that value.
pub proof fn lemma_i64_round_trip(v: i64)
    ensures
        spec_read_i64(seq![0xd3u8] + be_u64_bytes(v as u64), 0) == (Ok::<i64, Error>(v), 9int),
{
    let s = seq![0xd3u8] + be_u64_bytes(v as u64);
    let bs = s.subrange(1, 9);
    let u = v as u64;
    assert(bs[0] == (u >> 56) as u8 && bs[1] == (u >> 48) as u8 && bs[2] == (u >> 40) as u8 && bs[3]
        == (u >> 32) as u8 && bs[4] == (u >> 24) as u8 && bs[5] == (u >> 16) as u8 && bs[6] == (u
        >> 8) as u8 && bs[7] == u as u8);
    assert(((((u >> 56) as u8) as u64) << 56 | (((u >> 48) as u8) as u64) << 48 | (((u
        >> 40) as u8) as u64) << 40 | (((u >> 32) as u8) as u64) << 32 | (((u >> 24) as u8) as u64)
        << 24 | (((u >> 16) as u8) as u64) << 16 | (((u >> 8) as u8) as u64) << 8 | ((
    u as u8) as u64)) as i64 == v) by (bit_vector)
        requires
            u == v as u64,
    ;
}

// ---------------------------------------------------------------------------
// Error locality
// ---------------------------------------------------------------------------
/// The error classes that belong to the marker phase of a read.
pub open spec fn is_marker_phase_error(e: Error) -> bool {
    ||| e matches Error::InvalidMarker(_)
    ||| e matches Error::InvalidMarkerRead(_)
}

/// The error classes that belong to the payload phase of a read.
pub open spec fn is_payload_phase_error(e: Error) -> bool {
    ||| e matches Error::InvalidDataRead(_)
    ||| e matches Error::InvalidDataCopy(_, _)
    ||| e matches Error::InvalidUtf8(_, _)
}

/// Error locality of a reader outcome that starts at position `p` of `s`:
/// marker-class errors arise only at the marker byte — nothing consumed when
/// it is missing, exactly that byte otherwise — and payload-class errors only
/// after the marker byte mapped to a tag.
pub open spec fn error_locality<T>(s: Seq<u8>, p: int, o: (Result<T, Error>, int)) -> bool {
    match o.0 {
        Ok(_) => true,
        Err(e) => {
            &&& (e matches Error::InvalidMarkerRead(_) ==> p >= s.len() && o.1 == p)
            &&& (e matches Error::InvalidMarker(_) ==> p < s.len() && o.1 == p + 1)
            &&& (e matches Error::InvalidMarker(MarkerError::Unexpected(_)) ==> marker_of(s[p])
                is None)
            &&& (e matches Error::InvalidMarker(MarkerError::TypeMismatch) ==> marker_of(s[p])
                is Some)
            &&& (is_payload_phase_error(e) ==> p < s.len() && marker_of(s[p]) is Some && o.1 >= p
                + 1)
        },
    }
}

/// Error locality holds of every reader whose outcome is a spec function of
/// the source; a marker-class error never arises from a payload phase and a
/// payload-class error never from the marker phase.
pub proof fn lemma_error_locality(s: Seq<u8>, p: int)
    ensures
        error_locality(s, p, spec_read_nil(s, p)),
        error_locality(s, p, spec_read_bool(s, p)),
        error_locality(s, p, spec_read_pfix(s, p)),
        error_locality(s, p, spec_read_nfix(s, p)),
        error_locality(s, p, spec_read_u8(s, p)),
        error_locality(s, p, spec_read_u16(s, p)),
        error_locality(s, p, spec_read_u32(s, p)),
        error_locality(s, p, spec_read_u64(s, p)),
        error_locality(s, p, spec_read_i8(s, p)),
        error_locality(s, p, spec_read_i16(s, p)),
        error_locality(s, p, spec_read_i32(s, p)),
        error_locality(s, p, spec_read_i64(s, p)),
        error_locality(s, p, spec_read_u64_loosely(s, p)),
        error_locality(s, p, spec_read_i64_loosely(s, p)),
        error_locality(s, p, spec_read_integer(s, p)),
        error_locality(s, p, spec_read_str_len(s, p)),
        error_locality(s, p, spec_read_bin_len(s, p)),
        error_locality(s, p, spec_read_array_size(s, p)),
        error_locality(s, p, spec_read_map_size(s, p)),
        error_locality(s, p, spec_read_f32_bits(s, p)),
        error_locality(s, p, spec_read_f64_bits(s, p)),
        error_locality(s, p, spec_read_fixext1(s, p)),
        error_locality(s, p, spec_read_fixext2(s, p)),
        error_locality(s, p, spec_read_fixext4(s, p)),
        error_locality(s, p, spec_read_fixext8(s, p)),
        error_locality(s, p, spec_read_fixext16(s, p)),
        error_locality(s, p, spec_read_ext_meta(s, p)),
{
}

// ---------------------------------------------------------------------------
// Buffer-too-small has no payload side effects
// ---------------------------------------------------------------------------
/// A short destination buffer fails the string reader without touching the
/// payload: its contract leaves the source right after the length bytes and
/// the source's bytes unchanged, so consuming the declared length from that
/// position still yields the whole unread payload.
pub proof fn lemma_buffer_too_small_keeps_payload(s: Seq<u8>, p: int)
    requires
        spec_read_str_len(s, p).0 is Ok,
    ensures
        ({
            let len = spec_read_str_len(s, p).0->Ok_0;
            let q = spec_read_str_len(s, p).1;
            q + len <= s.len() ==> {
                &&& spec_take(s, q, len as int).0 == s.subrange(q, q + len)
                &&& spec_copy_data(s, q, len as int).0 == Ok::<Seq<u8>, Error>(
                    s.subrange(q, q + len),
                )
            }
        }),
{
}

} // verus!
