use vstd::prelude::*;

verus! {

/// The low five bits of a fixstr marker hold the string length.
pub const FIXSTR_SIZE: u8 = 0x1f;

/// The low four bits of a fixarray marker hold the element count.
pub const FIXARRAY_SIZE: u8 = 0x0f;

/// The low four bits of a fixmap marker hold the pair count.
pub const FIXMAP_SIZE: u8 = 0x0f;

/// The closed sum of MessagePack marker tags.
///
/// Seven variants carry a small payload that is packed into the marker byte
/// itself: positive and negative fixnums, and the fixstr, fixarray and fixmap
/// lengths.
#[derive(Clone, Copy, Debug, PartialEq, Eq, Structural)]
pub enum Marker {
    PositiveFixnum(u8),
    NegativeFixnum(i8),
    Null,
    True,
    False,
    U8,
    U16,
    U32,
    U64,
    I8,
    I16,
    I32,
    I64,
    F32,
    F64,
    FixedString(u8),
    Str8,
    Str16,
    Str32,
    Bin8,
    Bin16,
    Bin32,
    FixedArray(u8),
    Array16,
    Array32,
    FixedMap(u8),
    Map16,
    Map32,
    FixExt1,
    FixExt2,
    FixExt4,
    FixExt8,
    FixExt16,
    Ext8,
    Ext16,
    Ext32,
}

/// The two's-complement reinterpretation of a byte as a signed 8-bit value.
pub open spec fn byte_as_i8(b: u8) -> i8 {
    b as i8
}

/// The marker tag of a byte, or `None` for the one reserved byte `0xc1`.
pub open spec fn marker_of(b: u8) -> Option<Marker> {
    if b <= 0x7f {
        Some(Marker::PositiveFixnum(b))
    } else if b <= 0x8f {
        Some(Marker::FixedMap((b & FIXMAP_SIZE) as u8))
    } else if b <= 0x9f {
        Some(Marker::FixedArray((b & FIXARRAY_SIZE) as u8))
    } else if b <= 0xbf {
        Some(Marker::FixedString((b & FIXSTR_SIZE) as u8))
    } else if b == 0xc0 {
        Some(Marker::Null)
    } else if b == 0xc1 {
        None
    } else if b == 0xc2 {
        Some(Marker::False)
    } else if b == 0xc3 {
        Some(Marker::True)
    } else if b == 0xc4 {
        Some(Marker::Bin8)
    } else if b == 0xc5 {
        Some(Marker::Bin16)
    } else if b == 0xc6 {
        Some(Marker::Bin32)
    } else if b == 0xc7 {
        Some(Marker::Ext8)
    } else if b == 0xc8 {
        Some(Marker::Ext16)
    } else if b == 0xc9 {
        Some(Marker::Ext32)
    } else if b == 0xca {
        Some(Marker::F32)
    } else if b == 0xcb {
        Some(Marker::F64)
    } else if b == 0xcc {
        Some(Marker::U8)
    } else if b == 0xcd {
        Some(Marker::U16)
    } else if b == 0xce {
        Some(Marker::U32)
    } else if b == 0xcf {
        Some(Marker::U64)
    } else if b == 0xd0 {
        Some(Marker::I8)
    } else if b == 0xd1 {
        Some(Marker::I16)
    } else if b == 0xd2 {
        Some(Marker::I32)
    } else if b == 0xd3 {
        Some(Marker::I64)
    } else if b == 0xd4 {
        Some(Marker::FixExt1)
    } else if b == 0xd5 {
        Some(Marker::FixExt2)
    } else if b == 0xd6 {
        Some(Marker::FixExt4)
    } else if b == 0xd7 {
        Some(Marker::FixExt8)
    } else if b == 0xd8 {
        Some(Marker::FixExt16)
    } else if b == 0xd9 {
        Some(Marker::Str8)
    } else if b == 0xda {
        Some(Marker::Str16)
    } else if b == 0xdb {
        Some(Marker::Str32)
    } else if b == 0xdc {
        Some(Marker::Array16)
    } else if b == 0xdd {
        Some(Marker::Array32)
    } else if b == 0xde {
        Some(Marker::Map16)
    } else if b == 0xdf {
        Some(Marker::Map32)
    } else {
        Some(Marker::NegativeFixnum(byte_as_i8(b)))
    }
}

impl Marker {
    /// Classifies a byte as a marker tag, extracting any packed payload.
    pub fn from_u8(b: u8) -> (r: Option<Marker>)
        ensures
            r == marker_of(b),
    {
        match b {
            0x00..=0x7f => Some(Marker::PositiveFixnum(b)),
            0x80..=0x8f => Some(Marker::FixedMap(b & FIXMAP_SIZE)),
            0x90..=0x9f => Some(Marker::FixedArray(b & FIXARRAY_SIZE)),
            0xa0..=0xbf => Some(Marker::FixedString(b & FIXSTR_SIZE)),
            0xc0 => Some(Marker::Null),
            // 0xc1 is marked in the MessagePack spec as never used.
            0xc1 => None,
            0xc2 => Some(Marker::False),
            0xc3 => Some(Marker::True),
            0xc4 => Some(Marker::Bin8),
            0xc5 => Some(Marker::Bin16),
            0xc6 => Some(Marker::Bin32),
            0xc7 => Some(Marker::Ext8),
            0xc8 => Some(Marker::Ext16),
            0xc9 => Some(Marker::Ext32),
            0xca => Some(Marker::F32),
            0xcb => Some(Marker::F64),
            0xcc => Some(Marker::U8),
            0xcd => Some(Marker::U16),
            0xce => Some(Marker::U32),
            0xcf => Some(Marker::U64),
            0xd0 => Some(Marker::I8),
            0xd1 => Some(Marker::I16),
            0xd2 => Some(Marker::I32),
            0xd3 => Some(Marker::I64),
            0xd4 => Some(Marker::FixExt1),
            0xd5 => Some(Marker::FixExt2),
            0xd6 => Some(Marker::FixExt4),
            0xd7 => Some(Marker::FixExt8),
            0xd8 => Some(Marker::FixExt16),
            0xd9 => Some(Marker::Str8),
            0xda => Some(Marker::Str16),
            0xdb => Some(Marker::Str32),
            0xdc => Some(Marker::Array16),
            0xdd => Some(Marker::Array32),
            0xde => Some(Marker::Map16),
            0xdf => Some(Marker::Map32),
            0xe0..=0xff => Some(Marker::NegativeFixnum(#[verifier::truncate] (b as i8))),
        }
    }
}

/// Marker coverage: every byte except the reserved `0xc1` maps to exactly one
/// marker tag, and `0xc1` maps to none.
pub proof fn lemma_marker_coverage(b: u8)
    ensures
        b != 0xc1 ==> marker_of(b) is Some,
        marker_of(0xc1) is None,
{
}

} // verus!
