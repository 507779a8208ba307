//! A streaming decoder for the MessagePack binary serialization format.
//!
//! The decoder pulls bytes from an in-memory byte source, validates the
//! leading marker byte of each element, decodes big-endian payloads, and
//! reports errors through a discriminated error taxonomy that separates
//! marker-phase failures from payload-phase failures.

use vstd::prelude::*;

pub mod data;
pub mod error;
pub mod ext;
pub mod laws;
pub mod marker;
pub mod scalar;
pub mod size;
pub mod source;
pub mod string;
pub mod value;

pub use crate::error::{Error, MarkerError, ReadError, Utf8ErrorInfo};
pub use crate::ext::{
    read_ext_meta, read_fixext1, read_fixext16, read_fixext2, read_fixext4, read_fixext8, ExtMeta,
};
pub use crate::marker::Marker;
pub use crate::scalar::{
    read_bool, read_f32_bits, read_f64_bits, read_i16, read_i32, read_i64, read_i64_loosely,
    read_i8, read_nfix, read_nil, read_pfix, read_u16, read_u32, read_u64, read_u64_loosely,
    read_u8,
};
pub use crate::size::{read_array_size, read_bin_len, read_map_size, read_str_len};
pub use crate::source::{read_marker, ByteSource};
pub use crate::string::{read_str, read_str_ref};
pub use crate::value::{read_integer, read_value, Integer, Value};

verus! {

/// The MessagePack specification revision this decoder implements.
pub const MSGPACK_VERSION: u32 = 5;

} // verus!
