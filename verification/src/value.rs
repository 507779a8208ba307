use vstd::prelude::*;

use crate::data::{
    read_data_i16, read_data_i32, read_data_i64, read_data_i8, read_data_u64, read_data_u8,
    spec_copy_data, spec_data_i16, spec_data_i32, spec_data_i64, spec_data_i8, spec_data_u64,
    spec_data_u8,
};
use crate::error::{Error, MarkerError, ReadError, Utf8ErrorInfo};
use crate::marker::Marker;
use crate::source::{read_marker, spec_read_marker, ByteSource};
use crate::string::{is_utf8, utf8_chars};

verus! {

/// An integer as decoded from the wire, keeping the sign of its marker.
#[derive(Clone, Copy, Debug, PartialEq, Eq, Structural)]
pub enum Integer {
    U64(u64),
    I64(i64),
}

/// A minimal tagged value for the compact value reader. Only the types that
/// reader handles are represented; everything else stays with the primitive
/// readers.
#[derive(Clone, Debug)]
pub enum Value {
    Integer(Integer),
    String(String),
}

impl PartialEq for Value {
    fn eq(&self, other: &Value) -> (r: bool) {
        match (self, other) {
            (Value::Integer(a), Value::Integer(b)) => *a == *b,
            (Value::String(a), Value::String(b)) => *a == *b,
            _ => false,
        }
    }
}

impl vstd::std_specs::cmp::PartialEqSpecImpl for Value {
    open spec fn obeys_eq_spec() -> bool {
        true
    }

    open spec fn eq_spec(&self, other: &Value) -> bool {
        match (self, other) {
            (Value::Integer(a), Value::Integer(b)) => a == b,
            (Value::String(a), Value::String(b)) => a@ == b@,
            _ => false,
        }
    }
}

/// The outcome of decoding an integer element at position `p` of `s` into
/// the `Integer` sum: a negative fixnum or `I8` through `I64`, widened and
/// kept signed, or a `U64`, kept unsigned.
pub open spec fn spec_read_integer(s: Seq<u8>, p: int) -> (Result<Integer, Error>, int) {
    let (m, q) = spec_read_marker(s, p);
    match m {
        Ok(Marker::NegativeFixnum(v)) => (Ok(Integer::I64(v as i64)), q),
        Ok(Marker::I8) => {
            let (d, q2) = spec_data_i8(s, q);
            match d {
                Ok(v) => (Ok(Integer::I64(v as i64)), q2),
                Err(e) => (Err(e), q2),
            }
        },
        Ok(Marker::I16) => {
            let (d, q2) = spec_data_i16(s, q);
            match d {
                Ok(v) => (Ok(Integer::I64(v as i64)), q2),
                Err(e) => (Err(e), q2),
            }
        },
        Ok(Marker::I32) => {
            let (d, q2) = spec_data_i32(s, q);
            match d {
                Ok(v) => (Ok(Integer::I64(v as i64)), q2),
                Err(e) => (Err(e), q2),
            }
        },
        Ok(Marker::I64) => {
            let (d, q2) = spec_data_i64(s, q);
            match d {
                Ok(v) => (Ok(Integer::I64(v)), q2),
                Err(e) => (Err(e), q2),
            }
        },
        Ok(Marker::U64) => {
            let (d, q2) = spec_data_u64(s, q);
            match d {
                Ok(v) => (Ok(Integer::U64(v)), q2),
                Err(e) => (Err(e), q2),
            }
        },
        Ok(_) => (Err(Error::InvalidMarker(MarkerError::TypeMismatch)), q),
        Err(e) => (Err(e), q),
    }
}

/// Decodes an integer element into the `Integer` sum. The accepted markers
/// are the signed family — negative fixnum, `I8` through `I64` — and `U64`;
/// positive fixnums and the narrower unsigned forms are rejected with a type
/// mismatch, as the lax unsigned reader covers them.
pub fn read_integer(rd: &mut ByteSource) -> (r: Result<Integer, Error>)
    ensures
        final(rd).bytes() == old(rd).bytes(),
        (r, final(rd).pos()) == spec_read_integer(old(rd).bytes(), old(rd).pos()),
{
    match read_marker(rd) {
        Ok(Marker::NegativeFixnum(v)) => Ok(Integer::I64(v as i64)),
        Ok(Marker::I8) => match read_data_i8(rd) {
            Ok(v) => Ok(Integer::I64(v as i64)),
            Err(e) => Err(e),
        },
        Ok(Marker::I16) => match read_data_i16(rd) {
            Ok(v) => Ok(Integer::I64(v as i64)),
            Err(e) => Err(e),
        },
        Ok(Marker::I32) => match read_data_i32(rd) {
            Ok(v) => Ok(Integer::I64(v as i64)),
            Err(e) => Err(e),
        },
        Ok(Marker::I64) => match read_data_i64(rd) {
            Ok(v) => Ok(Integer::I64(v)),
            Err(e) => Err(e),
        },
        Ok(Marker::U64) => match read_data_u64(rd) {
            Ok(v) => Ok(Integer::U64(v)),
            Err(e) => Err(e),
        },
        Ok(_) => Err(Error::InvalidMarker(MarkerError::TypeMismatch)),
        Err(e) => Err(e),
    }
}

/// Decodes a compact tagged value. This convenience reader handles `I32`
/// elements, decoded into the signed integer case, and `Str8` elements,
/// decoded into an owned UTF-8 string; every other marker is rejected with a
/// type mismatch, and callers treat that outcome as expected.
pub fn read_value(rd: &mut ByteSource) -> (r: Result<Value, Error>)
    ensures
        final(rd).bytes() == old(rd).bytes(),
        ({
            let s = old(rd).bytes();
            let p = old(rd).pos();
            let (m, q) = spec_read_marker(s, p);
            match m {
                Ok(Marker::I32) => {
                    let (d, q2) = spec_data_i32(s, q);
                    &&& final(rd).pos() == q2
                    &&& match d {
                        Ok(x) => r == Ok::<Value, Error>(Value::Integer(Integer::I64(x as i64))),
                        Err(e) => r == Err::<Value, Error>(e),
                    }
                },
                Ok(Marker::Str8) => {
                    let (l, q2) = spec_data_u8(s, q);
                    match l {
                        Err(e) => {
                            &&& r == Err::<Value, Error>(e)
                            &&& final(rd).pos() == q2
                        },
                        Ok(len) => {
                            let (d, q3) = spec_copy_data(s, q2, len as int);
                            &&& final(rd).pos() == q3
                            &&& match d {
                                Err(e) => r == Err::<Value, Error>(e),
                                Ok(bs) => if is_utf8(bs) {
                                    r matches Ok(Value::String(st)) && st@ == utf8_chars(bs)
                                } else {
                                    r matches Err(Error::InvalidUtf8(le, det)) && le == len
                                        && det.valid_up_to <= len
                                },
                            }
                        },
                    }
                },
                Ok(_) => {
                    &&& r == Err::<Value, Error>(Error::InvalidMarker(MarkerError::TypeMismatch))
                    &&& final(rd).pos() == q
                },
                Err(e) => {
                    &&& r == Err::<Value, Error>(e)
                    &&& final(rd).pos() == q
                },
            }
        }),
{
    match read_marker(rd) {
        Ok(Marker::I32) => match read_data_i32(rd) {
            Ok(x) => Ok(Value::Integer(Integer::I64(x as i64))),
            Err(e) => Err(e),
        },
        Ok(Marker::Str8) => {
            let len = match read_data_u8(rd) {
                Ok(l) => l,
                Err(e) => {
                    return Err(e);
                },
            };
            let payload = rd.read_bytes(len as usize);
            if payload.len() < len as usize {
                return Err(Error::InvalidDataCopy(payload.len() as u32, ReadError::UnexpectedEOF));
            }
            match crate::string::utf8_from_bytes(payload) {
                Ok(t) => Ok(Value::String(t.to_owned())),
                Err(vup) => Err(Error::InvalidUtf8(len as u32, Utf8ErrorInfo { valid_up_to: vup })),
            }
        },
        Ok(_) => Err(Error::InvalidMarker(MarkerError::TypeMismatch)),
        Err(e) => Err(e),
    }
}

} // verus!
