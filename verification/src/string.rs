use vstd::prelude::*;
use vstd::slice::slice_subrange;

use crate::data::spec_copy_data;
use crate::error::{Error, ReadError, Utf8ErrorInfo};
use crate::size::{read_str_len, spec_read_str_len};
use crate::source::ByteSource;

verus! {

/// Whether a byte sequence is valid UTF-8, as `std::str::from_utf8` decides
/// it.
pub uninterp spec fn is_utf8(s: Seq<u8>) -> bool;

/// The characters that a valid UTF-8 byte sequence decodes to, as
/// `std::str::from_utf8` returns them.
pub uninterp spec fn utf8_chars(s: Seq<u8>) -> Seq<char>;

/// Relies on std::str::from_utf8: it succeeds exactly on the valid UTF-8 byte
/// sequences, the returned text is the decoding of those bytes, and a failure
/// reports how many leading bytes held valid UTF-8, which is at most the
/// slice's length.
#[verifier::external_body]
pub(crate) fn utf8_from_bytes<'x>(b: &'x [u8]) -> (r: Result<&'x str, usize>)
    ensures
        r is Ok <==> is_utf8(b@),
        (match r {
            Ok(t) => t@ == utf8_chars(b@),
            Err(n) => n <= b@.len(),
        }),
{
    match std::str::from_utf8(b) {
        Ok(t) => Ok(t),
        Err(e) => Err(e.valid_up_to()),
    }
}

/// Decodes a string element into the caller's buffer and returns the text as
/// a borrowed view of that buffer.
///
/// The declared length `L` is read first. A buffer shorter than `L` is
/// refused before any payload byte is consumed, so the payload can still be
/// read from the source afterwards. Otherwise exactly `L` payload bytes are
/// copied into `buf[0..L]` — the rest of the buffer is untouched — and
/// validated as UTF-8; a partial copy reports how many bytes arrived, and
/// those bytes stand at the front of the buffer.
pub fn read_str<'r>(rd: &mut ByteSource, buf: &'r mut [u8]) -> (r: Result<&'r str, Error>)
    ensures
        final(rd).bytes() == old(rd).bytes(),
        ({
            let s = old(rd).bytes();
            let p = old(rd).pos();
            let cap = old(buf)@.len();
            let (l, q) = spec_read_str_len(s, p);
            match l {
                Err(e) => {
                    &&& r == Err::<&'r str, Error>(e)
                    &&& final(rd).pos() == q
                    &&& final(buf)@ == old(buf)@
                },
                Ok(len) => {
                    if cap < len {
                        &&& r == Err::<&'r str, Error>(Error::BufferSizeTooSmall(len))
                        &&& final(rd).pos() == q
                        &&& final(buf)@ == old(buf)@
                    } else {
                        let (d, q2) = spec_copy_data(s, q, len as int);
                        &&& final(rd).pos() == q2
                        &&& match d {
                            Err(e) => {
                                &&& r == Err::<&'r str, Error>(e)
                                &&& final(buf)@ == s.subrange(q, s.len() as int) + old(
                                    buf,
                                )@.skip(s.len() - q)
                            },
                            Ok(bs) => {
                                &&& final(buf)@ == bs + old(buf)@.skip(len as int)
                                &&& if is_utf8(bs) {
                                    r matches Ok(t) && t@ == utf8_chars(bs)
                                } else {
                                    r matches Err(Error::InvalidUtf8(le, det)) && le == len
                                        && det.valid_up_to <= len
                                }
                            },
                        }
                    }
                },
            }
        }),
{
    let len = match read_str_len(rd) {
        Ok(l) => l,
        Err(e) => {
            return Err(e);
        },
    };
    let ulen = len as usize;
    if buf.len() < ulen {
        return Err(Error::BufferSizeTooSmall(len));
    }
    let payload = rd.read_bytes(ulen);
    let n = payload.len();
    let mut i: usize = 0;
    while i < n
        invariant
            i <= n,
            n == payload@.len() <= ulen <= buf@.len(),
            buf@.len() == old(buf)@.len(),
            forall|j: int| 0 <= j < i ==> buf@[j] == payload@[j],
            forall|j: int| i <= j < buf@.len() ==> buf@[j] == old(buf)@[j],
        decreases n - i,
    {
        buf[i] = payload[i];
        i = i + 1;
    }
    proof {
        assert(buf@ =~= payload@ + old(buf)@.skip(n as int));
    }
    if n < ulen {
        return Err(Error::InvalidDataCopy(n as u32, ReadError::UnexpectedEOF));
    }
    let head = slice_subrange(&*buf, 0, ulen);
    proof {
        assert(head@ =~= payload@);
    }
    match utf8_from_bytes(head) {
        Ok(t) => Ok(t),
        Err(vup) => Err(Error::InvalidUtf8(len, Utf8ErrorInfo { valid_up_to: vup })),
    }
}

/// Returns the payload range of a string element that starts a flat byte
/// slice, without copying and without UTF-8 validation.
///
/// The caller must hand in a slice that is long enough for the declared
/// payload whenever the length itself decodes.
pub fn read_str_ref(rd: &[u8]) -> (r: Result<&[u8], Error>)
    requires
        (spec_read_str_len(rd@, 0).0 matches Ok(len) ==> spec_read_str_len(rd@, 0).1 + len
            <= rd@.len()),
    ensures
        (match spec_read_str_len(rd@, 0).0 {
            Ok(len) => r matches Ok(bs) && bs@ == rd@.subrange(
                spec_read_str_len(rd@, 0).1,
                spec_read_str_len(rd@, 0).1 + len,
            ),
            Err(e) => r == Err::<&[u8], Error>(e),
        }),
{
    let total = rd.len();
    let mut cur = ByteSource::new(rd);
    match read_str_len(&mut cur) {
        Ok(len) => {
            let start = cur.position() as usize;
            proof {
                assert(start + len <= total);
            }
            Ok(slice_subrange(rd, start, start + len as usize))
        },
        Err(e) => Err(e),
    }
}

} // verus!
