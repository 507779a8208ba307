use vstd::prelude::*;
use vstd::slice::slice_subrange;

use crate::error::{Error, MarkerError, ReadError};
use crate::marker::{marker_of, Marker};

verus! {

/// An in-memory byte source: a borrowed byte slice and a read position.
///
/// Every reader pulls bytes from the front of the unread remainder and
/// advances the position by exactly the number of bytes it consumed; a
/// partial read of a fixed-width payload consumes everything that remained.
pub struct ByteSource<'a> {
    data: &'a [u8],
    pos: usize,
}

/// What consuming `k` bytes at position `p` of `s` yields: the bytes that
/// could be had (all of the remainder, when fewer than `k` remained), and the
/// position after them.
pub open spec fn spec_take(s: Seq<u8>, p: int, k: int) -> (Seq<u8>, int) {
    if p + k <= s.len() {
        (s.subrange(p, p + k), p + k)
    } else {
        (s.subrange(p, s.len() as int), s.len() as int)
    }
}

impl<'a> ByteSource<'a> {
    /// The read position never runs past the end of the data.
    #[verifier::type_invariant]
    spec fn inv(self) -> bool {
        self.pos <= self.data@.len()
    }

    /// The whole underlying byte sequence, consumed part included.
    pub closed spec fn bytes(self) -> Seq<u8> {
        self.data@
    }

    /// How many bytes have been consumed.
    pub closed spec fn pos(self) -> int {
        self.pos as int
    }

    /// The read position lies between the start and the end of the data.
    pub open spec fn wf(self) -> bool {
        0 <= self.pos() <= self.bytes().len()
    }

    /// A source positioned at the start of `data`.
    pub fn new(data: &'a [u8]) -> (r: ByteSource<'a>)
        ensures
            r.bytes() == data@,
            r.pos() == 0,
    {
        ByteSource { data, pos: 0 }
    }

    /// The current read position.
    pub fn position(&self) -> (r: u64)
        ensures
            r == self.pos(),
            self.wf(),
    {
        proof {
            use_type_invariant(self);
        }
        self.pos as u64
    }

    /// Consumes one byte, or reports that none remain.
    pub(crate) fn next_byte(&mut self) -> (r: Option<u8>)
        ensures
            old(self).wf(),
            final(self).wf(),
            final(self).bytes() == old(self).bytes(),
            old(self).pos() < old(self).bytes().len() ==> {
                &&& r == Some(old(self).bytes()[old(self).pos()])
                &&& final(self).pos() == old(self).pos() + 1
            },
            old(self).pos() >= old(self).bytes().len() ==> {
                &&& r is None
                &&& final(self).pos() == old(self).pos()
            },
    {
        proof {
            use_type_invariant(&*self);
        }
        if self.pos < self.data.len() {
            let b = self.data[self.pos];
            self.pos = self.pos + 1;
            Some(b)
        } else {
            None
        }
    }

    /// Consumes the next `k` bytes when that many remain, or everything that
    /// does remain otherwise.
    pub fn read_bytes(&mut self, k: usize) -> (r: &'a [u8])
        ensures
            old(self).wf(),
            final(self).wf(),
            final(self).bytes() == old(self).bytes(),
            r@ == spec_take(old(self).bytes(), old(self).pos(), k as int).0,
            final(self).pos() == spec_take(old(self).bytes(), old(self).pos(), k as int).1,
    {
        proof {
            use_type_invariant(&*self);
        }
        let remaining = self.data.len() - self.pos;
        let n = if k <= remaining {
            k
        } else {
            remaining
        };
        let r = slice_subrange(self.data, self.pos, self.pos + n);
        self.pos = self.pos + n;
        r
    }
}

/// The marker-phase outcome of a read starting at position `p` of `s`: the
/// decoded tag or the marker-phase error, and the position after it.
///
/// Nothing is consumed when the marker byte itself is missing; the one byte
/// is consumed whether or not it maps to a tag.
pub open spec fn spec_read_marker(s: Seq<u8>, p: int) -> (Result<Marker, Error>, int) {
    if p >= s.len() {
        (Err(Error::InvalidMarkerRead(ReadError::UnexpectedEOF)), p)
    } else {
        match marker_of(s[p]) {
            Some(m) => (Ok(m), p + 1),
            None => (Err(Error::InvalidMarker(MarkerError::Unexpected(s[p]))), p + 1),
        }
    }
}

/// Reads exactly one byte and classifies it as a marker tag.
pub fn read_marker(rd: &mut ByteSource) -> (r: Result<Marker, Error>)
    ensures
        old(rd).wf(),
        final(rd).wf(),
        final(rd).bytes() == old(rd).bytes(),
        (r, final(rd).pos()) == spec_read_marker(old(rd).bytes(), old(rd).pos()),
{
    match rd.next_byte() {
        Some(b) => match Marker::from_u8(b) {
            Some(marker) => Ok(marker),
            None => Err(Error::InvalidMarker(MarkerError::Unexpected(b))),
        },
        None => Err(Error::InvalidMarkerRead(ReadError::UnexpectedEOF)),
    }
}

} // verus!
