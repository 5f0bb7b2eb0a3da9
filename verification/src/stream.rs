//! The byte stream that feeds the instruction decoder.
//!
//! Every operation pulls bytes in order from the front of the stream and
//! either returns a little-endian value or signals exhaustion by returning
//! `None`. A failed multi-byte pull drains whatever was left, as the decoder
//! never resumes after running out of bytes.

use vstd::prelude::*;

verus! {

/// The value of the first two bytes of `s` read as a little-endian integer.
pub open spec fn le16(s: Seq<u8>) -> int {
    s[0] + 0x100 * s[1]
}

/// The value of the first four bytes of `s` read as a little-endian integer.
pub open spec fn le32(s: Seq<u8>) -> int {
    s[0] + 0x100 * s[1] + 0x1_0000 * s[2] + 0x100_0000 * s[3]
}

/// The value of the first eight bytes of `s` read as a little-endian integer.
pub open spec fn le64(s: Seq<u8>) -> int {
    le32(s) + 0x1_0000_0000 * le32(s.skip(4))
}

/// The value of the first sixteen bytes of `s` read as a little-endian integer.
pub open spec fn le128(s: Seq<u8>) -> int {
    le64(s) + 0x1_0000_0000_0000_0000 * le64(s.skip(8))
}

/// An in-order byte source. The view is the sequence of bytes not yet
/// consumed.
pub struct ByteStream {
    bytes: Vec<u8>,
    pos: usize,
}

impl View for ByteStream {
    type V = Seq<u8>;

    closed spec fn view(&self) -> Seq<u8> {
        self.bytes@.skip(self.pos as int)
    }
}

#[verifier::type_invariant]
spec fn stream_wf(s: &ByteStream) -> bool {
    s.pos <= s.bytes.len()
}

impl ByteStream {
    /// A stream that will deliver the given bytes in order.
    pub fn new(bytes: Vec<u8>) -> (s: ByteStream)
        ensures
            s@ == bytes@,
    {
        let s = ByteStream { bytes, pos: 0 };
        proof {
            assert(s@ =~= s.bytes@);
        }
        s
    }

    /// How many bytes are left.
    pub fn remaining(&self) -> (n: usize)
        ensures
            n == self@.len(),
    {
        proof {
            use_type_invariant(self);
        }
        self.bytes.len() - self.pos
    }

    /// Pull the next byte, or `None` if the stream is exhausted.
    pub fn next(&mut self) -> (r: Option<u8>)
        ensures
            old(self)@.len() > 0 ==> r == Some(old(self)@[0]) && final(self)@ == old(self)@.skip(1),
            old(self)@.len() == 0 ==> r is None && final(self)@ == old(self)@,
    {
        proof {
            use_type_invariant(&*self);
        }
        if self.pos < self.bytes.len() {
            let b = self.bytes[self.pos];
            self.pos = self.pos + 1;
            proof {
                assert(final(self)@ =~= old(self)@.skip(1));
            }
            Some(b)
        } else {
            None
        }
    }
}

/// Pull two bytes and combine them little-endian. On exhaustion the rest of
/// the stream is drained.
pub fn get_u16_from_stream(bytes: &mut ByteStream) -> (r: Option<u16>)
    ensures
        old(bytes)@.len() >= 2 ==> (r matches Some(v) && v == le16(old(bytes)@)
            && final(bytes)@ == old(bytes)@.skip(2)),
        old(bytes)@.len() < 2 ==> r is None && final(bytes)@.len() == 0,
{
    let b0 = bytes.next();
    let b1 = bytes.next();
    match (b0, b1) {
        (Some(b0), Some(b1)) => Some((b1 as u16) * 0x100 + (b0 as u16)),
        _ => None,
    }
}

/// Pull four bytes and combine them little-endian. On exhaustion the rest of
/// the stream is drained.
pub fn get_u32_from_stream(bytes: &mut ByteStream) -> (r: Option<u32>)
    ensures
        old(bytes)@.len() >= 4 ==> (r matches Some(v) && v == le32(old(bytes)@)
            && final(bytes)@ == old(bytes)@.skip(4)),
        old(bytes)@.len() < 4 ==> r is None && final(bytes)@.len() == 0,
{
    let b0 = bytes.next();
    let b1 = bytes.next();
    let b2 = bytes.next();
    let b3 = bytes.next();
    match (b0, b1, b2, b3) {
        (Some(b0), Some(b1), Some(b2), Some(b3)) => {
            Some((((b3 as u32) * 0x100 + (b2 as u32)) * 0x100 + (b1 as u32)) * 0x100 + (b0 as u32))
        },
        _ => None,
    }
}

/// Pull eight bytes and combine them little-endian. On exhaustion the rest of
/// the stream is drained.
pub fn get_u64_from_stream(bytes: &mut ByteStream) -> (r: Option<u64>)
    ensures
        old(bytes)@.len() >= 8 ==> (r matches Some(v) && v == le64(old(bytes)@)
            && final(bytes)@ == old(bytes)@.skip(8)),
        old(bytes)@.len() < 8 ==> r is None && final(bytes)@.len() == 0,
{
    let lo = get_u32_from_stream(bytes);
    let hi = get_u32_from_stream(bytes);
    match (lo, hi) {
        (Some(lo), Some(hi)) => Some((hi as u64) * 0x1_0000_0000 + (lo as u64)),
        _ => None,
    }
}

/// Pull sixteen bytes and combine them little-endian. On exhaustion the rest
/// of the stream is drained.
pub fn get_u128_from_stream(bytes: &mut ByteStream) -> (r: Option<u128>)
    ensures
        old(bytes)@.len() >= 16 ==> (r matches Some(v) && v == le128(old(bytes)@)
            && final(bytes)@ == old(bytes)@.skip(16)),
        old(bytes)@.len() < 16 ==> r is None && final(bytes)@.len() == 0,
{
    let lo = get_u64_from_stream(bytes);
    let hi = get_u64_from_stream(bytes);
    match (lo, hi) {
        (Some(lo), Some(hi)) => Some((hi as u128) * 0x1_0000_0000_0000_0000 + (lo as u128)),
        _ => None,
    }
}

} // verus!
