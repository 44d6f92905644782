//! Wire framing for the three primitives of the protocol: fixed-width
//! big-endian integers, length-prefixed strings, and raw chunks.
//!
//! A `u64` is exactly 8 bytes big-endian with no padding; a string frame is a
//! 2-byte big-endian length prefix (at most 65535) followed by that many raw
//! UTF-8 bytes, decoded lossily on receive. Raw chunks need no framing of
//! their own: their extent comes from the surrounding byte-count bookkeeping.

use vstd::prelude::*;
use vstd::slice::slice_subrange;
use vstd::utf8::{decode_utf8, encode_utf8, valid_utf8};
use crate::error::TransferError;
use crate::error::MAX_NAME_BYTES;

verus! {

/// The 8-byte big-endian encoding of a `u64`: most significant byte first,
/// no padding.
pub open spec fn u64_be_bytes(n: u64) -> Seq<u8> {
    seq![
        ((n >> 56u64) & 0xff) as u8,
        ((n >> 48u64) & 0xff) as u8,
        ((n >> 40u64) & 0xff) as u8,
        ((n >> 32u64) & 0xff) as u8,
        ((n >> 24u64) & 0xff) as u8,
        ((n >> 16u64) & 0xff) as u8,
        ((n >> 8u64) & 0xff) as u8,
        (n & 0xff) as u8,
    ]
}

/// The value read back from 8 big-endian bytes.
pub open spec fn be_u64_of(b: Seq<u8>) -> u64
    recommends
        b.len() == 8,
{
    (((b[0] as u64) << 56u64) | ((b[1] as u64) << 48u64) | ((b[2] as u64) << 40u64)
        | ((b[3] as u64) << 32u64) | ((b[4] as u64) << 24u64) | ((b[5] as u64) << 16u64)
        | ((b[6] as u64) << 8u64) | (b[7] as u64)) as u64
}

/// The 2-byte big-endian encoding of a `u16`.
pub open spec fn u16_be_bytes(n: u16) -> Seq<u8> {
    seq![((n >> 8u16) & 0xff) as u8, (n & 0xff) as u8]
}

/// The value read back from 2 big-endian bytes.
pub open spec fn be_u16_of(b: Seq<u8>) -> u16
    recommends
        b.len() == 2,
{
    (((b[0] as u16) << 8u16) | (b[1] as u16)) as u16
}

/// A length-prefixed string frame: 2-byte big-endian byte count, then the
/// bytes themselves.
pub open spec fn string_frame(payload: Seq<u8>) -> Seq<u8>
    recommends
        payload.len() <= MAX_NAME_BYTES,
{
    u16_be_bytes(payload.len() as u16) + payload
}

/// Encodes a `u64` as exactly 8 big-endian bytes.
pub fn encode_u64(n: u64) -> (r: Vec<u8>)
    ensures
        r@ == u64_be_bytes(n),
        r@.len() == 8,
{
    let mut v: Vec<u8> = Vec::with_capacity(8);
    v.push(((n >> 56u64) & 0xff) as u8);
    v.push(((n >> 48u64) & 0xff) as u8);
    v.push(((n >> 40u64) & 0xff) as u8);
    v.push(((n >> 32u64) & 0xff) as u8);
    v.push(((n >> 24u64) & 0xff) as u8);
    v.push(((n >> 16u64) & 0xff) as u8);
    v.push(((n >> 8u64) & 0xff) as u8);
    v.push((n & 0xff) as u8);
    proof {
        assert(v@ =~= u64_be_bytes(n));
    }
    v
}

/// Decodes 8 big-endian bytes back into a `u64`.
pub fn decode_u64(b: &[u8]) -> (n: u64)
    requires
        b@.len() == 8,
    ensures
        n == be_u64_of(b@),
{
    ((b[0] as u64) << 56u64) | ((b[1] as u64) << 48u64) | ((b[2] as u64) << 40u64)
        | ((b[3] as u64) << 32u64) | ((b[4] as u64) << 24u64) | ((b[5] as u64) << 16u64)
        | ((b[6] as u64) << 8u64) | (b[7] as u64)
}

/// Encodes a `u16` as exactly 2 big-endian bytes.
pub fn encode_u16(n: u16) -> (r: Vec<u8>)
    ensures
        r@ == u16_be_bytes(n),
        r@.len() == 2,
{
    let mut v: Vec<u8> = Vec::with_capacity(2);
    v.push(((n >> 8u16) & 0xff) as u8);
    v.push((n & 0xff) as u8);
    proof {
        assert(v@ =~= u16_be_bytes(n));
    }
    v
}

/// Decodes 2 big-endian bytes back into a `u16`.
pub fn decode_u16(b: &[u8]) -> (n: u16)
    requires
        b@.len() == 2,
    ensures
        n == be_u16_of(b@),
{
    ((b[0] as u16) << 8u16) | (b[1] as u16)
}

/// Round trip of the fixed-width integer framing: decoding an encoded `u64`
/// yields the original value, and re-encoding a decoded 8-byte frame yields
/// the original bytes.
pub proof fn lemma_u64_round_trip(n: u64, b: Seq<u8>)
    requires
        b.len() == 8,
    ensures
        be_u64_of(u64_be_bytes(n)) == n,
        u64_be_bytes(be_u64_of(b)) == b,
{
    assert(((((((n >> 56u64) & 0xff) as u8) as u64) << 56u64) | (((((n >> 48u64) & 0xff) as u8)
        as u64) << 48u64) | (((((n >> 40u64) & 0xff) as u8) as u64) << 40u64) | (((((n >> 32u64)
        & 0xff) as u8) as u64) << 32u64) | (((((n >> 24u64) & 0xff) as u8) as u64) << 24u64) | (((((
    n >> 16u64) & 0xff) as u8) as u64) << 16u64) | (((((n >> 8u64) & 0xff) as u8) as u64) << 8u64)
        | (((n & 0xff) as u8) as u64)) == n) by (bit_vector);
    let m = be_u64_of(b);
    let b0 = b[0];
    let b1 = b[1];
    let b2 = b[2];
    let b3 = b[3];
    let b4 = b[4];
    let b5 = b[5];
    let b6 = b[6];
    let b7 = b[7];
    assert((((m >> 56u64) & 0xff) as u8) == b0 && (((m >> 48u64) & 0xff) as u8) == b1 && (((m
        >> 40u64) & 0xff) as u8) == b2 && (((m >> 32u64) & 0xff) as u8) == b3 && (((m >> 24u64)
        & 0xff) as u8) == b4 && (((m >> 16u64) & 0xff) as u8) == b5 && (((m >> 8u64) & 0xff) as u8)
        == b6 && ((m & 0xff) as u8) == b7) by (bit_vector)
        requires
            m == (((b0 as u64) << 56u64) | ((b1 as u64) << 48u64) | ((b2 as u64) << 40u64) | ((
            b3 as u64) << 32u64) | ((b4 as u64) << 24u64) | ((b5 as u64) << 16u64) | ((b6 as u64)
                << 8u64) | (b7 as u64)) as u64,
    ;
    assert(u64_be_bytes(m) =~= b);
}

/// Round trip of the 2-byte length prefix, in both directions.
pub proof fn lemma_u16_round_trip(n: u16, b: Seq<u8>)
    requires
        b.len() == 2,
    ensures
        be_u16_of(u16_be_bytes(n)) == n,
        u16_be_bytes(be_u16_of(b)) == b,
{
    assert(((((((n >> 8u16) & 0xff) as u8) as u16) << 8u16) | (((n & 0xff) as u8) as u16)) == n)
        by (bit_vector);
    let m = be_u16_of(b);
    let b0 = b[0];
    let b1 = b[1];
    assert((((m >> 8u16) & 0xff) as u8) == b0 && ((m & 0xff) as u8) == b1) by (bit_vector)
        requires
            m == (((b0 as u16) << 8u16) | (b1 as u16)) as u16,
    ;
    assert(u16_be_bytes(m) =~= b);
}

/// Builds the wire frame for a string: its UTF-8 bytes behind a 2-byte
/// length prefix. Fails, before anything could be transmitted, on a string
/// whose UTF-8 encoding does not fit the prefix; truncating the length
/// would be a defect, not a valid behavior.
pub fn encode_string(s: &str) -> (r: Result<Vec<u8>, TransferError>)
    ensures
        (r is Ok) == (encode_utf8(s@).len() <= MAX_NAME_BYTES),
        r matches Ok(v) ==> v@ == string_frame(encode_utf8(s@)),
        r matches Err(e) ==> e == TransferError::NameTooLong,
{
    let bytes: &[u8] = s.as_bytes();
    if bytes.len() > MAX_NAME_BYTES {
        return Err(TransferError::NameTooLong);
    }
    let mut v: Vec<u8> = encode_u16(bytes.len() as u16);
    let mut i: usize = 0;
    while i < bytes.len()
        invariant
            i <= bytes@.len(),
            bytes@.len() <= MAX_NAME_BYTES,
            bytes@ == encode_utf8(s@),
            v@ == u16_be_bytes(bytes@.len() as u16) + bytes@.subrange(0, i as int),
        decreases bytes@.len() - i,
    {
        v.push(bytes[i]);
        i = i + 1;
        proof {
            assert(v@ =~= u16_be_bytes(bytes@.len() as u16) + bytes@.subrange(0, i as int));
        }
    }
    proof {
        assert(bytes@.subrange(0, bytes@.len() as int) =~= bytes@);
        assert(v@ =~= string_frame(encode_utf8(s@)));
    }
    Ok(v)
}

/// Byte-for-byte equality of two slices.
pub fn bytes_eq(a: &[u8], b: &[u8]) -> (r: bool)
    ensures
        r == (a@ == b@),
{
    if a.len() != b.len() {
        proof {
            assert(a@.len() != b@.len());
        }
        return false;
    }
    let mut i: usize = 0;
    while i < a.len()
        invariant
            i <= a@.len(),
            a@.len() == b@.len(),
            forall|j: int| 0 <= j < i ==> a@[j] == b@[j],
        decreases a@.len() - i,
    {
        if a[i] != b[i] {
            return false;
        }
        i = i + 1;
    }
    proof {
        assert(a@ =~= b@);
    }
    true
}

/// Equality of two strings, decided over their UTF-8 bytes: the encoding
/// is injective, so byte equality is character equality.
pub fn str_eq(a: &str, b: &str) -> (r: bool)
    ensures
        r == (a@ == b@),
{
    let r = bytes_eq(a.as_bytes(), b.as_bytes());
    proof {
        broadcast use vstd::utf8::encode_utf8_decode_utf8;

        if encode_utf8(a@) == encode_utf8(b@) {
            assert(decode_utf8(encode_utf8(a@)) == decode_utf8(encode_utf8(b@)));
        }
    }
    r
}

/// What `String::from_utf8_lossy` decodes a byte sequence to. The result
/// depends on the bytes alone.
pub uninterp spec fn lossy_decode(bytes: Seq<u8>) -> Seq<char>;

/// Relies on `String::from_utf8_lossy`: decodes bytes leniently, and on
/// bytes that are already valid UTF-8 it returns exactly their decoding.
#[verifier::external_body]
fn from_utf8_lossy(bytes: &[u8]) -> (s: String)
    ensures
        s@ == lossy_decode(bytes@),
        valid_utf8(bytes@) ==> s@ == decode_utf8(bytes@),
{
    String::from_utf8_lossy(bytes).into_owned()
}

/// Decodes the payload of a string frame, lossily: malformed UTF-8 yields a
/// substituted string rather than a failure, so this cannot reject its
/// input.
pub fn decode_string(payload: &[u8]) -> (s: String)
    ensures
        s@ == lossy_decode(payload@),
        valid_utf8(payload@) ==> s@ == decode_utf8(payload@),
{
    from_utf8_lossy(payload)
}

/// Parses a whole string frame out of the front of a buffer: reads the
/// 2-byte length prefix, then that many payload bytes, decoded lossily.
/// Returns the string and the number of bytes consumed, or `None` when the
/// buffer is too short for the advertised payload.
pub fn decode_string_frame(frame: &[u8]) -> (r: Option<(String, usize)>)
    ensures
        (r is Some) == (frame@.len() >= 2 && frame@.len() >= 2 + be_u16_of(
            frame@.subrange(0, 2),
        )),
        r matches Some(p) ==> {
            let len = be_u16_of(frame@.subrange(0, 2)) as int;
            &&& p.1 == 2 + len
            &&& p.0@ == lossy_decode(frame@.subrange(2, 2 + len))
            &&& valid_utf8(frame@.subrange(2, 2 + len)) ==> p.0@ == decode_utf8(
                frame@.subrange(2, 2 + len),
            )
        },
{
    if frame.len() < 2 {
        return None;
    }
    let prefix: &[u8] = slice_subrange(frame, 0, 2);
    let len: usize = decode_u16(prefix) as usize;
    if frame.len() - 2 < len {
        return None;
    }
    let payload: &[u8] = slice_subrange(frame, 2, 2 + len);
    let s = from_utf8_lossy(payload);
    Some((s, 2 + len))
}

/// Round trip of the string framing at the level of the wire bytes: a frame
/// built from a payload that fits the prefix advertises exactly that
/// payload's length and carries it unchanged, and the decoding of the
/// carried bytes is the original character sequence whenever the payload was
/// the UTF-8 encoding of a string.
pub proof fn lemma_string_frame_round_trip(s: Seq<char>)
    requires
        encode_utf8(s).len() <= MAX_NAME_BYTES,
    ensures
        string_frame(encode_utf8(s)).len() == 2 + encode_utf8(s).len(),
        be_u16_of(string_frame(encode_utf8(s)).subrange(0, 2)) == encode_utf8(s).len(),
        string_frame(encode_utf8(s)).subrange(2, string_frame(encode_utf8(s)).len() as int)
            =~= encode_utf8(s),
        decode_utf8(string_frame(encode_utf8(s)).subrange(
            2,
            string_frame(encode_utf8(s)).len() as int,
        )) == s,
        valid_utf8(string_frame(encode_utf8(s)).subrange(
            2,
            string_frame(encode_utf8(s)).len() as int,
        )),
{
    broadcast use vstd::utf8::encode_utf8_valid_utf8, vstd::utf8::encode_utf8_decode_utf8;

    let payload = encode_utf8(s);
    let frame = string_frame(payload);
    assert(frame.subrange(0, 2) =~= u16_be_bytes(payload.len() as u16));
    lemma_u16_round_trip(payload.len() as u16, frame.subrange(0, 2));
    assert(frame.subrange(2, frame.len() as int) =~= payload);
}

} // verus!
