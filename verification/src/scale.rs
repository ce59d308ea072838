//! SCALE primitives: fixed-width little-endian integers and the compact length prefix
//! that precedes every byte vector.
//!
//! The byte layouts are stated here as specifications; the encoding and decoding itself
//! is done by `parity-scale-codec`, the codec behind the chain's consensus encoding.

use vstd::prelude::*;

verus! {

/// Little-endian bytes of a `u16`.
pub open spec fn le_bytes_u16(x: u16) -> Seq<u8> {
    seq![(x & 0xff) as u8, ((x >> 8) & 0xff) as u8]
}

/// The `u16` whose little-endian bytes are the first two of `s`.
pub open spec fn le_u16(s: Seq<u8>) -> u16 {
    (s[0] as u16) | ((s[1] as u16) << 8)
}

/// Little-endian bytes of a `u32`.
pub open spec fn le_bytes_u32(x: u32) -> Seq<u8> {
    seq![
        (x & 0xff) as u8,
        ((x >> 8) & 0xff) as u8,
        ((x >> 16) & 0xff) as u8,
        ((x >> 24) & 0xff) as u8,
    ]
}

/// The `u32` whose little-endian bytes are the first four of `s`.
pub open spec fn le_u32(s: Seq<u8>) -> u32 {
    (s[0] as u32) | ((s[1] as u32) << 8) | ((s[2] as u32) << 16) | ((s[3] as u32) << 24)
}

/// Little-endian bytes of a `u64`.
pub open spec fn le_bytes_u64(x: u64) -> Seq<u8> {
    seq![
        (x & 0xff) as u8,
        ((x >> 8) & 0xff) as u8,
        ((x >> 16) & 0xff) as u8,
        ((x >> 24) & 0xff) as u8,
        ((x >> 32) & 0xff) as u8,
        ((x >> 40) & 0xff) as u8,
        ((x >> 48) & 0xff) as u8,
        ((x >> 56) & 0xff) as u8,
    ]
}

/// The `u64` whose little-endian bytes are the first eight of `s`.
pub open spec fn le_u64(s: Seq<u8>) -> u64 {
    (s[0] as u64) | ((s[1] as u64) << 8) | ((s[2] as u64) << 16) | ((s[3] as u64) << 24) | ((
    s[4] as u64) << 32) | ((s[5] as u64) << 40) | ((s[6] as u64) << 48) | ((s[7] as u64) << 56)
}

/// The compact encoding of a `u32`: the two low bits of the first byte select the width
/// (one, two or four bytes holding `x << 2`), and `0b11` announces four plain bytes.
pub open spec fn compact_u32_bytes(x: u32) -> Seq<u8> {
    if x <= 0x3f {
        seq![(x as u8) << 2u8]
    } else if x <= 0x3fff {
        le_bytes_u16(((x as u16) << 2u16) | 1u16)
    } else if x <= 0x3fff_ffff {
        le_bytes_u32((x << 2u32) | 2u32)
    } else {
        seq![3u8] + le_bytes_u32(x)
    }
}

/// Decoding of a compact `u32` at the start of `s`: the value and the number of bytes it
/// took, or `None` where the input ends too early or the value is not in its shortest form.
pub open spec fn compact_u32_decode(s: Seq<u8>) -> Option<(u32, int)> {
    if s.len() < 1 {
        None
    } else {
        let prefix = s[0];
        if prefix % 4 == 0 {
            Some(((prefix >> 2u8) as u32, 1))
        } else if prefix % 4 == 1 {
            if s.len() < 2 {
                None
            } else {
                let x = le_u16(s.subrange(0, 2)) >> 2u16;
                if 0x3f < x && x <= 0x3fff {
                    Some((x as u32, 2))
                } else {
                    None
                }
            }
        } else if prefix % 4 == 2 {
            if s.len() < 4 {
                None
            } else {
                let x = le_u32(s.subrange(0, 4)) >> 2u32;
                if 0x3fff < x && x <= 0x3fff_ffff {
                    Some((x, 4))
                } else {
                    None
                }
            }
        } else {
            if prefix >> 2u8 != 0 {
                None
            } else if s.len() < 5 {
                None
            } else {
                let x = le_u32(s.subrange(1, 5));
                if x > 0x3fff_ffff {
                    Some((x, 5))
                } else {
                    None
                }
            }
        }
    }
}

/// The value part of [`compact_u32_decode`].
pub open spec fn compact_u32_value(s: Seq<u8>) -> Option<u32> {
    match compact_u32_decode(s) {
        Some((v, _)) => Some(v),
        None => None,
    }
}

/// Decoding a little-endian `u16` gives back what was encoded.
pub proof fn lemma_le_u16_roundtrip(x: u16)
    ensures
        le_bytes_u16(x).len() == 2,
        le_u16(le_bytes_u16(x)) == x,
{
    let s = le_bytes_u16(x);
    assert((x & 0xff) < 256 && ((x >> 8) & 0xff) < 256) by (bit_vector);
    assert(x == ((x & 0xff) | ((x >> 8) & 0xff) << 8)) by (bit_vector);
}

/// Decoding a little-endian `u32` gives back what was encoded.
pub proof fn lemma_le_u32_roundtrip(x: u32)
    ensures
        le_bytes_u32(x).len() == 4,
        le_u32(le_bytes_u32(x)) == x,
{
    assert((x & 0xff) < 256 && ((x >> 8) & 0xff) < 256 && ((x >> 16) & 0xff) < 256 && ((x
        >> 24) & 0xff) < 256) by (bit_vector);
    assert(x == ((x & 0xff) | ((x >> 8) & 0xff) << 8 | ((x >> 16) & 0xff) << 16 | ((x >> 24)
        & 0xff) << 24)) by (bit_vector);
}

/// Decoding a little-endian `u64` gives back what was encoded.
pub proof fn lemma_le_u64_roundtrip(x: u64)
    ensures
        le_bytes_u64(x).len() == 8,
        le_u64(le_bytes_u64(x)) == x,
{
    assert((x & 0xff) < 256 && ((x >> 8) & 0xff) < 256 && ((x >> 16) & 0xff) < 256 && ((x
        >> 24) & 0xff) < 256 && ((x >> 32) & 0xff) < 256 && ((x >> 40) & 0xff) < 256 && ((x
        >> 48) & 0xff) < 256 && ((x >> 56) & 0xff) < 256) by (bit_vector);
    assert(x == ((x & 0xff) | ((x >> 8) & 0xff) << 8 | ((x >> 16) & 0xff) << 16 | ((x >> 24)
        & 0xff) << 24 | ((x >> 32) & 0xff) << 32 | ((x >> 40) & 0xff) << 40 | ((x >> 48) & 0xff)
        << 48 | ((x >> 56) & 0xff) << 56)) by (bit_vector);
}

/// The compact encoding takes one, two, four or five bytes, by the size of the value.
pub open spec fn compact_u32_len(x: u32) -> int {
    if x <= 0x3f {
        1
    } else if x <= 0x3fff {
        2
    } else if x <= 0x3fff_ffff {
        4
    } else {
        5
    }
}

/// Decoding the compact encoding of `x`, whatever follows it, gives `x` and the length of
/// its encoding.
pub proof fn lemma_compact_u32_roundtrip(x: u32, rest: Seq<u8>)
    ensures
        compact_u32_bytes(x).len() == compact_u32_len(x),
        compact_u32_decode(compact_u32_bytes(x) + rest) == Some((x, compact_u32_len(x))),
{
    let e = compact_u32_bytes(x);
    let s = e + rest;
    if x <= 0x3f {
        let b: u8 = (x as u8) << 2u8;
        assert(x <= 0x3f ==> ((x as u8) << 2u8) % 4 == 0 && (((x as u8) << 2u8) >> 2u8) as u32
            == x) by (bit_vector);
        assert(s[0] == b);
    } else if x <= 0x3fff {
        let v: u16 = ((x as u16) << 2u16) | 1u16;
        lemma_le_u16_roundtrip(v);
        assert(s.subrange(0, 2) =~= le_bytes_u16(v));
        assert(0x3f < x <= 0x3fff ==> (((((x as u16) << 2u16) | 1u16) & 0xff) as u8) % 4 == 1
            && ((((x as u16) << 2u16) | 1u16) >> 2u16) as u32 == x) by (bit_vector);
        assert(s[0] == (v & 0xff) as u8);
    } else if x <= 0x3fff_ffff {
        let v: u32 = (x << 2u32) | 2u32;
        lemma_le_u32_roundtrip(v);
        assert(s.subrange(0, 4) =~= le_bytes_u32(v));
        assert(0x3fff < x <= 0x3fff_ffff ==> ((((x << 2u32) | 2u32) & 0xff) as u8) % 4 == 2 && (
        ((x << 2u32) | 2u32) >> 2u32) == x) by (bit_vector);
        assert(s[0] == (v & 0xff) as u8);
    } else {
        lemma_le_u32_roundtrip(x);
        assert(s.subrange(1, 5) =~= le_bytes_u32(x));
        assert(s[0] == 3u8);
        assert((3u8 >> 2u8) == 0u8) by (bit_vector);
    }
}

/// A successful compact decoding took exactly the bytes of the canonical encoding of the
/// value it found.
pub proof fn lemma_compact_u32_decode_len(s: Seq<u8>)
    requires
        compact_u32_decode(s) is Some,
    ensures
        ({
            let (v, n) = compact_u32_decode(s).unwrap();
            &&& n == compact_u32_len(v)
            &&& 1 <= n <= 5
            &&& n <= s.len()
        }),
{
    let prefix = s[0];
    if prefix % 4 == 0 {
        assert((prefix >> 2u8) <= 0x3f) by (bit_vector);
    }
}

/// Little-endian bytes of `x`, as `parity_scale_codec::Encode::encode` writes a `u64`.
#[verifier::external_body]
pub(crate) fn encode_u64(x: u64) -> (r: Vec<u8>)
    ensures
        r@ == le_bytes_u64(x),
{
    parity_scale_codec::Encode::encode(&x)
}

/// Little-endian bytes of `x`, as `parity_scale_codec::Encode::encode` writes a `u32`.
#[verifier::external_body]
pub(crate) fn encode_u32(x: u32) -> (r: Vec<u8>)
    ensures
        r@ == le_bytes_u32(x),
{
    parity_scale_codec::Encode::encode(&x)
}

/// The compact encoding of `x`, as `parity_scale_codec::Encode::encode` writes a
/// `Compact<u32>`.
#[verifier::external_body]
pub(crate) fn encode_compact_u32(x: u32) -> (r: Vec<u8>)
    ensures
        r@ == compact_u32_bytes(x),
{
    parity_scale_codec::Encode::encode(&parity_scale_codec::Compact(x))
}

/// `<u64 as parity_scale_codec::Decode>::decode` on `input`: the little-endian value of its
/// first eight bytes, or an error (here `None`) where it holds fewer.
#[verifier::external_body]
pub(crate) fn decode_u64(input: &[u8]) -> (r: Option<u64>)
    ensures
        input@.len() >= 8 ==> r == Some(le_u64(input@.subrange(0, 8))),
        input@.len() < 8 ==> r is None,
{
    let mut rest = input;
    <u64 as parity_scale_codec::Decode>::decode(&mut rest).ok()
}

/// `<u32 as parity_scale_codec::Decode>::decode` on `input`: the little-endian value of its
/// first four bytes, or an error (here `None`) where it holds fewer.
#[verifier::external_body]
pub(crate) fn decode_u32(input: &[u8]) -> (r: Option<u32>)
    ensures
        input@.len() >= 4 ==> r == Some(le_u32(input@.subrange(0, 4))),
        input@.len() < 4 ==> r is None,
{
    let mut rest = input;
    <u32 as parity_scale_codec::Decode>::decode(&mut rest).ok()
}

/// `<Compact<u32> as parity_scale_codec::Decode>::decode` on `input`: the value as
/// [`compact_u32_decode`] states it, or an error (here `None`) where that has none.
#[verifier::external_body]
pub(crate) fn decode_compact_u32(input: &[u8]) -> (r: Option<u32>)
    ensures
        r == compact_u32_value(input@),
{
    let mut rest = input;
    match <parity_scale_codec::Compact<u32> as parity_scale_codec::Decode>::decode(&mut rest) {
        Ok(c) => Some(c.0),
        Err(_) => None,
    }
}

/// Number of bytes of the compact encoding of `x`.
pub fn compact_len(x: u32) -> (n: usize)
    ensures
        n == compact_u32_len(x),
{
    if x <= 0x3f {
        1
    } else if x <= 0x3fff {
        2
    } else if x <= 0x3fff_ffff {
        4
    } else {
        5
    }
}

} // verus!
