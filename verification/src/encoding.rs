//! Little-endian byte encodings of integers, as borsh and bincode lay them out.
use vstd::prelude::*;

verus! {

/// The eight bytes of `v`, least significant first.
pub open spec fn u64_le_bytes(v: u64) -> Seq<u8> {
    seq![
        v as u8,
        (v >> 8u64) as u8,
        (v >> 16u64) as u8,
        (v >> 24u64) as u8,
        (v >> 32u64) as u8,
        (v >> 40u64) as u8,
        (v >> 48u64) as u8,
        (v >> 56u64) as u8,
    ]
}

/// The integer whose little-endian bytes are the first eight of `b`.
pub open spec fn u64_from_le(b: Seq<u8>) -> u64 {
    (b[0] as u64) | ((b[1] as u64) << 8u64) | ((b[2] as u64) << 16u64) | ((b[3] as u64) << 24u64)
        | ((b[4] as u64) << 32u64) | ((b[5] as u64) << 40u64) | ((b[6] as u64) << 48u64) | ((
    b[7] as u64) << 56u64)
}

/// The four bytes of `v`, least significant first.
pub open spec fn u32_le_bytes(v: u32) -> Seq<u8> {
    seq![v as u8, (v >> 8u32) as u8, (v >> 16u32) as u8, (v >> 24u32) as u8]
}

/// Decoding the little-endian bytes of an integer gives the integer back.
pub proof fn lemma_u64_le_decode_encode(v: u64)
    ensures
        u64_le_bytes(v).len() == 8,
        u64_from_le(u64_le_bytes(v)) == v,
{
    let b = u64_le_bytes(v);
    let (x0, x1, x2, x3, x4, x5, x6, x7) = (b[0], b[1], b[2], b[3], b[4], b[5], b[6], b[7]);
    assert((x0 as u64) | ((x1 as u64) << 8u64) | ((x2 as u64) << 16u64) | ((x3 as u64) << 24u64)
        | ((x4 as u64) << 32u64) | ((x5 as u64) << 40u64) | ((x6 as u64) << 48u64) | ((
    x7 as u64) << 56u64) == v) by (bit_vector)
        requires
            x0 == v as u8,
            x1 == (v >> 8u64) as u8,
            x2 == (v >> 16u64) as u8,
            x3 == (v >> 24u64) as u8,
            x4 == (v >> 32u64) as u8,
            x5 == (v >> 40u64) as u8,
            x6 == (v >> 48u64) as u8,
            x7 == (v >> 56u64) as u8,
    ;
}

/// Encoding the integer that eight bytes decode to gives the bytes back.
pub proof fn lemma_u64_le_encode_decode(b: Seq<u8>)
    requires
        b.len() == 8,
    ensures
        u64_le_bytes(u64_from_le(b)) == b,
{
    let v: u64 = u64_from_le(b);
    let (x0, x1, x2, x3, x4, x5, x6, x7) = (b[0], b[1], b[2], b[3], b[4], b[5], b[6], b[7]);
    assert(x0 == v as u8 && x1 == (v >> 8u64) as u8 && x2 == (v >> 16u64) as u8 && x3 == (v
        >> 24u64) as u8 && x4 == (v >> 32u64) as u8 && x5 == (v >> 40u64) as u8 && x6 == (v
        >> 48u64) as u8 && x7 == (v >> 56u64) as u8) by (bit_vector)
        requires
            v == (x0 as u64) | ((x1 as u64) << 8u64) | ((x2 as u64) << 16u64) | ((x3 as u64)
                << 24u64) | ((x4 as u64) << 32u64) | ((x5 as u64) << 40u64) | ((x6 as u64)
                << 48u64) | ((x7 as u64) << 56u64),
    ;
    assert(u64_le_bytes(v) =~= b);
}

} // verus!
