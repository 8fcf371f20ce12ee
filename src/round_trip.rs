use vstd::prelude::*;

use crate::header::{decode_spec, encode_spec, MplsHeader};

verus! {

/// Bit-level facts behind packing fields into bytes and reading them back.
proof fn lemma_unpack_packed_label(label: u32, tc: u32, flag: u32)
    by (bit_vector)
    requires
        label <= 0xfffff,
        tc <= 7,
        flag <= 1,
    ensures
        (label / 0x1000) * 0x1000 + ((label / 0x10) % 0x100) * 0x10 + ((label % 0x10) * 0x10 + tc
            * 2 + flag) / 0x10 == label,
{
}

proof fn lemma_unpack_packed_flags(label: u32, tc: u32, flag: u32)
    by (bit_vector)
    requires
        label <= 0xfffff,
        tc <= 7,
        flag <= 1,
    ensures
        label / 0x1000 < 0x100,
        (label % 0x10) * 0x10 + tc * 2 + flag < 0x100,
        (((label % 0x10) * 0x10 + tc * 2 + flag) / 2) % 8 == tc,
        ((label % 0x10) * 0x10 + tc * 2 + flag) % 2 == flag,
{
}

/// Bit-level facts behind reading fields out of bytes and packing them back.
proof fn lemma_pack_unpacked_label(b0: u32, b1: u32, b2: u32)
    by (bit_vector)
    requires
        b0 < 0x100,
        b1 < 0x100,
        b2 < 0x100,
    ensures
        (b0 * 0x1000 + b1 * 0x10 + b2 / 0x10) / 0x1000 == b0,
        ((b0 * 0x1000 + b1 * 0x10 + b2 / 0x10) / 0x10) % 0x100 == b1,
{
}

proof fn lemma_pack_unpacked_low(b0: u32, b1: u32, b2: u32)
    by (bit_vector)
    requires
        b0 < 0x100,
        b1 < 0x100,
        b2 < 0x100,
    ensures
        b0 * 0x1000 + b1 * 0x10 + b2 / 0x10 <= 0xfffff,
        ((b0 * 0x1000 + b1 * 0x10 + b2 / 0x10) % 0x10) * 0x10 + ((b2 / 2) % 8) * 2 + b2 % 2 == b2,
{
}

/// Decoding the encoding of a header whose fields are in range gives back
/// that header.
pub proof fn lemma_decode_encode(h: MplsHeader)
    requires
        h.in_range(),
    ensures
        encode_spec(h).len() == 4,
        decode_spec(encode_spec(h)) == h,
{
    let flag: u8 = if h.s { 1 } else { 0 };
    lemma_unpack_packed_label(h.label, h.tc as u32, flag as u32);
    lemma_unpack_packed_flags(h.label, h.tc as u32, flag as u32);
}

/// Every four bytes are the encoding of the header they decode to, and that
/// header's fields are in range.
pub proof fn lemma_encode_decode(b: Seq<u8>)
    requires
        b.len() == 4,
    ensures
        decode_spec(b).in_range(),
        encode_spec(decode_spec(b)) == b,
{
    lemma_pack_unpacked_label(b[0] as u32, b[1] as u32, b[2] as u32);
    lemma_pack_unpacked_low(b[0] as u32, b[1] as u32, b[2] as u32);
    assert(encode_spec(decode_spec(b)) =~= b);
}

/// Decoding, encoding and decoding again gives the header of the first
/// decode.
pub proof fn lemma_decode_encode_decode(b: Seq<u8>)
    requires
        b.len() == 4,
    ensures
        decode_spec(encode_spec(decode_spec(b))) == decode_spec(b),
{
    lemma_encode_decode(b);
    lemma_decode_encode(decode_spec(b));
}

} // verus!
