use vstd::prelude::*;
use vstd::slice::slice_subrange;

use crate::error::{ErrorField, ReadError, ValueError};
use crate::slice::MplsHeaderSlice;

verus! {

/// Number of bytes of one serialized header.
pub const SERIALIZED_SIZE: usize = 4;

/// Largest label value that fits in 20 bits.
pub const MAX_LABEL: u32 = 0xfffff;

/// Largest traffic class value that fits in 3 bits.
pub const MAX_TC: u8 = 0x7;

/// MPLS header (one label stack entry).
#[derive(Clone, Copy, Debug, PartialEq, Eq, Structural)]
pub struct MplsHeader {
    /// A 20-bit label value.
    pub label: u32,
    /// A 3-bit traffic class field (QoS priority and ECN).
    pub tc: u8,
    /// Bottom of stack flag: set on the last label of the stack.
    pub s: bool,
    /// An 8-bit time to live.
    pub ttl: u8,
}

/// The header that the first four bytes of `b` encode.
///
/// Wire layout, as a big-endian 32-bit word: bits 31..12 hold the label,
/// bits 11..9 the traffic class, bit 8 the bottom of stack flag and bits 7..0
/// the time to live.
pub open spec fn decode_spec(b: Seq<u8>) -> MplsHeader {
    MplsHeader {
        label: (b[0] * 0x1000 + b[1] * 0x10 + b[2] / 0x10) as u32,
        tc: ((b[2] / 2) % 8) as u8,
        s: b[2] % 2 == 1,
        ttl: b[3],
    }
}

/// The four bytes that encode `h`, when its fields are in range.
pub open spec fn encode_spec(h: MplsHeader) -> Seq<u8> {
    seq![
        (h.label / 0x1000) as u8,
        ((h.label / 0x10) % 0x100) as u8,
        ((h.label % 0x10) * 0x10 + h.tc * 2 + (if h.s { 1int } else { 0int })) as u8,
        h.ttl,
    ]
}

impl Default for MplsHeader {
    /// The header with every field zero and the flag clear.
    fn default() -> (r: MplsHeader)
        ensures
            r == (MplsHeader { label: 0, tc: 0, s: false, ttl: 0 }),
    {
        MplsHeader { label: 0, tc: 0, s: false, ttl: 0 }
    }
}

impl MplsHeader {
    /// All fields fit their width on the wire.
    pub open spec fn in_range(&self) -> bool {
        self.label <= MAX_LABEL && self.tc <= MAX_TC
    }

    /// Decodes a header from its four wire bytes.
    pub fn from_bytes(bytes: [u8; 4]) -> (r: MplsHeader)
        ensures
            r == decode_spec(bytes@),
            r.in_range(),
    {
        let b0 = bytes[0];
        let b1 = bytes[1];
        let b2 = bytes[2];
        let b3 = bytes[3];
        let label: u32 = ((b0 as u32) << 12) | ((b1 as u32) << 4) | ((b2 as u32) >> 4);
        let tc: u8 = (b2 >> 1) & 0b111;
        let s: bool = (b2 & 1) != 0;
        proof {
            assert(label == b0 * 0x1000 + b1 * 0x10 + b2 / 0x10 && label <= 0xfffff) by (bit_vector)
                requires
                    label == ((b0 as u32) << 12) | ((b1 as u32) << 4) | ((b2 as u32) >> 4),
            ;
            assert(tc == (b2 / 2) % 8 && tc <= 7) by (bit_vector)
                requires
                    tc == (b2 >> 1) & 0b111,
            ;
            assert(s == (b2 % 2 == 1)) by (bit_vector)
                requires
                    s == ((b2 & 1) != 0),
            ;
        }
        MplsHeader { label, tc, s, ttl: b3 }
    }

    /// Reads a header from the first four bytes of `slice` and returns it
    /// together with the bytes that follow it.
    pub fn from_slice(slice: &[u8]) -> (r: Result<(MplsHeader, &[u8]), ReadError>)
        ensures
            slice@.len() >= 4 <==> r is Ok,
            r matches Err(e) ==> e == ReadError::UnexpectedEndOfSlice(4),
            r matches Ok((h, rest)) ==> h == decode_spec(slice@) && h.in_range() && rest@
                == slice@.subrange(4, slice@.len() as int),
    {
        let view = match MplsHeaderSlice::from_slice(slice) {
            Ok(v) => v,
            Err(e) => {
                return Err(e);
            },
        };
        let h = view.to_header();
        Ok((h, slice_subrange(slice, SERIALIZED_SIZE, slice.len())))
    }

    /// Length of the serialized header in bytes.
    pub fn header_len(&self) -> (r: usize)
        ensures
            r == 4,
    {
        SERIALIZED_SIZE
    }

    /// The four wire bytes of the header, or the first field found out of
    /// range: the traffic class is checked before the label.
    pub fn to_bytes(&self) -> (r: Result<[u8; 4], ValueError>)
        ensures
            self.tc > MAX_TC ==> r == Err::<[u8; 4], ValueError>(
                ValueError::U8TooLarge { value: self.tc, max: MAX_TC, field: ErrorField::MplsTc },
            ),
            self.tc <= MAX_TC && self.label > MAX_LABEL ==> r == Err::<[u8; 4], ValueError>(
                ValueError::U32TooLarge {
                    value: self.label,
                    max: MAX_LABEL,
                    field: ErrorField::MplsLabel,
                },
            ),
            self.in_range() <==> r is Ok,
            r matches Ok(b) ==> b@ == encode_spec(*self),
    {
        if self.tc > MAX_TC {
            return Err(
                ValueError::U8TooLarge { value: self.tc, max: MAX_TC, field: ErrorField::MplsTc },
            );
        }
        if self.label > MAX_LABEL {
            return Err(
                ValueError::U32TooLarge {
                    value: self.label,
                    max: MAX_LABEL,
                    field: ErrorField::MplsLabel,
                },
            );
        }
        let label = self.label;
        let tc = self.tc;
        let flag: u8 = if self.s { 1 } else { 0 };
        let b0: u8 = (label >> 12) as u8;
        let b1: u8 = (label >> 4) as u8;
        let b2: u8 = (((label & 0xf) as u8) << 4) | (tc << 1) | flag;
        proof {
            assert(b0 == label / 0x1000 && b1 == (label / 0x10) % 0x100 && b2 == (label % 0x10)
                * 0x10 + tc * 2 + flag) by (bit_vector)
                requires
                    label <= 0xfffff,
                    tc <= 7,
                    flag <= 1,
                    b0 == (label >> 12) as u8,
                    b1 == (label >> 4) as u8,
                    b2 == (((label & 0xf) as u8) << 4) | (tc << 1) | flag,
            ;
        }
        let r: [u8; 4] = [b0, b1, b2, self.ttl];
        assert(r@ =~= encode_spec(*self));
        Ok(r)
    }
}

} // verus!
