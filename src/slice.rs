use vstd::prelude::*;
use vstd::slice::slice_subrange;

use crate::error::ReadError;
use crate::header::{decode_spec, MplsHeader, SERIALIZED_SIZE};

verus! {

/// A borrowed window of exactly four bytes holding an MPLS header; the fields
/// are read from the bytes on demand.
#[derive(Clone, Copy, Debug, PartialEq, Eq)]
pub struct MplsHeaderSlice<'a> {
    slice: &'a [u8],
}

impl<'a> View for MplsHeaderSlice<'a> {
    type V = Seq<u8>;

    /// The bytes of the window.
    closed spec fn view(&self) -> Seq<u8> {
        self.slice@
    }
}

impl<'a> MplsHeaderSlice<'a> {
    #[verifier::type_invariant]
    spec fn inv(&self) -> bool {
        self.slice@.len() == SERIALIZED_SIZE
    }

    /// Binds a view to the first four bytes of `slice`.
    pub fn from_slice(slice: &'a [u8]) -> (r: Result<MplsHeaderSlice<'a>, ReadError>)
        ensures
            slice@.len() >= 4 <==> r is Ok,
            r matches Err(e) ==> e == ReadError::UnexpectedEndOfSlice(4),
            r matches Ok(v) ==> v@ == slice@.subrange(0, 4),
    {
        if slice.len() < SERIALIZED_SIZE {
            return Err(ReadError::UnexpectedEndOfSlice(SERIALIZED_SIZE));
        }
        Ok(MplsHeaderSlice { slice: slice_subrange(slice, 0, SERIALIZED_SIZE) })
    }

    /// The four bytes of the window.
    pub fn slice(&self) -> (r: &'a [u8])
        ensures
            r@ == self@,
            r@.len() == 4,
    {
        proof {
            use_type_invariant(self);
        }
        self.slice
    }

    /// The 20-bit label.
    pub fn label(&self) -> (r: u32)
        ensures
            r == decode_spec(self@).label,
    {
        proof {
            use_type_invariant(self);
        }
        let b0 = self.slice[0];
        let b1 = self.slice[1];
        let b2 = self.slice[2];
        let r: u32 = ((b0 as u32) << 12) | ((b1 as u32) << 4) | ((b2 as u32) >> 4);
        assert(r == b0 * 0x1000 + b1 * 0x10 + b2 / 0x10) by (bit_vector)
            requires
                r == ((b0 as u32) << 12) | ((b1 as u32) << 4) | ((b2 as u32) >> 4),
        ;
        r
    }

    /// The 3-bit traffic class.
    pub fn tc(&self) -> (r: u8)
        ensures
            r == decode_spec(self@).tc,
    {
        proof {
            use_type_invariant(self);
        }
        let b2 = self.slice[2];
        let r: u8 = (b2 >> 1) & 0b111;
        assert(r == (b2 / 2) % 8) by (bit_vector)
            requires
                r == (b2 >> 1) & 0b111,
        ;
        r
    }

    /// The bottom of stack flag.
    pub fn s(&self) -> (r: bool)
        ensures
            r == decode_spec(self@).s,
    {
        proof {
            use_type_invariant(self);
        }
        let b2 = self.slice[2];
        let r = (b2 & 1) != 0;
        assert(r == (b2 % 2 == 1)) by (bit_vector)
            requires
                r == ((b2 & 1) != 0),
        ;
        r
    }

    /// The time to live.
    pub fn ttl(&self) -> (r: u8)
        ensures
            r == decode_spec(self@).ttl,
    {
        proof {
            use_type_invariant(self);
        }
        self.slice[3]
    }

    /// Copies the four fields into an owned header.
    pub fn to_header(&self) -> (r: MplsHeader)
        ensures
            r == decode_spec(self@),
            r.in_range(),
    {
        proof {
            use_type_invariant(self);
        }
        MplsHeader { label: self.label(), tc: self.tc(), s: self.s(), ttl: self.ttl() }
    }
}

} // verus!
