use vstd::prelude::*;

verus! {

/// Identifies the header field that a range check refers to.
#[derive(Clone, Copy, Debug, PartialEq, Eq, Structural)]
pub enum ErrorField {
    /// The 20-bit label.
    MplsLabel,
    /// The 3-bit traffic class.
    MplsTc,
}

/// Failure to read a header out of a byte buffer.
#[derive(Clone, Copy, Debug, PartialEq, Eq, Structural)]
pub enum ReadError {
    /// The buffer ended early; holds the number of bytes that were required.
    UnexpectedEndOfSlice(usize),
}

/// A field value that does not fit its width on the wire.
#[derive(Clone, Copy, Debug, PartialEq, Eq, Structural)]
#[allow(inconsistent_fields)]
pub enum ValueError {
    /// An 8-bit field exceeded its maximum.
    U8TooLarge { value: u8, max: u8, field: ErrorField },
    /// A 32-bit field exceeded its maximum.
    U32TooLarge { value: u32, max: u32, field: ErrorField },
}

} // verus!
