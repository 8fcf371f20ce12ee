//! Codec for the 4-byte MPLS label stack entry: an owned header value, a
//! borrowing view over a byte buffer, and the wire layout that both share.

pub mod error;
pub mod header;
pub mod round_trip;
pub mod slice;

pub use error::{ErrorField, ReadError, ValueError};
pub use header::MplsHeader;
pub use slice::MplsHeaderSlice;
