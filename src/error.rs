//! Why a decode failed.
use vstd::prelude::*;

verus! {

/// A decode failure. Offsets count bytes from the start of the buffer.
#[derive(Clone, Copy, Debug, PartialEq, Eq, Structural)]
pub enum DecodeError {
    /// The buffer ends inside the field that starts at this offset.
    Truncated(usize),
    /// The protocol version field is not 0.
    UnsupportedVersion,
    /// The six bytes at this offset do not form a hardware address.
    InvalidAddress(usize),
    /// The header read so far extends past the end of the buffer, whose
    /// length is given here.
    InconsistentLength(usize),
}

} // verus!
