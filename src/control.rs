//! The Frame Control and Sequence Control fields.
use vstd::prelude::*;
use vstd::slice::slice_subrange;
use crate::bits::{BitCursor, bits_value};
use crate::error::DecodeError;
use crate::subtype::{frame_type_of, frametype, FrameType};

verus! {

/// The 2-byte Frame Control field.
#[derive(Clone, Copy, Debug, PartialEq, Eq, Structural)]
pub struct FrameControl {
    pub version: u8,
    pub frametype: FrameType,
    pub to_ds: bool,
    pub from_ds: bool,
    pub more_fragments: bool,
    pub retry: bool,
    pub power_mgmt: bool,
    pub more_data: bool,
    pub protected_frame: bool,
    pub order: bool,
}

/// The protocol version held in the two low bits of the first byte.
pub open spec fn version_of(b0: u8) -> u8 {
    b0 & 3
}

/// The Frame Control field held in bytes `b0`, `b1`. In `b0`, bits 0-1 are the
/// version, bits 2-3 the type code and bits 4-7 the subtype code; `b1` holds
/// the eight flags, the least significant bit first.
pub open spec fn frame_control_of(b0: u8, b1: u8) -> FrameControl {
    FrameControl {
        version: version_of(b0),
        frametype: frame_type_of((b0 >> 2u8) & 3, b0 >> 4u8),
        to_ds: b1 & 0x01 != 0,
        from_ds: b1 & 0x02 != 0,
        more_fragments: b1 & 0x04 != 0,
        retry: b1 & 0x08 != 0,
        power_mgmt: b1 & 0x10 != 0,
        more_data: b1 & 0x20 != 0,
        protected_frame: b1 & 0x40 != 0,
        order: b1 & 0x80 != 0,
    }
}

/// What decoding the Frame Control field at the start of `buf` gives.
pub open spec fn frame_control_result(buf: Seq<u8>) -> Result<FrameControl, DecodeError> {
    if buf.len() == 0 {
        Err(DecodeError::Truncated(0))
    } else if version_of(buf[0]) != 0 {
        Err(DecodeError::UnsupportedVersion)
    } else if buf.len() < 2 {
        Err(DecodeError::Truncated(0))
    } else {
        Ok(frame_control_of(buf[0], buf[1]))
    }
}

/// Decodes the Frame Control field at the start of `buf`. The version is
/// checked first, so a version other than 0 fails as soon as one byte is there.
pub fn framecontrol(buf: &[u8]) -> (r: Result<FrameControl, DecodeError>)
    ensures
        r == frame_control_result(buf@),
{
    if buf.len() == 0 {
        return Err(DecodeError::Truncated(0));
    }
    let b0 = buf[0];
    if b0 & 3 != 0 {
        return Err(DecodeError::UnsupportedVersion);
    }
    if buf.len() < 2 {
        return Err(DecodeError::Truncated(0));
    }
    let b1 = buf[1];
    let frametype = frametype(b0 >> 2u8, b0 >> 4u8);
    proof {
        assert((b0 >> 2u8) & 3 & 3 == (b0 >> 2u8) & 3) by (bit_vector);
    }
    Ok(FrameControl {
        version: b0 & 3,
        frametype,
        to_ds: b1 & 0x01 != 0,
        from_ds: b1 & 0x02 != 0,
        more_fragments: b1 & 0x04 != 0,
        retry: b1 & 0x08 != 0,
        power_mgmt: b1 & 0x10 != 0,
        more_data: b1 & 0x20 != 0,
        protected_frame: b1 & 0x40 != 0,
        order: b1 & 0x80 != 0,
    })
}

/// The frame is a Data frame whose subtype marks it QoS-capable.
pub open spec fn is_qos(fc: FrameControl) -> bool {
    match fc.frametype {
        FrameType::Data(d) => d.qos,
        _ => false,
    }
}

/// Whether the frame is a QoS Data frame.
pub fn qos(fc: &FrameControl) -> (r: bool)
    ensures
        r == is_qos(*fc),
{
    match &fc.frametype {
        FrameType::Data(d) => d.qos,
        _ => false,
    }
}

/// The 2-byte Sequence Control field.
#[derive(Clone, Copy, Debug, PartialEq, Eq, Structural)]
pub struct SequenceControl {
    /// Fragment number, 4 bits.
    pub fragment: u8,
    /// Sequence number, 12 bits.
    pub sequence: u16,
}

/// The Sequence Control field held in bytes `b0`, `b1`: the fragment number is
/// the high nibble of `b0`, the sequence number the twelve bits that follow.
pub open spec fn sequence_control_of(b0: u8, b1: u8) -> SequenceControl {
    SequenceControl {
        fragment: b0 >> 4u8,
        sequence: (((b0 & 0x0F) as u16) << 8u16) | (b1 as u16),
    }
}

proof fn lemma_sequence_bits(d: Seq<u8>)
    requires
        d.len() == 2,
    ensures
        bits_value(d, 0, 4) == (d[0] >> 4u8) as nat,
        bits_value(d, 4, 12) == ((((d[0] & 0x0F) as u16) << 8u16) | (d[1] as u16)) as nat,
        (d[0] >> 4u8) < 16,
        ((((d[0] & 0x0F) as u16) << 8u16) | (d[1] as u16)) < 4096,
{
    reveal_with_fuel(bits_value, 13);
    let x = d[0];
    let y = d[1];
    assert(((x >> 7u8) & 1u8) as u32 * 8 + ((x >> 6u8) & 1u8) as u32 * 4 + ((x >> 5u8) & 1u8) as u32 * 2
        + ((x >> 4u8) & 1u8) as u32 == (x >> 4u8) as u32) by (bit_vector);
    assert(((x >> 3u8) & 1u8) as u32 * 2048 + ((x >> 2u8) & 1u8) as u32 * 1024 + ((x >> 1u8) & 1u8) as u32
        * 512 + ((x >> 0u8) & 1u8) as u32 * 256 + ((y >> 7u8) & 1u8) as u32 * 128 + ((y >> 6u8) & 1u8) as u32
        * 64 + ((y >> 5u8) & 1u8) as u32 * 32 + ((y >> 4u8) & 1u8) as u32 * 16 + ((y >> 3u8) & 1u8) as u32
        * 8 + ((y >> 2u8) & 1u8) as u32 * 4 + ((y >> 1u8) & 1u8) as u32 * 2 + ((y >> 0u8) & 1u8) as u32
        == ((((x & 0x0F) as u16) << 8u16) | (y as u16)) as u32) by (bit_vector);
    assert((x >> 4u8) < 16) by (bit_vector);
    assert(((((x & 0x0F) as u16) << 8u16) | (y as u16)) < 4096) by (bit_vector);
}

/// Decodes a Sequence Control field from the first two bytes of `field`: 4
/// bits of fragment number, then 12 bits of sequence number. Fails with
/// `Truncated(0)` when fewer than two bytes are given.
pub fn sequencecontrol(field: &[u8]) -> (r: Result<SequenceControl, DecodeError>)
    ensures
        field@.len() >= 2 ==> r == Ok::<SequenceControl, DecodeError>(
            sequence_control_of(field@[0], field@[1]),
        ),
        field@.len() < 2 ==> r == Err::<SequenceControl, DecodeError>(DecodeError::Truncated(0)),
{
    let bytes = if field.len() > 2 {
        slice_subrange(field, 0, 2)
    } else {
        field
    };
    let mut cursor = BitCursor::new(bytes);
    proof {
        if bytes@.len() == 2 {
            lemma_sequence_bits(bytes@);
        }
    }
    let fragment = cursor.take_bits(4);
    let sequence = cursor.take_bits(12);
    match (fragment, sequence) {
        (Ok(f), Ok(s)) => Ok(SequenceControl { fragment: f as u8, sequence: s as u16 }),
        (Err(e), _) => Err(e),
        (_, Err(e)) => Err(e),
    }
}

} // verus!
