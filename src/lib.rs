//! Decoding of a single IEEE 802.11 MAC frame header from raw bytes.
//!
//! `decode` turns one frame, header through trailing integrity field, into a
//! `Frame`, or says why it cannot: its result is exactly `decode_result` of the
//! input bytes, a specification written over the byte layout.

pub mod addressing;
pub mod bits;
pub mod control;
pub mod error;
pub mod frame;
pub mod laws;
pub mod mac;
pub mod subtype;

pub use bits::BitCursor;
pub use control::{FrameControl, SequenceControl};
pub use error::DecodeError;
pub use frame::{decode, Frame, FrameView};
pub use subtype::{ControlSubtype, DataSubtype, ExtensionSubtype, FrameType, ManagementSubtype};
