//! Properties of the decoder, proved over `decode_result`.
use vstd::prelude::*;
use crate::control::{frame_control_of, frame_control_result, is_qos, version_of};
use crate::error::DecodeError;
use crate::frame::{decode_result, header_len, result_view, Frame};
use crate::subtype::{ControlSubtype, ExtensionSubtype, FrameType, ManagementSubtype};

verus! {

/// A frame of the smallest length its type allows, with neither distribution
/// flag nor the order flag set, decodes: it has no fourth address and an empty
/// body, Sequence Control exactly when it is not a Control or Extension frame,
/// and QoS Control exactly when it is a QoS Data frame.
pub proof fn lemma_minimal_frame_decodes(buf: Seq<u8>)
    requires
        buf.len() >= 2,
        version_of(buf[0]) == 0,
        !frame_control_of(buf[0], buf[1]).to_ds,
        !frame_control_of(buf[0], buf[1]).from_ds,
        !frame_control_of(buf[0], buf[1]).order,
        buf.len() == header_len(frame_control_of(buf[0], buf[1])) + 4,
    ensures
        decode_result(buf) matches Ok(f) && {
            &&& f.control == frame_control_of(buf[0], buf[1])
            &&& f.address4 is None
            &&& f.ht_control is None
            &&& (f.sequence_control is None <==> (f.control.frametype is Control
                || f.control.frametype is Extension))
            &&& (f.qos_control is Some <==> is_qos(f.control))
            &&& f.body.len() == 0
        },
{
}

/// Of every decoded frame, the fourth address is present exactly when both
/// distribution-system flags are set.
pub proof fn lemma_address4_iff_both_ds(buf: Seq<u8>)
    requires
        decode_result(buf) is Ok,
    ensures
        decode_result(buf) matches Ok(f) && (f.address4 is Some <==> (f.control.to_ds
            && f.control.from_ds)),
{
}

/// Cutting a decodable buffer short by more bytes than its body holds always
/// gives `Truncated`, never a frame.
pub proof fn lemma_cut_short_is_truncated(buf: Seq<u8>, n: nat)
    requires
        decode_result(buf) matches Ok(f) && n + f.body.len() < buf.len(),
    ensures
        decode_result(buf.take(n as int)) is Err,
        decode_result(buf.take(n as int)) matches Err(e) && e is Truncated,
{
    let cut = buf.take(n as int);
    if n >= 2 {
        assert(cut[0] == buf[0] && cut[1] == buf[1]);
    } else if n == 1 {
        assert(cut[0] == buf[0]);
    }
}

/// Two decodes of the same bytes give the same result.
pub proof fn lemma_decode_deterministic(
    buf: Seq<u8>,
    r1: Result<Frame, DecodeError>,
    r2: Result<Frame, DecodeError>,
)
    requires
        result_view(r1) == decode_result(buf),
        result_view(r2) == decode_result(buf),
    ensures
        result_view(r1) == result_view(r2),
{
}

/// The frame type names a subtype code that is not assigned.
pub open spec fn is_reserved(t: FrameType) -> bool {
    match t {
        FrameType::Management(m) => m == ManagementSubtype::Reserved,
        FrameType::Control(c) => c == ControlSubtype::Reserved,
        FrameType::Data(_) => false,
        FrameType::Extension(x) => x == ExtensionSubtype::Reserved,
    }
}

/// The subtype code `s` is unassigned in the family of type code `t`.
pub open spec fn is_reserved_code(t: u8, s: u8) -> bool {
    ||| t == 0 && (s == 0 || s == 1 || s == 3)
    ||| t == 1 && (s == 7 || s == 15)
    ||| t == 3 && s != 0
}

/// Unassigned subtype codes decode to the `Reserved` subtype, not to a
/// failure: the frame then decodes whenever the buffer is long enough.
pub proof fn lemma_reserved_codes_decode(buf: Seq<u8>)
    requires
        buf.len() >= 2,
        version_of(buf[0]) == 0,
        is_reserved_code((buf[0] >> 2u8) & 3, buf[0] >> 4u8),
    ensures
        frame_control_result(buf) matches Ok(fc) && is_reserved(fc.frametype),
        buf.len() >= header_len(frame_control_of(buf[0], buf[1])) + 4 ==> decode_result(buf) is Ok,
{
}

} // verus!
