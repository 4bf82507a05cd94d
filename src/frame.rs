//! Assembly of a whole frame: which optional fields are present, where each
//! field lies, and the decoder itself.
use vstd::prelude::*;
use vstd::slice::{slice_subrange, slice_to_vec};
use eui48::MacAddress;
use crate::control::{
    frame_control_result, framecontrol, is_qos, qos, sequence_control_of,
    sequencecontrol, FrameControl, SequenceControl,
};
use crate::error::DecodeError;
use crate::mac::{mac_address, mac_octets};
use crate::subtype::{FrameType, ManagementSubtype};

verus! {

/// Width of the trailing integrity field.
pub const INTEGRITY_LEN: usize = 4;

/// Offset of the first field after the three fixed addresses.
pub const FIXED_HEADER_LEN: usize = 22;

/// A decoded frame.
pub struct Frame {
    fc: FrameControl,
    dur_id: u16,
    address1: MacAddress,
    address2: MacAddress,
    address3: MacAddress,
    address4: Option<MacAddress>,
    seq_ctrl: Option<SequenceControl>,
    qos_ctrl: Option<u16>,
    ht_ctrl: Option<u32>,
    body: Vec<u8>,
    fcs: u32,
}

/// What a `Frame` holds, with each address as its six bytes.
pub struct FrameView {
    pub control: FrameControl,
    pub duration_id: u16,
    pub address1: Seq<u8>,
    pub address2: Seq<u8>,
    pub address3: Seq<u8>,
    pub address4: Option<Seq<u8>>,
    pub sequence_control: Option<SequenceControl>,
    pub qos_control: Option<u16>,
    pub ht_control: Option<u32>,
    pub body: Seq<u8>,
    pub integrity_field: u32,
}

impl View for Frame {
    type V = FrameView;

    closed spec fn view(&self) -> FrameView {
        FrameView {
            control: self.fc,
            duration_id: self.dur_id,
            address1: mac_octets(self.address1),
            address2: mac_octets(self.address2),
            address3: mac_octets(self.address3),
            address4: match self.address4 {
                Some(m) => Some(mac_octets(m)),
                None => None,
            },
            sequence_control: self.seq_ctrl,
            qos_control: self.qos_ctrl,
            ht_control: self.ht_ctrl,
            body: self.body@,
            integrity_field: self.fcs,
        }
    }
}

impl Frame {
    /// The Frame Control field.
    pub fn control(&self) -> (r: FrameControl)
        ensures
            r == self@.control,
    {
        self.fc
    }

    /// The Duration/ID field.
    pub fn duration_id(&self) -> (r: u16)
        ensures
            r == self@.duration_id,
    {
        self.dur_id
    }

    /// The first address.
    pub fn address1(&self) -> (r: MacAddress)
        ensures
            mac_octets(r) == self@.address1,
    {
        self.address1
    }

    /// The second address.
    pub fn address2(&self) -> (r: MacAddress)
        ensures
            mac_octets(r) == self@.address2,
    {
        self.address2
    }

    /// The third address.
    pub fn address3(&self) -> (r: MacAddress)
        ensures
            mac_octets(r) == self@.address3,
    {
        self.address3
    }

    /// The fourth address, when the frame has one.
    pub fn address4(&self) -> (r: Option<MacAddress>)
        ensures
            r is Some <==> self@.address4 is Some,
            r matches Some(m) ==> self@.address4 == Some(mac_octets(m)),
    {
        self.address4
    }

    /// The Sequence Control field, when the frame has one.
    pub fn sequence_control(&self) -> (r: Option<SequenceControl>)
        ensures
            r == self@.sequence_control,
    {
        self.seq_ctrl
    }

    /// The QoS Control field, when the frame has one.
    pub fn qos_control(&self) -> (r: Option<u16>)
        ensures
            r == self@.qos_control,
    {
        self.qos_ctrl
    }

    /// The HT Control field, when the frame has one.
    pub fn ht_control(&self) -> (r: Option<u32>)
        ensures
            r == self@.ht_control,
    {
        self.ht_ctrl
    }

    /// The body: the bytes between the header and the integrity field.
    pub fn body(&self) -> (r: &[u8])
        ensures
            r@ == self@.body,
    {
        self.body.as_slice()
    }

    /// The trailing integrity field, as read and not checked.
    pub fn integrity_field(&self) -> (r: u32)
        ensures
            r == self@.integrity_field,
    {
        self.fcs
    }
}

/// Sequence Control is present in Management and Data frames only.
pub open spec fn has_sequence_control(fc: FrameControl) -> bool {
    fc.frametype is Management || fc.frametype is Data
}

/// The fourth address is present when both distribution-system flags are set.
pub open spec fn has_address4(fc: FrameControl) -> bool {
    fc.to_ds && fc.from_ds
}

/// HT Control is present when the order flag is set on a QoS Data frame or on
/// a Management Action or Action-No-Ack frame.
pub open spec fn has_ht_control(fc: FrameControl) -> bool {
    fc.order && (is_qos(fc) || fc.frametype == FrameType::Management(ManagementSubtype::Action)
        || fc.frametype == FrameType::Management(ManagementSubtype::ActionNoAck))
}

/// Offset of the fourth address (or of what follows Sequence Control).
pub open spec fn address4_offset(fc: FrameControl) -> nat {
    22 + if has_sequence_control(fc) { 2nat } else { 0 }
}

/// Offset of the QoS Control field (or of what follows the fourth address).
pub open spec fn qos_offset(fc: FrameControl) -> nat {
    address4_offset(fc) + if has_address4(fc) { 6nat } else { 0 }
}

/// Offset of the HT Control field (or of what follows QoS Control).
pub open spec fn ht_offset(fc: FrameControl) -> nat {
    qos_offset(fc) + if is_qos(fc) { 2nat } else { 0 }
}

/// Length of the header: everything before the body.
pub open spec fn header_len(fc: FrameControl) -> nat {
    ht_offset(fc) + if has_ht_control(fc) { 4nat } else { 0 }
}

/// Start of the field inside which a buffer of `len` bytes ends, for a header
/// described by `fc`; the body and integrity field count as one field that
/// starts at `header_len(fc)`.
pub open spec fn short_field_offset(fc: FrameControl, len: nat) -> nat {
    if len < 4 {
        2
    } else if len < 10 {
        4
    } else if len < 16 {
        10
    } else if len < 22 {
        16
    } else if len < address4_offset(fc) {
        22
    } else if len < qos_offset(fc) {
        address4_offset(fc)
    } else if len < ht_offset(fc) {
        qos_offset(fc)
    } else if len < header_len(fc) {
        ht_offset(fc)
    } else {
        header_len(fc)
    }
}

/// The big-endian 16-bit value of the two bytes at `i`.
pub open spec fn be16_at(b: Seq<u8>, i: int) -> u16 {
    (b[i] as nat * 0x100 + b[i + 1] as nat) as u16
}

/// The big-endian 32-bit value of the four bytes at `i`.
pub open spec fn be32_at(b: Seq<u8>, i: int) -> u32 {
    (b[i] as nat * 0x100_0000 + b[i + 1] as nat * 0x1_0000 + b[i + 2] as nat * 0x100
        + b[i + 3] as nat) as u32
}

/// The frame held in `buf`, which is long enough for the header that `fc`
/// describes and the integrity field.
pub open spec fn frame_view_of(buf: Seq<u8>, fc: FrameControl) -> FrameView {
    let a4 = address4_offset(fc) as int;
    let q = qos_offset(fc) as int;
    let h = ht_offset(fc) as int;
    FrameView {
        control: fc,
        duration_id: be16_at(buf, 2),
        address1: buf.subrange(4, 10),
        address2: buf.subrange(10, 16),
        address3: buf.subrange(16, 22),
        address4: if has_address4(fc) { Some(buf.subrange(a4, a4 + 6)) } else { None },
        sequence_control: if has_sequence_control(fc) {
            Some(sequence_control_of(buf[22], buf[23]))
        } else {
            None
        },
        qos_control: if is_qos(fc) { Some(be16_at(buf, q)) } else { None },
        ht_control: if has_ht_control(fc) { Some(be32_at(buf, h)) } else { None },
        body: buf.subrange(header_len(fc) as int, buf.len() - 4),
        integrity_field: be32_at(buf, buf.len() - 4),
    }
}

impl FrameView {
    /// Each optional field is present exactly when the Frame Control field
    /// calls for it.
    pub open spec fn wf(&self) -> bool {
        &&& (self.address4 is Some <==> has_address4(self.control))
        &&& (self.sequence_control is Some <==> has_sequence_control(self.control))
        &&& (self.qos_control is Some <==> is_qos(self.control))
        &&& (self.ht_control is Some <==> has_ht_control(self.control))
    }
}

/// What decoding `buf` gives.
pub open spec fn decode_result(buf: Seq<u8>) -> Result<FrameView, DecodeError> {
    match frame_control_result(buf) {
        Err(e) => Err(e),
        Ok(fc) => if buf.len() < header_len(fc) + 4 {
            Err(DecodeError::Truncated(short_field_offset(fc, buf.len()) as usize))
        } else {
            Ok(frame_view_of(buf, fc))
        },
    }
}

/// The view of a decode result.
pub open spec fn result_view(r: Result<Frame, DecodeError>) -> Result<FrameView, DecodeError> {
    match r {
        Ok(f) => Ok(f@),
        Err(e) => Err(e),
    }
}

/// Whether a frame described by `fc` carries Sequence Control.
pub fn sequence_control_present(fc: &FrameControl) -> (r: bool)
    ensures
        r == has_sequence_control(*fc),
{
    match fc.frametype {
        FrameType::Management(_) | FrameType::Data(_) => true,
        _ => false,
    }
}

/// Whether a frame described by `fc` carries a fourth address.
pub fn address4_present(fc: &FrameControl) -> (r: bool)
    ensures
        r == has_address4(*fc),
{
    fc.to_ds && fc.from_ds
}

/// Whether a frame described by `fc` carries HT Control.
pub fn ht_control_present(fc: &FrameControl) -> (r: bool)
    ensures
        r == has_ht_control(*fc),
{
    let eligible = match fc.frametype {
        FrameType::Data(d) => d.qos,
        FrameType::Management(ManagementSubtype::Action) => true,
        FrameType::Management(ManagementSubtype::ActionNoAck) => true,
        _ => false,
    };
    fc.order && eligible
}

/// Length of the header that `fc` describes.
pub fn header_length(fc: &FrameControl) -> (r: usize)
    ensures
        r == header_len(*fc),
{
    let mut n: usize = FIXED_HEADER_LEN;
    if sequence_control_present(fc) {
        n = n + 2;
    }
    if address4_present(fc) {
        n = n + 6;
    }
    if qos(fc) {
        n = n + 2;
    }
    if ht_control_present(fc) {
        n = n + 4;
    }
    n
}

/// Length of the body of a buffer of `total` bytes whose header takes
/// `consumed` bytes: what is left once the integrity field is set aside.
pub fn body_length(total: usize, consumed: usize) -> (r: Result<usize, DecodeError>)
    ensures
        consumed > total ==> r == Err::<usize, DecodeError>(DecodeError::InconsistentLength(total)),
        consumed <= total < consumed + 4 ==> r == Err::<usize, DecodeError>(
            DecodeError::Truncated(consumed),
        ),
        consumed + 4 <= total ==> r == Ok::<usize, DecodeError>((total - consumed - 4) as usize),
{
    if consumed > total {
        Err(DecodeError::InconsistentLength(total))
    } else if total - consumed < INTEGRITY_LEN {
        Err(DecodeError::Truncated(consumed))
    } else {
        Ok(total - consumed - INTEGRITY_LEN)
    }
}

/// Reads the big-endian 16-bit value at `i`.
pub fn read_be16(buf: &[u8], i: usize) -> (r: u16)
    requires
        i + 2 <= buf@.len(),
    ensures
        r == be16_at(buf@, i as int),
{
    buf[i] as u16 * 0x100 + buf[i + 1] as u16
}

/// Reads the big-endian 32-bit value at `i`.
pub fn read_be32(buf: &[u8], i: usize) -> (r: u32)
    requires
        i + 4 <= buf@.len(),
    ensures
        r == be32_at(buf@, i as int),
{
    buf[i] as u32 * 0x100_0000 + buf[i + 1] as u32 * 0x1_0000 + buf[i + 2] as u32 * 0x100
        + buf[i + 3] as u32
}

/// Reads the hardware address in the six bytes at `i`.
fn read_address(buf: &[u8], i: usize) -> (r: Result<MacAddress, DecodeError>)
    requires
        i <= buf@.len(),
    ensures
        i + 6 <= buf@.len() ==> (r matches Ok(m) && mac_octets(m) == buf@.subrange(
            i as int,
            i + 6,
        )),
        i + 6 > buf@.len() ==> r == Err::<MacAddress, DecodeError>(DecodeError::Truncated(i)),
{
    if buf.len() - i < 6 {
        return Err(DecodeError::Truncated(i));
    }
    match mac_address(slice_subrange(buf, i, buf.len())) {
        Some(m) => Ok(m),
        None => Err(DecodeError::InvalidAddress(i)),
    }
}

/// Decodes one frame, header through integrity field, from `buf`.
pub fn decode(buf: &[u8]) -> (r: Result<Frame, DecodeError>)
    ensures
        result_view(r) == decode_result(buf@),
        r matches Ok(f) ==> f@.wf() && f@.body.len() + header_len(f@.control) + 4 == buf@.len(),
{
    let fc = match framecontrol(buf) {
        Ok(fc) => fc,
        Err(e) => return Err(e),
    };
    let len = buf.len();
    if len < 4 {
        return Err(DecodeError::Truncated(2));
    }
    let dur_id = read_be16(buf, 2);
    let address1 = match read_address(buf, 4) {
        Ok(m) => m,
        Err(e) => return Err(e),
    };
    let address2 = match read_address(buf, 10) {
        Ok(m) => m,
        Err(e) => return Err(e),
    };
    let address3 = match read_address(buf, 16) {
        Ok(m) => m,
        Err(e) => return Err(e),
    };
    let mut pos: usize = FIXED_HEADER_LEN;
    let seq_ctrl = if sequence_control_present(&fc) {
        if len - pos < 2 {
            return Err(DecodeError::Truncated(pos));
        }
        let s = match sequencecontrol(slice_subrange(buf, pos, pos + 2)) {
            Ok(s) => s,
            Err(e) => return Err(e),
        };
        pos = pos + 2;
        Some(s)
    } else {
        None
    };
    assert(pos == address4_offset(fc));
    let address4 = if address4_present(&fc) {
        let m = match read_address(buf, pos) {
            Ok(m) => m,
            Err(e) => return Err(e),
        };
        pos = pos + 6;
        Some(m)
    } else {
        None
    };
    assert(pos == qos_offset(fc));
    let qos_ctrl = if qos(&fc) {
        if len - pos < 2 {
            return Err(DecodeError::Truncated(pos));
        }
        let v = read_be16(buf, pos);
        pos = pos + 2;
        Some(v)
    } else {
        None
    };
    assert(pos == ht_offset(fc));
    let ht_ctrl = if ht_control_present(&fc) {
        if len - pos < 4 {
            return Err(DecodeError::Truncated(pos));
        }
        let v = read_be32(buf, pos);
        pos = pos + 4;
        Some(v)
    } else {
        None
    };
    assert(pos == header_len(fc));
    let body_len = match body_length(len, pos) {
        Ok(n) => n,
        Err(e) => return Err(e),
    };
    let body = slice_to_vec(slice_subrange(buf, pos, pos + body_len));
    let fcs = read_be32(buf, pos + body_len);
    let frame = Frame {
        fc,
        dur_id,
        address1,
        address2,
        address3,
        address4,
        seq_ctrl,
        qos_ctrl,
        ht_ctrl,
        body,
        fcs,
    };
    assert(frame@ =~= frame_view_of(buf@, fc));
    Ok(frame)
}

} // verus!
