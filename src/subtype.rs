//! Frame types and the four subtype families.
use vstd::prelude::*;

verus! {

/// Subtypes of Management frames, keyed by their 4-bit wire code.
#[derive(Clone, Copy, Debug, PartialEq, Eq, Structural)]
pub enum ManagementSubtype {
    AssociationRequest,
    AssociationResponse,
    ReassociationRequest,
    ReassociationResponse,
    ProbeRequest,
    ProbeResponse,
    TimingAdvertisment,
    Beacon,
    Atim,
    Disassociation,
    Authentication,
    Deauthentication,
    Action,
    ActionNoAck,
    Reserved,
}

/// The Management subtype that a wire code names; unassigned codes are `Reserved`.
pub open spec fn management_subtype_of(code: u8) -> ManagementSubtype {
    match code {
        0x00 => ManagementSubtype::AssociationRequest,
        0x01 => ManagementSubtype::AssociationResponse,
        0x02 => ManagementSubtype::ReassociationRequest,
        0x03 => ManagementSubtype::ReassociationResponse,
        0x04 => ManagementSubtype::ProbeRequest,
        0x05 => ManagementSubtype::ProbeResponse,
        0x06 => ManagementSubtype::TimingAdvertisment,
        0x08 => ManagementSubtype::Beacon,
        0x09 => ManagementSubtype::Atim,
        0x0A => ManagementSubtype::Disassociation,
        0x0B => ManagementSubtype::Authentication,
        0x0C => ManagementSubtype::Deauthentication,
        0x0D => ManagementSubtype::Action,
        0x0E => ManagementSubtype::ActionNoAck,
        _ => ManagementSubtype::Reserved,
    }
}

impl From<u8> for ManagementSubtype {
    fn from(subtype: u8) -> (r: ManagementSubtype)
        ensures
            r == management_subtype_of(subtype),
    {
        match subtype {
            0x00 => ManagementSubtype::AssociationRequest,
            0x01 => ManagementSubtype::AssociationResponse,
            0x02 => ManagementSubtype::ReassociationRequest,
            0x03 => ManagementSubtype::ReassociationResponse,
            0x04 => ManagementSubtype::ProbeRequest,
            0x05 => ManagementSubtype::ProbeResponse,
            0x06 => ManagementSubtype::TimingAdvertisment,
            0x07 => ManagementSubtype::Reserved,
            0x08 => ManagementSubtype::Beacon,
            0x09 => ManagementSubtype::Atim,
            0x0A => ManagementSubtype::Disassociation,
            0x0B => ManagementSubtype::Authentication,
            0x0C => ManagementSubtype::Deauthentication,
            0x0D => ManagementSubtype::Action,
            0x0E => ManagementSubtype::ActionNoAck,
            _ => ManagementSubtype::Reserved,
        }
    }
}

impl vstd::std_specs::convert::FromSpecImpl<u8> for ManagementSubtype {
    open spec fn obeys_from_spec() -> bool {
        true
    }

    open spec fn from_spec(v: u8) -> ManagementSubtype {
        management_subtype_of(v)
    }
}

/// Subtypes of Control frames, keyed by their 4-bit wire code.
#[derive(Clone, Copy, Debug, PartialEq, Eq, Structural)]
pub enum ControlSubtype {
    Trigger,
    BeamformingReportPoll,
    VHTNDPAnouncement,
    ControlFrameExtension,
    ControlWrapper,
    BlockAckRequest,
    BlockAck,
    PSPoll,
    RTS,
    CTS,
    ACK,
    CFEnd,
    CFEndCFAck,
    Reserved,
}

/// The Control subtype that a wire code names; unassigned codes are `Reserved`.
pub open spec fn control_subtype_of(code: u8) -> ControlSubtype {
    match code {
        0x02 => ControlSubtype::Trigger,
        0x04 => ControlSubtype::BeamformingReportPoll,
        0x05 => ControlSubtype::VHTNDPAnouncement,
        0x06 => ControlSubtype::ControlFrameExtension,
        0x07 => ControlSubtype::ControlWrapper,
        0x08 => ControlSubtype::BlockAckRequest,
        0x09 => ControlSubtype::BlockAck,
        0x0A => ControlSubtype::PSPoll,
        0x0B => ControlSubtype::RTS,
        0x0C => ControlSubtype::CTS,
        0x0D => ControlSubtype::ACK,
        0x0E => ControlSubtype::CFEnd,
        0x0F => ControlSubtype::CFEndCFAck,
        _ => ControlSubtype::Reserved,
    }
}

impl From<u8> for ControlSubtype {
    fn from(subtype: u8) -> (r: ControlSubtype)
        ensures
            r == control_subtype_of(subtype),
    {
        match subtype {
            0x02 => ControlSubtype::Trigger,
            0x04 => ControlSubtype::BeamformingReportPoll,
            0x05 => ControlSubtype::VHTNDPAnouncement,
            0x06 => ControlSubtype::ControlFrameExtension,
            0x07 => ControlSubtype::ControlWrapper,
            0x08 => ControlSubtype::BlockAckRequest,
            0x09 => ControlSubtype::BlockAck,
            0x0A => ControlSubtype::PSPoll,
            0x0B => ControlSubtype::RTS,
            0x0C => ControlSubtype::CTS,
            0x0D => ControlSubtype::ACK,
            0x0E => ControlSubtype::CFEnd,
            0x0F => ControlSubtype::CFEndCFAck,
            _ => ControlSubtype::Reserved,
        }
    }
}

impl vstd::std_specs::convert::FromSpecImpl<u8> for ControlSubtype {
    open spec fn obeys_from_spec() -> bool {
        true
    }

    open spec fn from_spec(v: u8) -> ControlSubtype {
        control_subtype_of(v)
    }
}

/// Subtype of a Data frame: the four independent bits of its subtype code.
#[derive(Clone, Copy, Debug, PartialEq, Eq, Structural)]
pub struct DataSubtype {
    /// The frame carries a payload (the "null" bit is clear).
    pub data: bool,
    /// CF-Ack bit.
    pub ack: bool,
    /// CF-Poll bit.
    pub poll: bool,
    /// The frame is QoS-capable and carries a QoS Control field.
    pub qos: bool,
}

/// The Data subtype of a 4-bit code: bit 0 is CF-Ack, bit 1 CF-Poll,
/// bit 2 "null" (no payload) and bit 3 QoS.
pub open spec fn data_subtype_of(code: u8) -> DataSubtype {
    DataSubtype {
        data: code & 0x04 == 0,
        ack: code & 0x01 != 0,
        poll: code & 0x02 != 0,
        qos: code & 0x08 != 0,
    }
}

/// Decodes the four bits of a Data subtype code.
pub fn data_subtype(code: u8) -> (r: DataSubtype)
    ensures
        r == data_subtype_of(code),
{
    let ack = code & 0x01 != 0;
    let poll = code & 0x02 != 0;
    let null = code & 0x04 != 0;
    let qos = code & 0x08 != 0;
    DataSubtype { data: !null, ack, poll, qos }
}

/// Subtypes of Extension frames.
#[derive(Clone, Copy, Debug, PartialEq, Eq, Structural)]
pub enum ExtensionSubtype {
    DMGBeacon,
    Reserved,
}

/// The Extension subtype that a wire code names; only code 0 is assigned.
pub open spec fn extension_subtype_of(code: u8) -> ExtensionSubtype {
    if code == 0 {
        ExtensionSubtype::DMGBeacon
    } else {
        ExtensionSubtype::Reserved
    }
}

impl From<u8> for ExtensionSubtype {
    fn from(subtype: u8) -> (r: ExtensionSubtype)
        ensures
            r == extension_subtype_of(subtype),
    {
        match subtype {
            0x00 => ExtensionSubtype::DMGBeacon,
            _ => ExtensionSubtype::Reserved,
        }
    }
}

impl vstd::std_specs::convert::FromSpecImpl<u8> for ExtensionSubtype {
    open spec fn obeys_from_spec() -> bool {
        true
    }

    open spec fn from_spec(v: u8) -> ExtensionSubtype {
        extension_subtype_of(v)
    }
}

/// Frame type with its subtype.
#[derive(Clone, Copy, Debug, PartialEq, Eq, Structural)]
pub enum FrameType {
    Management(ManagementSubtype),
    Control(ControlSubtype),
    Data(DataSubtype),
    Extension(ExtensionSubtype),
}

/// The frame type that a 2-bit type code and a 4-bit subtype code name:
/// `00` Control, `01` Management, `10` Data, `11` Extension.
pub open spec fn frame_type_of(type_code: u8, subtype: u8) -> FrameType {
    if type_code == 0 {
        FrameType::Control(control_subtype_of(subtype))
    } else if type_code == 1 {
        FrameType::Management(management_subtype_of(subtype))
    } else if type_code == 2 {
        FrameType::Data(data_subtype_of(subtype))
    } else {
        FrameType::Extension(extension_subtype_of(subtype))
    }
}

/// Classifies a frame by its 2-bit type code (values above 3 are read by their
/// low two bits) and 4-bit subtype code. Never fails: unassigned codes are
/// `Reserved`.
pub fn frametype(type_code: u8, subtype: u8) -> (r: FrameType)
    ensures
        r == frame_type_of(type_code & 3, subtype),
{
    let t = type_code & 3;
    if t == 0 {
        FrameType::Control(ControlSubtype::from(subtype))
    } else if t == 1 {
        FrameType::Management(ManagementSubtype::from(subtype))
    } else if t == 2 {
        FrameType::Data(data_subtype(subtype))
    } else {
        FrameType::Extension(ExtensionSubtype::from(subtype))
    }
}

} // verus!
