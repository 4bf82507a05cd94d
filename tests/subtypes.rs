use wifi_frame::addressing::{address_roles, AddressRole};
use wifi_frame::bits::BitCursor;
use wifi_frame::control::{framecontrol, qos, sequencecontrol};
use wifi_frame::frame::{header_length, read_be16, read_be32};
use wifi_frame::mac::mac_address;
use wifi_frame::subtype::{data_subtype, frametype};
use wifi_frame::{
    ControlSubtype, DataSubtype, DecodeError, ExtensionSubtype, FrameType, ManagementSubtype,
};

#[test]
fn management_codes() {
    assert_eq!(ManagementSubtype::from(0x00), ManagementSubtype::AssociationRequest);
    assert_eq!(ManagementSubtype::from(0x06), ManagementSubtype::TimingAdvertisment);
    assert_eq!(ManagementSubtype::from(0x07), ManagementSubtype::Reserved);
    assert_eq!(ManagementSubtype::from(0x08), ManagementSubtype::Beacon);
    assert_eq!(ManagementSubtype::from(0x0D), ManagementSubtype::Action);
    assert_eq!(ManagementSubtype::from(0x0E), ManagementSubtype::ActionNoAck);
    assert_eq!(ManagementSubtype::from(0x0F), ManagementSubtype::Reserved);
    assert_eq!(ManagementSubtype::from(0x40), ManagementSubtype::Reserved);
}

#[test]
fn control_codes() {
    assert_eq!(ControlSubtype::from(0x00), ControlSubtype::Reserved);
    assert_eq!(ControlSubtype::from(0x01), ControlSubtype::Reserved);
    assert_eq!(ControlSubtype::from(0x02), ControlSubtype::Trigger);
    assert_eq!(ControlSubtype::from(0x03), ControlSubtype::Reserved);
    assert_eq!(ControlSubtype::from(0x0B), ControlSubtype::RTS);
    assert_eq!(ControlSubtype::from(0x0C), ControlSubtype::CTS);
    assert_eq!(ControlSubtype::from(0x0F), ControlSubtype::CFEndCFAck);
}

#[test]
fn extension_codes() {
    assert_eq!(ExtensionSubtype::from(0), ExtensionSubtype::DMGBeacon);
    assert_eq!(ExtensionSubtype::from(1), ExtensionSubtype::Reserved);
    assert_eq!(ExtensionSubtype::from(0x0F), ExtensionSubtype::Reserved);
}

#[test]
fn data_subtype_bits() {
    assert_eq!(data_subtype(0b0000), DataSubtype { data: true, ack: false, poll: false, qos: false });
    assert_eq!(data_subtype(0b0001), DataSubtype { data: true, ack: true, poll: false, qos: false });
    assert_eq!(data_subtype(0b0010), DataSubtype { data: true, ack: false, poll: true, qos: false });
    assert_eq!(data_subtype(0b0100), DataSubtype { data: false, ack: false, poll: false, qos: false });
    assert_eq!(data_subtype(0b1100), DataSubtype { data: false, ack: false, poll: false, qos: true });
    assert_eq!(data_subtype(0b1111), DataSubtype { data: false, ack: true, poll: true, qos: true });
}

#[test]
fn frame_type_codes() {
    assert_eq!(frametype(0, 0x0B), FrameType::Control(ControlSubtype::RTS));
    assert_eq!(frametype(1, 0x08), FrameType::Management(ManagementSubtype::Beacon));
    assert_eq!(frametype(2, 0x08), FrameType::Data(data_subtype(0x08)));
    assert_eq!(frametype(3, 0x00), FrameType::Extension(ExtensionSubtype::DMGBeacon));
}

#[test]
fn frame_control_bytes() {
    let fc = framecontrol(&[0x88, 0x41]).expect("decodes");
    assert!(qos(&fc));
    assert!(fc.to_ds && fc.protected_frame);
    assert!(!fc.from_ds && !fc.retry);
    assert_eq!(framecontrol(&[0x84, 0x00]).map(|c| qos(&c)), Ok(false));
    assert_eq!(framecontrol(&[0x02, 0x00]).err(), Some(DecodeError::UnsupportedVersion));
    assert_eq!(framecontrol(&[0x84]).err(), Some(DecodeError::Truncated(0)));
}

#[test]
fn sequence_control_bits() {
    let sc = sequencecontrol(&[0xAB, 0xCD]).expect("decodes");
    assert_eq!(sc.fragment, 0x0A);
    assert_eq!(sc.sequence, 0x0BCD);
    let sc = sequencecontrol(&[0x12, 0x34, 0xFF]).expect("decodes");
    assert_eq!(sc.fragment, 0x01);
    assert_eq!(sc.sequence, 0x0234);
    assert_eq!(sequencecontrol(&[0xAB]), Err(DecodeError::Truncated(0)));
    assert_eq!(sequencecontrol(&[]), Err(DecodeError::Truncated(0)));
}

#[test]
fn bit_cursor_reads_msb_first_across_bytes() {
    let data = [0b1010_0000u8, 0xFF];
    let mut c = BitCursor::new(&data);
    assert_eq!(c.take_bool(), Ok(true));
    assert_eq!(c.take_bool(), Ok(false));
    assert_eq!(c.take_bits(3), Ok(0b100));
    assert!(!c.is_byte_aligned());
    assert_eq!(c.take_bits(5), Ok(0b00011));
    assert_eq!(c.bit_position(), 10);
    assert_eq!(c.take_bits(7), Err(DecodeError::Truncated(1)));
    assert_eq!(c.bit_position(), 10);
    assert_eq!(c.take_bits(6), Ok(0b111111));
    assert!(c.is_byte_aligned());
    assert_eq!(c.take_bool(), Err(DecodeError::Truncated(2)));
}

#[test]
fn bit_cursor_reads_32_bits() {
    let data = [0xDE, 0xAD, 0xBE, 0xEF];
    let mut c = BitCursor::new(&data);
    assert_eq!(c.take_bits(32), Ok(0xDEAD_BEEF));
}

#[test]
fn big_endian_readers() {
    let data = [0x01, 0x02, 0x03, 0x04, 0x05];
    assert_eq!(read_be16(&data, 1), 0x0203);
    assert_eq!(read_be32(&data, 1), 0x0203_0405);
}

#[test]
fn header_lengths() {
    let control = framecontrol(&[0xB0, 0x00]).expect("decodes");
    assert_eq!(header_length(&control), 22);
    let data4 = framecontrol(&[0x08, 0x03]).expect("decodes");
    assert_eq!(header_length(&data4), 30);
    let qos_ht = framecontrol(&[0x88, 0x83]).expect("decodes");
    assert_eq!(header_length(&qos_ht), 36);
}

#[test]
fn mac_address_needs_six_bytes() {
    let m = mac_address(&[1, 2, 3, 4, 5, 6]).expect("six bytes");
    assert_eq!(m.as_bytes(), &[1u8, 2, 3, 4, 5, 6][..]);
    assert!(mac_address(&[1, 2, 3, 4, 5]).is_none());
    assert!(mac_address(&[]).is_none());
    let m = mac_address(&[9, 8, 7, 6, 5, 4, 3, 2]).expect("at least six bytes");
    assert_eq!(m.as_bytes(), &[9u8, 8, 7, 6, 5, 4][..]);
}

#[test]
fn address_roles_by_ds_flags() {
    let roles = |b1: u8| address_roles(&framecontrol(&[0x08, b1]).expect("decodes"));
    let r = roles(0);
    assert_eq!((r.address1, r.address2, r.address3, r.address4),
        (AddressRole::Destination, AddressRole::Source, AddressRole::Bssid, None));
    let r = roles(2);
    assert_eq!((r.address1, r.address2, r.address3, r.address4),
        (AddressRole::Destination, AddressRole::Bssid, AddressRole::Source, None));
    let r = roles(1);
    assert_eq!((r.address1, r.address2, r.address3, r.address4),
        (AddressRole::Bssid, AddressRole::Source, AddressRole::Destination, None));
    let r = roles(3);
    assert_eq!((r.address1, r.address2, r.address3, r.address4),
        (AddressRole::Receiver, AddressRole::Transmitter, AddressRole::Destination,
         Some(AddressRole::Source)));
}
