use h5_transport::transport::h5::{ControlPacketType, H5Packet, H5PacketType};
use h5_transport::Error;

fn frame_with_checksum(b0: u8, b1: u8, b2: u8, payload: &[u8], crc: &[u8]) -> Vec<u8> {
    let checksum = H5Packet::calc_header_checksum(&[b0, b1, b2]);
    let mut frame = vec![b0, b1, b2, checksum];
    frame.extend_from_slice(payload);
    frame.extend_from_slice(crc);
    frame
}

#[test]
fn h5_parse_valid_packet() {
    // seq 2, ack 5, reliable, no CRC; type 4 (HCI event); payload of 3 bytes.
    let b0: u8 = 2 | (5 << 3) | (1 << 7);
    let b1: u8 = 4 | (3 << 4);
    let frame = frame_with_checksum(b0, b1, 0x00, &[0xDE, 0xAD, 0xBE], &[]);

    let packet = H5Packet::new(&frame).unwrap();
    assert_eq!(packet.seq_number, 2);
    assert_eq!(packet.ack_number, 5);
    assert!(!packet.crc_present);
    assert!(packet.reliable_packet);
    assert_eq!(packet.packet_type, H5PacketType::HciEvent);
    assert_eq!(packet.payload_length, 3);
    assert_eq!(packet.payload, vec![0xDE, 0xAD, 0xBE]);
}

#[test]
fn h5_checksum_decides_alone() {
    // Over every possible fourth byte, exactly the computed checksum parses.
    let b0: u8 = 0x01;
    let b1: u8 = 0x05 | (2 << 4);
    let b2: u8 = 0x00;
    let good = H5Packet::calc_header_checksum(&[b0, b1, b2]);
    for byte3 in 0..=255u8 {
        let frame = vec![b0, b1, b2, byte3, 0x11, 0x22];
        let result = H5Packet::new(&frame);
        if byte3 == good {
            assert!(result.is_ok());
        } else {
            assert_eq!(result.unwrap_err(), Error::ChecksumError);
        }
    }
}

#[test]
fn h5_calc_header_checksum_values() {
    assert_eq!(H5Packet::calc_header_checksum(&[0, 0, 0]), 0);
    assert_eq!(H5Packet::calc_header_checksum(&[1, 2, 3]), 250);
    assert_eq!(H5Packet::calc_header_checksum(&[0xFF, 0xFF, 0xFF]), 3);
    assert_eq!(H5Packet::calc_header_checksum(&[0xAA, 0x34, 0x00]), 0x22);
    // The checksum plus the header sum is always 0 modulo 256.
    let header = [0x7B, 0x13, 0xC8];
    let checksum = H5Packet::calc_header_checksum(&header);
    let sum = header.iter().map(|b| *b as u32).sum::<u32>() + checksum as u32;
    assert_eq!(sum % 256, 0);
}

#[test]
fn h5_short_frames_rejected() {
    for len in 0..4usize {
        let frame = vec![0u8; len];
        assert_eq!(H5Packet::new(&frame).unwrap_err(), Error::ShortFrameError);
    }
}

#[test]
fn h5_length_mismatch_rejected() {
    // Header declares 3 payload bytes but 2 follow.
    let b0: u8 = 0x00;
    let b1: u8 = 3 << 4;
    let frame = frame_with_checksum(b0, b1, 0x00, &[0x01, 0x02], &[]);
    assert_eq!(H5Packet::new(&frame).unwrap_err(), Error::FrameLengthError);

    // Header declares 1 payload byte but 2 follow.
    let b1: u8 = 1 << 4;
    let frame = frame_with_checksum(b0, b1, 0x00, &[0x01, 0x02], &[]);
    assert_eq!(H5Packet::new(&frame).unwrap_err(), Error::FrameLengthError);
}

#[test]
fn h5_crc_flag_takes_two_trailing_bytes() {
    // CRC-present: total length must be 4 + payload + 2.
    let b0: u8 = 1 << 6;
    let b1: u8 = 2 | (1 << 4);
    let with_crc = frame_with_checksum(b0, b1, 0x00, &[0x99], &[0xCA, 0xFE]);
    let packet = H5Packet::new(&with_crc).unwrap();
    assert!(packet.crc_present);
    assert!(!packet.reliable_packet);
    // The trailing CRC bytes are not part of the payload.
    assert_eq!(packet.payload, vec![0x99]);

    // The same frame without the two trailing bytes is inconsistent.
    let without_crc = frame_with_checksum(b0, b1, 0x00, &[0x99], &[]);
    assert_eq!(H5Packet::new(&without_crc).unwrap_err(), Error::FrameLengthError);
}

#[test]
fn h5_twelve_bit_payload_length() {
    // Low nibble 1 from byte 1, high byte 2 from byte 2: 1 + 2 * 16 = 33.
    let b0: u8 = 0x00;
    let b1: u8 = 0 | (1 << 4);
    let payload = vec![0xABu8; 33];
    let frame = frame_with_checksum(b0, b1, 0x02, &payload, &[]);
    let packet = H5Packet::new(&frame).unwrap();
    assert_eq!(packet.payload_length, 33);
    assert_eq!(packet.payload, payload);
}

#[test]
fn h5_packet_type_classification_total() {
    let expected = [
        H5PacketType::Ack,
        H5PacketType::HciCommand,
        H5PacketType::AclData,
        H5PacketType::SyncData,
        H5PacketType::HciEvent,
        H5PacketType::Reset,
        H5PacketType::Unknown(6),
        H5PacketType::Unknown(7),
        H5PacketType::Unknown(8),
        H5PacketType::Unknown(9),
        H5PacketType::Unknown(10),
        H5PacketType::Unknown(11),
        H5PacketType::Unknown(12),
        H5PacketType::Unknown(13),
        H5PacketType::VendorSpecific,
        H5PacketType::LinkControl,
    ];
    for code in 0..16u8 {
        assert_eq!(H5PacketType::from(code), expected[code as usize]);
    }
}

#[test]
fn control_packet_type_classification() {
    assert_eq!(ControlPacketType::from(0), ControlPacketType::Reset);
    assert_eq!(ControlPacketType::from(1), ControlPacketType::Ack);
    assert_eq!(ControlPacketType::from(2), ControlPacketType::Sync);
    assert_eq!(ControlPacketType::from(3), ControlPacketType::SyncResponse);
    assert_eq!(ControlPacketType::from(4), ControlPacketType::SyncConfig);
    assert_eq!(ControlPacketType::from(5), ControlPacketType::SyncConfigResponse);
    assert_eq!(ControlPacketType::from(10), ControlPacketType::Last);
    assert_eq!(ControlPacketType::from(6), ControlPacketType::Unknown(6));
    assert_eq!(ControlPacketType::from(0xFF), ControlPacketType::Unknown(0xFF));
}
