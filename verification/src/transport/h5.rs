//! The H5 (three-wire UART) link-layer packet format: a four-byte bit-packed
//! header carrying sequencing, acknowledgement and packet-type metadata,
//! followed by the payload and an optional two-byte trailing CRC.
//!
//! Header layout, where byte 0 is the first byte after SLIP unescaping:
//! byte 0 holds the sequence number (bits 0-2), the acknowledgement number
//! (bits 3-5), the CRC-present flag (bit 6) and the reliable-packet flag
//! (bit 7); byte 1 holds the packet-type code (bits 0-3) and the low nibble
//! of the payload length (bits 4-7); byte 2 is the high byte of the twelve
//! bit payload length; byte 3 is the header checksum.

use vstd::prelude::*;
use crate::Error;

verus! {

/// Number of bytes in the bit-packed header.
pub const H5_HEADER_LENGTH: usize = 4;

pub const SEQ_NUMBER_MASK: u8 = 0x07;
pub const ACK_NUMBER_MASK: u8 = 0x07;
pub const ACK_NUMBER_POS: u8 = 3;
pub const CRC_PRESENT_MASK: u8 = 0x01;
pub const CRC_PRESENT_POS: u8 = 6;
pub const RELIABLE_PACKET_MASK: u8 = 0x01;
pub const RELIABLE_PACKET_POS: u8 = 7;

pub const PACKET_TYPE_MASK: u8 = 0x0F;
pub const PAYLOAD_LENGTH_FIRST_NIBBLE_MASK: u8 = 0x0F;
pub const PAYLOAD_LENGTH_OFFSET: u8 = 4;

/// The closed set of packet categories carried in the packet-type field.
/// Codes outside the named set are kept, not rejected: classification is
/// total and never fails.
#[derive(Debug, Clone, Copy, PartialEq, Eq, Structural)]
pub enum H5PacketType {
    Ack,
    HciCommand,
    AclData,
    SyncData,
    HciEvent,
    Reset,
    VendorSpecific,
    LinkControl,
    Unknown(u8),
}

/// The packet category that a packet-type code stands for: code 0 is an
/// acknowledgement, 1 an HCI command, 2 ACL data, 3 synchronous data, 4 an
/// HCI event, 5 a reset, 14 vendor specific, 15 link control, and every
/// other code keeps its value as `Unknown`.
pub open spec fn spec_packet_type(code: u8) -> H5PacketType {
    match code {
        0u8 => H5PacketType::Ack,
        1u8 => H5PacketType::HciCommand,
        2u8 => H5PacketType::AclData,
        3u8 => H5PacketType::SyncData,
        4u8 => H5PacketType::HciEvent,
        5u8 => H5PacketType::Reset,
        14u8 => H5PacketType::VendorSpecific,
        15u8 => H5PacketType::LinkControl,
        _ => H5PacketType::Unknown(code),
    }
}

impl From<u8> for H5PacketType {
    /// Total classification of a packet-type code: every byte yields a
    /// defined variant, never an error.
    fn from(orig: u8) -> (r: Self) {
        match orig {
            0 => H5PacketType::Ack,
            1 => H5PacketType::HciCommand,
            2 => H5PacketType::AclData,
            3 => H5PacketType::SyncData,
            4 => H5PacketType::HciEvent,
            5 => H5PacketType::Reset,
            14 => H5PacketType::VendorSpecific,
            15 => H5PacketType::LinkControl,
            _ => H5PacketType::Unknown(orig),
        }
    }
}

impl vstd::std_specs::convert::FromSpecImpl<u8> for H5PacketType {
    open spec fn obeys_from_spec() -> bool {
        true
    }

    open spec fn from_spec(orig: u8) -> Self {
        spec_packet_type(orig)
    }
}

/// The sub-classification of a link-control packet, read from the first
/// payload byte. As with the packet type, unlisted codes are kept as
/// `Unknown`, never rejected.
#[derive(Debug, Clone, Copy, PartialEq, Eq, Structural)]
pub enum ControlPacketType {
    Reset,
    Ack,
    Sync,
    SyncResponse,
    SyncConfig,
    SyncConfigResponse,
    Last,
    Unknown(u8),
}

/// The control-packet category that a code stands for: 0 reset, 1
/// acknowledgement, 2 sync, 3 sync response, 4 sync config, 5 sync config
/// response, 10 last; every other code keeps its value as `Unknown`.
pub open spec fn spec_control_packet_type(code: u8) -> ControlPacketType {
    match code {
        0u8 => ControlPacketType::Reset,
        1u8 => ControlPacketType::Ack,
        2u8 => ControlPacketType::Sync,
        3u8 => ControlPacketType::SyncResponse,
        4u8 => ControlPacketType::SyncConfig,
        5u8 => ControlPacketType::SyncConfigResponse,
        10u8 => ControlPacketType::Last,
        _ => ControlPacketType::Unknown(code),
    }
}

impl From<u8> for ControlPacketType {
    /// Total classification of a link-control code: every byte yields a
    /// defined variant, never an error.
    fn from(orig: u8) -> (r: Self) {
        match orig {
            0 => ControlPacketType::Reset,
            1 => ControlPacketType::Ack,
            2 => ControlPacketType::Sync,
            3 => ControlPacketType::SyncResponse,
            4 => ControlPacketType::SyncConfig,
            5 => ControlPacketType::SyncConfigResponse,
            10 => ControlPacketType::Last,
            _ => ControlPacketType::Unknown(orig),
        }
    }
}

impl vstd::std_specs::convert::FromSpecImpl<u8> for ControlPacketType {
    open spec fn obeys_from_spec() -> bool {
        true
    }

    open spec fn from_spec(orig: u8) -> Self {
        spec_control_packet_type(orig)
    }
}

/// The states of the intended link-establishment handshake. The taxonomy is
/// part of the wire protocol; the retry and timeout policy around it belongs
/// to the caller.
#[derive(Debug, Clone, Copy, PartialEq, Eq, Structural)]
pub enum H5State {
    Start,
    Reset,
    Uninitialized,
    Initialized,
    Active,
    Failed,
    Closed,
    NoResponse,
    Unknown,
}

/// The sequence number of header byte 0: bits 0-2.
pub open spec fn spec_seq_number(b0: u8) -> u8 {
    b0 & SEQ_NUMBER_MASK
}

/// The acknowledgement number of header byte 0: bits 3-5.
pub open spec fn spec_ack_number(b0: u8) -> u8 {
    (b0 >> ACK_NUMBER_POS) & ACK_NUMBER_MASK
}

/// The CRC-present flag of header byte 0: bit 6.
pub open spec fn spec_crc_present(b0: u8) -> bool {
    (b0 >> CRC_PRESENT_POS) & CRC_PRESENT_MASK == CRC_PRESENT_MASK
}

/// The reliable-packet flag of header byte 0: bit 7.
pub open spec fn spec_reliable_packet(b0: u8) -> bool {
    (b0 >> RELIABLE_PACKET_POS) & RELIABLE_PACKET_MASK == RELIABLE_PACKET_MASK
}

/// The twelve-bit payload length: the high nibble of header byte 1 is its
/// low nibble, header byte 2 its high byte.
pub open spec fn spec_payload_length(b1: u8, b2: u8) -> int {
    ((b1 >> PAYLOAD_LENGTH_OFFSET) as int) + (b2 as int) * 16
}

/// The header checksum owed to the first three header bytes: the two's
/// complement of their sum modulo 256.
pub open spec fn spec_header_checksum(b0: u8, b1: u8, b2: u8) -> u8 {
    (((256 - ((b0 as int + b1 as int + b2 as int) % 256)) % 256) as u8)
}

/// The total length a frame must have for its header: the four header
/// bytes, the declared payload, and two trailing CRC bytes when the
/// CRC-present flag is set.
pub open spec fn spec_expected_frame_length(b0: u8, b1: u8, b2: u8) -> int {
    4 + spec_payload_length(b1, b2) + if spec_crc_present(b0) { 2int } else { 0int }
}

/// The mathematical model of a parsed packet.
pub ghost struct H5PacketView {
    pub seq_number: u8,
    pub ack_number: u8,
    pub crc_present: bool,
    pub reliable_packet: bool,
    pub packet_type: H5PacketType,
    pub payload_length: int,
    pub header_checksum: u8,
    pub payload: Seq<u8>,
}

impl H5PacketView {
    /// The invariants of a well-formed packet: three-bit sequence and
    /// acknowledgement numbers, and a payload of exactly the declared
    /// twelve-bit length.
    pub open spec fn wf(self) -> bool {
        &&& self.seq_number < 8
        &&& self.ack_number < 8
        &&& 0 <= self.payload_length <= 4095
        &&& self.payload.len() == self.payload_length
    }
}

/// What parsing an unescaped frame yields. A frame under four bytes has no
/// header and is rejected as short; one whose length disagrees with the
/// declared payload length is rejected as inconsistent; one whose fourth
/// byte is not the checksum owed to the first three is rejected as corrupt.
/// Any other frame parses, and no frame is partially accepted.
pub open spec fn spec_parse(d: Seq<u8>) -> Result<H5PacketView, Error> {
    if d.len() < 4 {
        Err(Error::ShortFrameError)
    } else if d.len() != spec_expected_frame_length(d[0], d[1], d[2]) {
        Err(Error::FrameLengthError)
    } else if d[3] != spec_header_checksum(d[0], d[1], d[2]) {
        Err(Error::ChecksumError)
    } else {
        Ok(H5PacketView {
            seq_number: spec_seq_number(d[0]),
            ack_number: spec_ack_number(d[0]),
            crc_present: spec_crc_present(d[0]),
            reliable_packet: spec_reliable_packet(d[0]),
            packet_type: spec_packet_type(d[1] & PACKET_TYPE_MASK),
            payload_length: spec_payload_length(d[1], d[2]),
            header_checksum: d[3],
            payload: d.subrange(4, 4 + spec_payload_length(d[1], d[2])),
        })
    }
}

/// Every packet that parses is well formed.
pub proof fn lemma_parsed_packet_wf(d: Seq<u8>)
    ensures
        spec_parse(d) matches Ok(v) ==> v.wf(),
{
    if spec_parse(d) is Ok {
        let b0 = d[0];
        let b1 = d[1];
        let b2 = d[2];
        assert(b0 & SEQ_NUMBER_MASK < 8) by (bit_vector);
        assert((b0 >> ACK_NUMBER_POS) & ACK_NUMBER_MASK < 8) by (bit_vector);
        assert(b1 >> PAYLOAD_LENGTH_OFFSET < 16) by (bit_vector);
    }
}

/// For a frame whose length agrees with its header, the fourth byte alone
/// decides: parsing succeeds exactly when it equals the checksum owed to
/// the first three bytes, and every other value is rejected as a checksum
/// mismatch.
pub proof fn lemma_checksum_decides(d: Seq<u8>)
    requires
        d.len() >= 4,
        d.len() == spec_expected_frame_length(d[0], d[1], d[2]),
    ensures
        spec_parse(d) is Ok <==> d[3] == spec_header_checksum(d[0], d[1], d[2]),
        d[3] != spec_header_checksum(d[0], d[1], d[2])
            ==> spec_parse(d) == Err::<H5PacketView, Error>(Error::ChecksumError),
{
}

/// A frame under four bytes is rejected as short, and one whose total
/// length is not the four header bytes plus the declared payload (plus two
/// CRC bytes when announced) is rejected as inconsistent, whatever its
/// other bytes hold.
pub proof fn lemma_bad_length_rejected(d: Seq<u8>)
    ensures
        d.len() < 4 ==> spec_parse(d) == Err::<H5PacketView, Error>(Error::ShortFrameError),
        d.len() >= 4 && d.len() != spec_expected_frame_length(d[0], d[1], d[2])
            ==> spec_parse(d) == Err::<H5PacketView, Error>(Error::FrameLengthError),
{
}

/// A parsed H5 packet: the header fields unpacked, and the payload copied
/// out of the frame.
#[derive(Debug, Clone)]
pub struct H5Packet {
    pub seq_number: u8,
    pub ack_number: u8,
    pub crc_present: bool,
    pub reliable_packet: bool,
    pub packet_type: H5PacketType,
    pub payload_length: usize,
    pub header_checksum: u8,
    pub payload: Vec<u8>,
}

impl View for H5Packet {
    type V = H5PacketView;

    open spec fn view(&self) -> H5PacketView {
        H5PacketView {
            seq_number: self.seq_number,
            ack_number: self.ack_number,
            crc_present: self.crc_present,
            reliable_packet: self.reliable_packet,
            packet_type: self.packet_type,
            payload_length: self.payload_length as int,
            header_checksum: self.header_checksum,
            payload: self.payload@,
        }
    }
}

impl H5Packet {
    /// Parses an unescaped frame, exactly as [`spec_parse`] says: short
    /// frames, length mismatches and checksum mismatches are rejected with
    /// their own errors, everything else parses. Trailing CRC bytes, when
    /// the flag announces them, are left unvalidated.
    pub fn new(data: &[u8]) -> (r: Result<H5Packet, Error>)
        ensures
            match r {
                Ok(p) => spec_parse(data@) == Ok::<H5PacketView, Error>(p@),
                Err(e) => spec_parse(data@) == Err::<H5PacketView, Error>(e),
            },
    {
        if data.len() < H5_HEADER_LENGTH {
            return Err(Error::ShortFrameError);
        }

        let b0 = data[0];
        let b1 = data[1];
        let b2 = data[2];
        let header_checksum = data[3];

        let nibble: u8 = (b1 >> PAYLOAD_LENGTH_OFFSET) & PAYLOAD_LENGTH_FIRST_NIBBLE_MASK;
        let payload_length_16: u16 = (nibble as u16) | ((b2 as u16) << 4);
        proof {
            assert((b1 >> 4) & 0x0F == b1 >> 4) by (bit_vector);
            assert(((((b1 >> 4) & 0x0F) as u16) | ((b2 as u16) << 4))
                == (((b1 >> 4) & 0x0F) as u16) + (b2 as u16) * 16) by (bit_vector);
            assert(b1 >> 4 < 16) by (bit_vector);
        }
        let payload_length = payload_length_16 as usize;
        assert(payload_length == spec_payload_length(b1, b2));

        let crc_present = (b0 >> CRC_PRESENT_POS) & CRC_PRESENT_MASK == CRC_PRESENT_MASK;
        let expected_length: usize =
            H5_HEADER_LENGTH + payload_length + if crc_present { 2 } else { 0 };

        if data.len() != expected_length {
            return Err(Error::FrameLengthError);
        }

        let calculated_header_checksum = Self::calc_header_checksum(data);
        if calculated_header_checksum != header_checksum {
            return Err(Error::ChecksumError);
        }

        let end: usize = H5_HEADER_LENGTH + payload_length;
        let mut payload: Vec<u8> = Vec::new();
        let mut index: usize = H5_HEADER_LENGTH;
        while index < end
            invariant
                4 <= index <= end,
                end <= data@.len(),
                payload@ == data@.subrange(4, index as int),
            decreases end - index,
        {
            payload.push(data[index]);
            proof {
                assert(payload@ =~= data@.subrange(4, index + 1));
            }
            index = index + 1;
        }
        assert(payload@ == data@.subrange(4, 4 + spec_payload_length(b1, b2)));

        let packet = H5Packet {
            seq_number: b0 & SEQ_NUMBER_MASK,
            ack_number: (b0 >> ACK_NUMBER_POS) & ACK_NUMBER_MASK,
            crc_present,
            reliable_packet: (b0 >> RELIABLE_PACKET_POS) & RELIABLE_PACKET_MASK
                == RELIABLE_PACKET_MASK,
            packet_type: H5PacketType::from(b1 & PACKET_TYPE_MASK),
            payload_length,
            header_checksum,
            payload,
        };
        Ok(packet)
    }

    /// The checksum owed to a header: the two's complement of the sum of
    /// its first three bytes, modulo 256.
    pub fn calc_header_checksum(header: &[u8]) -> (r: u8)
        requires
            header@.len() >= 3,
        ensures
            r == spec_header_checksum(header@[0], header@[1], header@[2]),
    {
        let sum: u16 = header[0] as u16 + header[1] as u16 + header[2] as u16;
        let checksum: u16 = (256 - (sum % 256)) % 256;
        checksum as u8
    }
}

} // verus!
