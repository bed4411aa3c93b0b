use bytes::BytesMut;
use ds::proto::udp::inbound::types::{Status, Trace, Voltage};
use ds::proto::udp::inbound::UdpResponsePacket;
use ds::proto::DecodeError;

fn decode(bytes: &[u8]) -> Result<UdpResponsePacket, DecodeError> {
    let mut buf = BytesMut::from(bytes);
    UdpResponsePacket::decode(&mut buf)
}

/// Decodes `bytes` and gives how many of them were taken off the buffer.
fn taken(bytes: &[u8]) -> usize {
    let mut buf = BytesMut::from(bytes);
    let _ = UdpResponsePacket::decode(&mut buf);
    assert_eq!(&buf[..], &bytes[bytes.len() - buf.len()..]);
    bytes.len() - buf.len()
}

fn encode(packet: &UdpResponsePacket) -> Vec<u8> {
    vec![
        (packet.seqnum >> 8) as u8,
        packet.seqnum as u8,
        0x01,
        packet.status.0,
        packet.trace.0,
        packet.battery.whole,
        packet.battery.fraction,
        packet.need_date as u8,
    ]
}

#[test]
fn decodes_the_fixed_part() {
    let bytes = [0x12, 0x34, 0x01, 0x8c, 0x31, 12, 95, 1];
    let packet = decode(&bytes).unwrap();
    assert_eq!(packet.seqnum, 0x1234);
    assert_eq!(packet.status, Status(0x8c));
    assert_eq!(packet.trace, Trace(0x31));
    assert_eq!(packet.battery, Voltage { whole: 12, fraction: 95 });
    assert!(packet.need_date);
}

#[test]
fn need_date_is_set_by_one_only() {
    for byte in 0..=255u8 {
        let bytes = [0, 0, 1, 0, 0, 0, 0, byte];
        let packet = decode(&bytes).unwrap();
        assert_eq!(packet.need_date, byte == 1);
    }
}

#[test]
fn version_byte_is_not_looked_at() {
    for version in [0u8, 1, 2, 255] {
        let bytes = [0, 9, version, 4, 2, 11, 128, 0];
        let packet = decode(&bytes).unwrap();
        assert_eq!(packet.seqnum, 9);
        assert_eq!(packet.battery.raw(), 11 * 256 + 128);
    }
}

#[test]
fn round_trip_of_every_flag_byte() {
    let batteries = [(0u8, 0u8), (6, 102), (12, 95), (255, 255)];
    for flags in 0..=255u8 {
        for &(whole, fraction) in batteries.iter() {
            for need_date in [false, true] {
                let packet = UdpResponsePacket {
                    seqnum: 0xabcd ^ (flags as u16) << 4,
                    status: Status(flags),
                    trace: Trace(!flags),
                    battery: Voltage { whole, fraction },
                    need_date,
                };
                assert_eq!(decode(&encode(&packet)), Ok(packet));
            }
        }
    }
}

#[test]
fn truncated_header_is_an_error() {
    let bytes = [0x12, 0x34, 0x01, 0x00, 0x00, 12, 95, 0];
    for len in 0..8 {
        assert_eq!(decode(&bytes[..len]), Err(DecodeError::TruncatedHeader));
    }
    assert!(decode(&bytes).is_ok());
}

#[test]
fn known_tags_are_skipped() {
    let lengths =
        [(0x01u8, 8usize), (0x04, 4), (0x05, 20), (0x06, 8), (0x08, 25), (0x09, 9), (0x0e, 14)];
    let mut bytes = vec![0, 1, 1, 0, 0, 12, 0, 0];
    for &(id, len) in lengths.iter() {
        bytes.push(id);
        bytes.extend(std::iter::repeat(0xee).take(len));
    }
    let packet = decode(&bytes).unwrap();
    assert_eq!(packet.seqnum, 1);
    for &(id, len) in lengths.iter() {
        let mut one = vec![0, 1, 1, 0, 0, 12, 0, 0, id];
        one.extend(std::iter::repeat(0).take(len));
        assert!(decode(&one).is_ok());
        one.pop();
        assert_eq!(decode(&one), Err(DecodeError::TruncatedTag));
    }
}

#[test]
fn known_tag_without_payload_is_an_error() {
    let bytes = [0, 1, 1, 0, 0, 12, 0, 0, 0x04];
    assert_eq!(decode(&bytes), Err(DecodeError::TruncatedTag));
}

#[test]
fn unknown_tag_ends_the_walk() {
    // After the unknown id 0x7f comes what would be a truncated known tag.
    let bytes = [0, 1, 1, 0, 0, 12, 0, 0, 0x7f, 0x05, 1, 2];
    assert!(decode(&bytes).is_ok());
    // A known tag in front of it is still walked.
    let mut bytes = vec![0, 1, 1, 0, 0, 12, 0, 0, 0x04, 0, 0, 0, 0, 0x02, 0x08];
    assert!(decode(&bytes).is_ok());
    bytes[13] = 0x08;
    assert_eq!(decode(&bytes), Err(DecodeError::TruncatedTag));
}

#[test]
fn decoding_takes_what_it_read_off_the_buffer() {
    let header = [0, 1, 1, 0, 0, 12, 0, 0];
    assert_eq!(taken(&header), 8);
    // Known tags are taken whole.
    let mut bytes = header.to_vec();
    bytes.extend_from_slice(&[0x04, 1, 2, 3, 4]);
    assert_eq!(taken(&bytes), 13);
    bytes.extend_from_slice(&[0x06, 1, 2, 3, 4, 5, 6, 7, 8]);
    assert_eq!(taken(&bytes), 22);
    // Of an unknown tag the id is taken, and what follows it stays.
    bytes.extend_from_slice(&[0x7f, 0xaa, 0xbb]);
    assert_eq!(taken(&bytes), 23);
    let mut unknown_first = header.to_vec();
    unknown_first.extend_from_slice(&[0x02, 0x04, 0, 0, 0, 0]);
    assert_eq!(taken(&unknown_first), 9);
}

#[test]
fn failed_decoding_leaves_the_buffer_as_it_was() {
    assert_eq!(taken(&[]), 0);
    assert_eq!(taken(&[1, 2, 3, 4, 5, 6, 7]), 0);
    assert_eq!(taken(&[0, 1, 1, 0, 0, 12, 0, 0, 0x05, 1, 2, 3]), 0);
    assert_eq!(taken(&[0, 1, 1, 0, 0, 12, 0, 0, 0x04, 1, 2, 3, 4, 0x01]), 0);
}

#[test]
fn status_flags() {
    assert!(Status(0x80).emergency_stopped());
    assert!(!Status(0x7f).emergency_stopped());
    assert!(Status(0x10).is_browning_out());
    assert!(!Status(0xef).is_browning_out());
    assert!(Status(0x0c).contains(Status::CODE_START));
    assert!(Status(0x0c).contains(Status::ENABLED));
    assert_eq!(Status(0x42).bits(), 0x42);
}

#[test]
fn trace_flags() {
    assert!(Trace(0x20).is_code_started());
    assert!(Trace(0x10).is_connected());
    assert!(Trace(0x08).is_test());
    assert!(Trace(0x04).is_autonomous());
    assert!(Trace(0x02).is_teleop());
    assert!(Trace(0x01).is_disabled());
    let none = Trace::empty();
    assert_eq!(none.bits(), 0);
    assert!(!none.is_code_started());
    assert!(!none.is_connected());
    assert!(!none.is_test());
    assert!(!none.is_autonomous());
    assert!(!none.is_teleop());
    assert!(!none.is_disabled());
    assert!(Trace(0xc0).contains(0x40));
}

#[test]
fn voltage_in_256ths() {
    assert_eq!(Voltage::zero().raw(), 0);
    assert_eq!(Voltage { whole: 12, fraction: 95 }.raw(), 3167);
    assert_eq!(Voltage { whole: 255, fraction: 255 }.raw(), 65535);
    let volts = f32::from(12u8) + f32::from(95u8) / 256f32;
    assert!((volts - 12.37).abs() < 0.002);
}
