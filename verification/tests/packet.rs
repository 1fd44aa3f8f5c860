use badge_protocol::packet::{
    command_data, parse_command_data_response, PacketMetadata, ProtocolError,
};

#[test]
fn test_packet_metadata() {
    let metadata = PacketMetadata::new()
        .with_packet_id(12)
        .with_flag1(false)
        .with_length_more_than_20(false)
        .with_expect_response(true)
        .with_flag4(false)
        .into_bits();
    assert_eq!(metadata, 0x62)
}

#[test]
fn packet_metadata_round_trip() {
    let metadata = PacketMetadata::new()
        .with_packet_id(12)
        .with_expect_response(true);
    let decoded = PacketMetadata::from_bits(metadata.into_bits());
    assert_eq!(decoded, metadata);

    let decoded = PacketMetadata::from_bits(0x62);
    assert_eq!(decoded.packet_id, 12);
    assert!(!decoded.flag1);
    assert!(!decoded.length_more_than_20);
    assert!(decoded.expect_response);
    assert!(!decoded.flag4);
}

#[test]
fn encode_known_frame() {
    // The badge-info request with packet id 12, as captured on the wire.
    let frame = command_data(12, 0xC6, &[1]);
    assert_eq!(frame, vec![0x9E, 0x2A, 0x62, 0xC6, 0x01, 0x00, 0x01]);
}

#[test]
fn encode_sets_long_flag() {
    let payload = [0u8; 15];
    let frame = command_data(0, 0x10, &payload);
    assert_eq!(frame.len(), 21);
    let metadata = PacketMetadata::from_bits(frame[2]);
    assert!(metadata.length_more_than_20);

    let frame = command_data(0, 0x10, &payload[..14]);
    assert_eq!(frame.len(), 20);
    let metadata = PacketMetadata::from_bits(frame[2]);
    assert!(!metadata.length_more_than_20);
}

#[test]
fn frame_round_trip() {
    for len in 1..=250usize {
        let payload: Vec<u8> = (0..len).map(|i| (i * 7 + len) as u8).collect();
        let command = (len * 3) as u8;
        let frame = command_data((len % 16) as u8, command, payload.as_slice());
        assert_eq!(frame.len(), payload.len() + 6);
        let (metadata, decoded_command, decoded_payload) =
            parse_command_data_response(frame.as_slice(), None, 20)
                .expect("an encoded frame must decode");
        assert_eq!(decoded_command, command);
        assert_eq!(decoded_payload, payload);
        assert_eq!(metadata.packet_id, (len % 16) as u8);
        assert!(metadata.expect_response);
    }
}

#[test]
fn decode_rejects_short_frames() {
    assert_eq!(
        parse_command_data_response(&[], None, 20),
        Err(ProtocolError::Malformed)
    );
    assert_eq!(
        parse_command_data_response(&[0x9E, 0x00, 0x00, 0x00, 0x00, 0x00], None, 20),
        Err(ProtocolError::Malformed)
    );
}

#[test]
fn decode_checks_allow_list() {
    let frame = command_data(1, 0xC6, &[1]);
    assert_eq!(
        parse_command_data_response(frame.as_slice(), Some(&[0xC7]), 20),
        Err(ProtocolError::UnexpectedCommand)
    );
    let (_, command, _) =
        parse_command_data_response(frame.as_slice(), Some(&[0xC6, 0xC7]), 20).unwrap();
    assert_eq!(command, 0xC6);
}

#[test]
fn decode_tolerates_mismatch_below_limit() {
    // A 7-byte frame with a corrupted checksum byte still decodes.
    let mut frame = command_data(2, 0x10, &[9]);
    frame[1] = frame[1].wrapping_add(1);
    let (_, command, payload) =
        parse_command_data_response(frame.as_slice(), None, 20).unwrap();
    assert_eq!(command, 0x10);
    assert_eq!(payload, vec![9]);
}

#[test]
fn decode_rejects_checksum_mismatch_above_limit() {
    let payload = [7u8; 20];
    let mut frame = command_data(2, 0x10, &payload);
    assert!(frame.len() > 20);
    frame[1] = frame[1].wrapping_add(1);
    assert_eq!(
        parse_command_data_response(frame.as_slice(), None, 20),
        Err(ProtocolError::ChecksumMismatch)
    );
}

#[test]
fn decode_rejects_length_mismatch_above_limit() {
    let payload = [7u8; 20];
    let mut frame = command_data(2, 0x10, &payload);
    frame[4] = frame[4].wrapping_add(1);
    assert_eq!(
        parse_command_data_response(frame.as_slice(), None, 20),
        Err(ProtocolError::LengthMismatch)
    );
}

#[test]
fn decode_strictness_is_configurable() {
    // The same corrupted 7-byte frame: tolerated under the default
    // 20-byte bound, refused when the caller lowers the bound.
    let mut frame = command_data(2, 0x10, &[9]);
    frame[1] = frame[1].wrapping_add(1);
    assert!(parse_command_data_response(frame.as_slice(), None, 20).is_ok());
    assert_eq!(
        parse_command_data_response(frame.as_slice(), None, 6),
        Err(ProtocolError::ChecksumMismatch)
    );
}
