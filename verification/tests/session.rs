use badge_protocol::badge::BadgeInfo;
use badge_protocol::bind::BindRequestInfo;
use badge_protocol::packet::{command_data, ProtocolError};
use badge_protocol::session::{unbind_literal, CommandSession};
use badge_protocol::util::checksum;

/// A hand-built inbound frame, as the device would send it.
fn device_frame(metadata: u8, command: u8, payload: &[u8]) -> Vec<u8> {
    let mut body = vec![
        metadata,
        command,
        (payload.len() & 0xFF) as u8,
        (payload.len() >> 8) as u8,
    ];
    body.extend_from_slice(payload);
    let mut frame = vec![0x9E, checksum(&body)];
    frame.extend_from_slice(&body);
    frame
}

#[test]
fn device_info_request_frame() {
    let mut session = CommandSession::new();
    let frame = session.build_device_info_request();
    assert_eq!(frame, vec![0x9E, 0xCA, 0x02, 0xC6, 0x01, 0x00, 0x01]);
    // The next exchange uses the next packet id.
    let frame = session.build_device_info_request();
    assert_eq!(frame[2], 0x0A);
}

#[test]
fn packet_ids_cycle_over_sixteen_requests() {
    let mut session = CommandSession::new();
    let frames: Vec<Vec<u8>> = (0..17).map(|_| session.build_device_info_request()).collect();
    for (i, frame) in frames.iter().enumerate().take(16) {
        assert_eq!(frame[2], ((i as u8) << 3) | 0x02);
    }
    // The 17th request reuses packet id 0.
    assert_eq!(frames[16], frames[0]);
}

#[test]
fn device_info_exchange_ok() {
    let payload = [
        1, 0x68, 0x01, 0x68, 0x01, 0x70, 0x01, 0x70, 0x01, 0x80, 0x0F, 0x00, 0x00,
    ];
    let response = device_frame(0x18, 0xC7, &payload);
    let info = CommandSession::handle_device_info_notification(&response).unwrap();
    assert_eq!(
        info,
        BadgeInfo {
            width: 0x0168,
            height: 0x0168,
            picture_width: 0x0170,
            picture_height: 0x0170,
            memory: 0x000F80,
        }
    );
}

#[test]
fn device_info_exchange_empty_record() {
    let payload = [0u8; 13];
    let response = device_frame(0x18, 0xC7, &payload);
    assert_eq!(
        CommandSession::handle_device_info_notification(&response),
        Err(ProtocolError::EmptyInfo)
    );
}

#[test]
fn device_info_exchange_wrong_command() {
    let response = device_frame(0x18, 0xC6, &[1u8; 13]);
    assert_eq!(
        CommandSession::handle_device_info_notification(&response),
        Err(ProtocolError::UnexpectedCommand)
    );
}

#[test]
fn device_info_exchange_surfaces_ack_request() {
    let response = device_frame(0x02, 0xC7, &[1u8; 13]);
    assert_eq!(
        CommandSession::handle_device_info_notification(&response),
        Err(ProtocolError::UnhandledAckRequest)
    );
}

#[test]
fn bind_request_frame() {
    let mut session = CommandSession::new();
    let lengths = [8usize, 8, 9, 9, 10, 7, 5, 7, 8, 10, 7, 7, 7];
    let frame = session.build_bind_request(BindRequestInfo::new(), &lengths);
    assert_eq!(frame.len(), 19);
    assert_eq!(frame[0], 0x9E);
    assert_eq!(frame[3], 0x60);
    // 13-byte payload, little-endian length field.
    assert_eq!(frame[4], 13);
    assert_eq!(frame[5], 0);
    // Locale byte, then the hash block twice over.
    assert_eq!(frame[6], 0b0000_0010);
    assert_eq!(frame[7..13], frame[13..19]);
}

#[test]
fn unbind_request_matches_firmware_literal() {
    // The vendor's app writes a fixed byte sequence for unbind; for
    // packet id 4 the encoder must produce exactly those bytes.
    assert_eq!(command_data(4, 0x62, &[1]), unbind_literal());
}

#[test]
fn unbind_exchange_ok() {
    let response = device_frame(0x20, 0xFF, &[1]);
    assert_eq!(
        CommandSession::handle_unbind_notification(&response),
        Ok(())
    );
}

#[test]
fn unbind_exchange_wrong_command() {
    let response = device_frame(0x20, 0x61, &[1]);
    assert_eq!(
        CommandSession::handle_unbind_notification(&response),
        Err(ProtocolError::UnexpectedCommand)
    );
}
