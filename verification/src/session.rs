//! One logical session with a connected badge. The session owns the
//! sequence counter for its whole lifetime and builds the frames of the
//! three request/response exchanges; the surrounding application writes
//! them over the transport, subscribes before each write, and feeds the
//! notifications back into the handlers and the bind exchange here. A
//! failed exchange leaves the session and its counter valid for the
//! next one.

use vstd::prelude::*;

use crate::badge::{badge_info_of, parse_badge_info, BadgeInfo};
use crate::bind::{bind_payload, bind_payload_spec, fingerprint_hash, fingerprint_units_spec,
    BindRequestInfo, BIND_REQUEST};
use crate::packet::{command_data, decode_failure, frame_spec, metadata_of,
    parse_command_data_response, ProtocolError, LENIENT_FRAME_LIMIT};
use crate::util::{jdk_hash_spec, Counter};

verus! {

/// Opcode of the badge-info request.
pub const BADGE_INFO_REQUEST: u8 = 0xC6;

/// Opcode of the badge-info response.
pub const BADGE_INFO_RESPONSE: u8 = 0xC7;

/// Opcode of the unbind request.
pub const UNBIND_REQUEST: u8 = 0x62;

/// Opcode of the unbind response.
pub const UNBIND_RESPONSE: u8 = 0xFF;

/// A connected session's protocol state: the counter whose low 4 bits
/// stamp every outbound frame.
pub struct CommandSession {
    pub packet_counter: Counter,
}

fn single_command(b: u8) -> (r: Vec<u8>)
    ensures
        r@ =~= seq![b],
{
    let mut allowed: Vec<u8> = Vec::new();
    allowed.push(b);
    allowed
}

impl CommandSession {
    pub open spec fn wf(self) -> bool {
        self.packet_counter.wf()
    }

    /// A fresh session: packet ids cycle through 0..16 starting at 0.
    pub fn new() -> (r: CommandSession)
        ensures
            r.wf(),
            r.packet_counter == (Counter { id: 0u8, start: 0u8, increment: 1u8, max: 16u8 }),
    {
        CommandSession { packet_counter: Counter::new(0, 1, 16) }
    }

    /// The frame asking the device for its badge information, payload
    /// `[1]`, stamped with the next packet id.
    pub fn build_device_info_request(&mut self) -> (r: Vec<u8>)
        requires
            old(self).wf(),
        ensures
            final(self).wf(),
            final(self).packet_counter == old(self).packet_counter.advanced(),
            r@ == frame_spec(old(self).packet_counter.id, BADGE_INFO_REQUEST, seq![1u8]),
    {
        let id = self.packet_counter.next();
        let payload = single_command(1);
        command_data(id, BADGE_INFO_REQUEST, payload.as_slice())
    }

    /// Decodes the single badge-info notification: the frame must carry
    /// the badge-info response opcode, must not itself request an
    /// acknowledgement, and its payload must hold a valid record.
    pub fn handle_device_info_notification(bytes: &[u8]) -> (r: Result<BadgeInfo, ProtocolError>)
        ensures
            ({
                let s = bytes@;
                match decode_failure(s, BADGE_INFO_RESPONSE, LENIENT_FRAME_LIMIT as int) {
                    Some(e) => r == Err::<BadgeInfo, ProtocolError>(e),
                    None => if metadata_of(s[2]).expect_response {
                        r == Err::<BadgeInfo, ProtocolError>(ProtocolError::UnhandledAckRequest)
                    } else {
                        let p = s.skip(6);
                        if p[0] != 1 {
                            r == Err::<BadgeInfo, ProtocolError>(ProtocolError::EmptyInfo)
                        } else if p.len() < 13 {
                            r == Err::<BadgeInfo, ProtocolError>(ProtocolError::Malformed)
                        } else {
                            r == Ok::<BadgeInfo, ProtocolError>(badge_info_of(p))
                        }
                    },
                }
            }),
    {
        let allowed = single_command(BADGE_INFO_RESPONSE);
        proof {
            assert(allowed@.contains(allowed@[0]));
        }
        match parse_command_data_response(bytes, Some(allowed.as_slice()), LENIENT_FRAME_LIMIT) {
            Err(e) => Err(e),
            Ok((metadata, _command, data)) => {
                if metadata.expect_response {
                    return Err(ProtocolError::UnhandledAckRequest);
                }
                parse_badge_info(data.as_slice())
            },
        }
    }

    /// The bind request frame: a 13-byte payload holding the locale
    /// byte and, twice over, the low 6 bytes of the identity hash of
    /// the fingerprint synthesized from the device property string
    /// lengths.
    pub fn build_bind_request(&mut self, info: BindRequestInfo, property_lengths: &[usize]) -> (r:
        Vec<u8>)
        requires
            old(self).wf(),
        ensures
            final(self).wf(),
            final(self).packet_counter == old(self).packet_counter.advanced(),
            r@ == frame_spec(
                old(self).packet_counter.id,
                BIND_REQUEST,
                bind_payload_spec(
                    info,
                    jdk_hash_spec(fingerprint_units_spec(property_lengths@)),
                ),
            ),
    {
        let hash = fingerprint_hash(property_lengths);
        let payload = bind_payload(info, hash);
        let id = self.packet_counter.next();
        command_data(id, BIND_REQUEST, payload.as_slice())
    }

    /// The unbind request frame as this encoder builds it, payload `[1]`.
    pub fn build_unbind_request(&mut self) -> (r: Vec<u8>)
        requires
            old(self).wf(),
        ensures
            final(self).wf(),
            final(self).packet_counter == old(self).packet_counter.advanced(),
            r@ == frame_spec(old(self).packet_counter.id, UNBIND_REQUEST, seq![1u8]),
    {
        let id = self.packet_counter.next();
        let payload = single_command(1);
        command_data(id, UNBIND_REQUEST, payload.as_slice())
    }

    /// Decodes the single unbind notification against the unbind
    /// response opcode.
    pub fn handle_unbind_notification(bytes: &[u8]) -> (r: Result<(), ProtocolError>)
        ensures
            ({
                let s = bytes@;
                match decode_failure(s, UNBIND_RESPONSE, LENIENT_FRAME_LIMIT as int) {
                    Some(e) => r == Err::<(), ProtocolError>(e),
                    None => if metadata_of(s[2]).expect_response {
                        r == Err::<(), ProtocolError>(ProtocolError::UnhandledAckRequest)
                    } else {
                        r == Ok::<(), ProtocolError>(())
                    },
                }
            }),
    {
        let allowed = single_command(UNBIND_RESPONSE);
        proof {
            assert(allowed@.contains(allowed@[0]));
        }
        match parse_command_data_response(bytes, Some(allowed.as_slice()), LENIENT_FRAME_LIMIT) {
            Err(e) => Err(e),
            Ok((metadata, _command, _data)) => {
                if metadata.expect_response {
                    return Err(ProtocolError::UnhandledAckRequest);
                }
                Ok(())
            },
        }
    }
}

/// The fixed byte sequence the vendor's app writes for the unbind
/// request, kept for compatibility with an observed firmware quirk. It
/// coincides with this encoder's output for packet id 4, which the
/// tests assert, but a caller must not assume the two always agree.
pub fn unbind_literal() -> (r: Vec<u8>)
    ensures
        r@ =~= seq![0x9Eu8, 0x86u8, 0x22u8, 0x62u8, 0x01u8, 0x00u8, 0x01u8],
{
    let mut bytes: Vec<u8> = Vec::new();
    bytes.push(0x9E);
    bytes.push(0x86);
    bytes.push(0x22);
    bytes.push(0x62);
    bytes.push(0x01);
    bytes.push(0x00);
    bytes.push(0x01);
    bytes
}

} // verus!
