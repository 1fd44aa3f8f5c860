//! The bind handshake: the bit-packed locale byte, the synthesized
//! device fingerprint whose hash identifies this controller, the
//! 13-byte bind payload, and the state machine that consumes the
//! variable-length response sequence.

use vstd::prelude::*;

use crate::packet::{
    decode_failure, metadata_of, parse_command_data_response, ProtocolError, LENIENT_FRAME_LIMIT,
};
use crate::util::jdk_hash_spec;

verus! {

/// Opcode of the bind request.
pub const BIND_REQUEST: u8 = 0x60;

/// Opcode of the bind acknowledgement packets.
pub const BIND_RESPONSE: u8 = 0x61;

/// The first byte of the bind payload, most-significant bit first:
/// `[unknown1:5][is_using_12_hour_format:1][is_not_using_zh_locale:1][unknown2:1]`.
/// The unknown fields have no assigned meaning and default to zero.
#[derive(Clone, Copy, Debug, PartialEq, Eq, Structural)]
pub struct BindRequestInfo {
    pub unknown1: u8,
    pub is_using_12_hour_format: bool,
    pub is_not_using_zh_locale: bool,
    pub unknown2: u8,
}

impl BindRequestInfo {
    /// The unknown fields fit their 5-bit and 1-bit slots.
    pub open spec fn wf(self) -> bool {
        self.unknown1 < 32 && self.unknown2 < 2
    }

    /// The packed byte, most-significant bit first.
    pub open spec fn bits_spec(self) -> u8 {
        ((self.unknown1 & 0x1F) << 3) | (crate::packet::bit_u8(self.is_using_12_hour_format)
            << 2) | (crate::packet::bit_u8(self.is_not_using_zh_locale) << 1) | (self.unknown2
            & 0x01)
    }

    /// The default locale byte: a 24-hour clock and a non-Chinese locale.
    pub fn new() -> (r: BindRequestInfo)
        ensures
            r == (BindRequestInfo {
                unknown1: 0u8,
                is_using_12_hour_format: false,
                is_not_using_zh_locale: true,
                unknown2: 0u8,
            }),
            r.wf(),
    {
        BindRequestInfo {
            unknown1: 0,
            is_using_12_hour_format: false,
            is_not_using_zh_locale: true,
            unknown2: 0,
        }
    }

    /// Packs the fields into the payload's first byte.
    pub fn into_bits(self) -> (r: u8)
        ensures
            r == self.bits_spec(),
    {
        let twelve_hour: u8 = if self.is_using_12_hour_format {
            1
        } else {
            0
        };
        let not_zh: u8 = if self.is_not_using_zh_locale {
            1
        } else {
            0
        };
        ((self.unknown1 & 0x1F) << 3) | (twelve_hour << 2) | (not_zh << 1) | (self.unknown2 & 0x01)
    }
}

/// The UTF-16 code units of the synthesized device fingerprint: the
/// fixed literal `"35"` followed by one decimal digit per device
/// property, each property's string length taken modulo 10.
pub open spec fn fingerprint_units_spec(lengths: Seq<usize>) -> Seq<u16> {
    seq![0x33u16, 0x35u16] + lengths.map_values(|l: usize| (0x30 + (l % 10)) as u16)
}

/// Builds the fingerprint string's UTF-16 code units from the device
/// property string lengths. All units are ASCII digits, so no surrogate
/// handling is needed here.
pub fn fingerprint_units(lengths: &[usize]) -> (r: Vec<u16>)
    ensures
        r@ == fingerprint_units_spec(lengths@),
{
    let mut units: Vec<u16> = Vec::new();
    units.push(0x33);
    units.push(0x35);
    let mut i: usize = 0;
    while i < lengths.len()
        invariant
            i <= lengths@.len(),
            units@ =~= seq![0x33u16, 0x35u16] + lengths@.take(i as int).map_values(
                |l: usize| (0x30 + (l % 10)) as u16,
            ),
        decreases lengths@.len() - i,
    {
        let digit: u16 = 0x30 + (lengths[i] % 10) as u16;
        units.push(digit);
        proof {
            assert(lengths@.take(i + 1).map_values(|l: usize| (0x30 + (l % 10)) as u16) =~= lengths@
                .take(i as int).map_values(|l: usize| (0x30 + (l % 10)) as u16).push(
                (0x30 + (lengths@[i as int] % 10)) as u16,
            ));
        }
        i = i + 1;
    }
    proof {
        assert(lengths@.take(lengths@.len() as int) =~= lengths@);
    }
    units
}

/// The low 48 bits of the hash, sign-extended to 64 bits first, as six
/// little-endian bytes; a negative hash therefore ends in `0xFF` bytes.
pub open spec fn hash48_spec(hash: i32) -> Seq<u8> {
    let v = if hash >= 0 {
        hash as int
    } else {
        hash + 0x1000000000000
    };
    seq![
        (v % 256) as u8,
        (v / 256 % 256) as u8,
        (v / 0x10000 % 256) as u8,
        (v / 0x1000000 % 256) as u8,
        (v / 0x100000000 % 256) as u8,
        (v / 0x10000000000 % 256) as u8,
    ]
}

/// The 13-byte bind payload: the locale byte, then the low 6 bytes of
/// the identity hash twice over.
pub open spec fn bind_payload_spec(info: BindRequestInfo, hash: i32) -> Seq<u8> {
    seq![info.bits_spec()] + hash48_spec(hash) + hash48_spec(hash)
}

fn hash48_bytes(hash: i32) -> (r: [u8; 6])
    ensures
        r@ == hash48_spec(hash),
{
    let v: u64 = if hash >= 0 {
        hash as u64
    } else {
        (hash as i64 + 0x1000000000000i64) as u64
    };
    let r: [u8; 6] = [
        (v % 256) as u8,
        (v / 256 % 256) as u8,
        (v / 0x10000 % 256) as u8,
        (v / 0x1000000 % 256) as u8,
        (v / 0x100000000 % 256) as u8,
        (v / 0x10000000000 % 256) as u8,
    ];
    proof {
        assert(r@ =~= hash48_spec(hash));
    }
    r
}

/// Builds the bind request payload from the locale byte and the
/// identity hash.
pub fn bind_payload(info: BindRequestInfo, hash: i32) -> (r: Vec<u8>)
    ensures
        r@ == bind_payload_spec(info, hash),
        r@.len() == 13,
{
    let hash_bytes = hash48_bytes(hash);
    let mut payload: Vec<u8> = Vec::new();
    payload.push(info.into_bits());
    let mut i: usize = 0;
    while i < 6
        invariant
            i <= 6,
            hash_bytes@ == hash48_spec(hash),
            payload@ =~= seq![info.bits_spec()] + hash48_spec(hash).take(i as int),
        decreases 6 - i,
    {
        payload.push(hash_bytes[i]);
        proof {
            assert(hash48_spec(hash).take(i + 1) =~= hash48_spec(hash).take(i as int).push(
                hash48_spec(hash)[i as int],
            ));
        }
        i = i + 1;
    }
    let mut j: usize = 0;
    while j < 6
        invariant
            j <= 6,
            hash_bytes@ == hash48_spec(hash),
            payload@ =~= seq![info.bits_spec()] + hash48_spec(hash) + hash48_spec(hash).take(
                j as int,
            ),
        decreases 6 - j,
    {
        payload.push(hash_bytes[j]);
        proof {
            assert(hash48_spec(hash).take(j + 1) =~= hash48_spec(hash).take(j as int).push(
                hash48_spec(hash)[j as int],
            ));
        }
        j = j + 1;
    }
    proof {
        assert(hash48_spec(hash).take(6) =~= hash48_spec(hash));
        assert(payload@ =~= bind_payload_spec(info, hash));
    }
    payload
}

/// The identity hash of the device fingerprint built from the given
/// property string lengths.
pub fn fingerprint_hash(lengths: &[usize]) -> (r: i32)
    ensures
        r == jdk_hash_spec(fingerprint_units_spec(lengths@)),
{
    let units = fingerprint_units(lengths);
    crate::util::jdk_hash_units(units.as_slice())
}

/// True of a first notification that announces a three-packet bind
/// response: exactly 7 bytes long and ending in the byte `2`.
pub open spec fn first_signals_three(s: Seq<u8>) -> bool {
    s.len() == 7 && s.last() == 2
}

/// Consumes the bind response sequence, one notification at a time.
/// The expected packet count starts at 2 and becomes 3 when the first
/// notification announces it; the early acknowledgement packets are
/// decoded strictly against the bind response opcode, the final packet
/// is accepted as an opaque trailer.
pub struct BindExchange {
    pub packet_index: u8,
    pub expected_packet_count: u8,
}

impl BindExchange {
    pub open spec fn wf(self) -> bool {
        &&& (self.expected_packet_count == 2 || self.expected_packet_count == 3)
        &&& self.packet_index <= self.expected_packet_count
    }

    /// The exchange has consumed every packet it expected.
    pub open spec fn complete(self) -> bool {
        self.packet_index >= self.expected_packet_count
    }

    /// Whether a packet at `index` is an early acknowledgement, to be
    /// decoded strictly, rather than the opaque trailer.
    pub open spec fn early_spec(index: u8, expected: u8) -> bool {
        index == 0 || (index == 1 && expected == 3)
    }

    pub fn new() -> (r: BindExchange)
        ensures
            r == (BindExchange { packet_index: 0u8, expected_packet_count: 2u8 }),
            r.wf(),
            !r.complete(),
    {
        BindExchange { packet_index: 0, expected_packet_count: 2 }
    }

    /// Feeds one notification to the exchange. Returns whether the
    /// exchange is now complete, or the decode error of an early
    /// acknowledgement packet, on which the exchange stops counting.
    pub fn on_notification(&mut self, bytes: &[u8]) -> (r: Result<bool, ProtocolError>)
        requires
            old(self).wf(),
            !old(self).complete(),
        ensures
            final(self).wf(),
            final(self).expected_packet_count == (if old(self).packet_index == 0
                && first_signals_three(bytes@) {
                3u8
            } else {
                old(self).expected_packet_count
            }),
            ({
                let expected = final(self).expected_packet_count;
                let early = BindExchange::early_spec(old(self).packet_index, expected);
                let advanced = final(self).packet_index == old(self).packet_index + 1 && r == Ok::<
                    bool,
                    ProtocolError,
                >(final(self).complete());
                if early {
                    match decode_failure(bytes@, BIND_RESPONSE, LENIENT_FRAME_LIMIT as int) {
                        Some(e) => r == Err::<bool, ProtocolError>(e) && final(self).packet_index
                            == old(self).packet_index,
                        None => if metadata_of(bytes@[2]).expect_response {
                            r == Err::<bool, ProtocolError>(ProtocolError::UnhandledAckRequest)
                                && final(self).packet_index == old(self).packet_index
                        } else {
                            advanced
                        },
                    }
                } else {
                    advanced
                }
            }),
    {
        if self.packet_index == 0 && bytes.len() == 7 && bytes[6] == 2 {
            self.expected_packet_count = 3;
        }
        let early = self.packet_index == 0 || (self.packet_index == 1
            && self.expected_packet_count == 3);
        if early {
            let mut allowed: Vec<u8> = Vec::new();
            allowed.push(BIND_RESPONSE);
            proof {
                assert(allowed@.contains(allowed@[0]));
            }
            match parse_command_data_response(
                bytes,
                Some(allowed.as_slice()),
                LENIENT_FRAME_LIMIT,
            ) {
                Ok((metadata, _command, _data)) => {
                    if metadata.expect_response {
                        return Err(ProtocolError::UnhandledAckRequest);
                    }
                },
                Err(e) => {
                    return Err(e);
                },
            }
        }
        self.packet_index = self.packet_index + 1;
        Ok(self.packet_index >= self.expected_packet_count)
    }

    /// The verdict when the notification stream ends: success once the
    /// expected packet count was reached, otherwise the exchange was
    /// cut short.
    pub fn finish(&self) -> (r: Result<(), ProtocolError>)
        ensures
            r == if self.complete() {
                Ok::<(), ProtocolError>(())
            } else {
                Err::<(), ProtocolError>(ProtocolError::IncompleteBindSequence)
            },
    {
        if self.packet_index >= self.expected_packet_count {
            Ok(())
        } else {
            Err(ProtocolError::IncompleteBindSequence)
        }
    }
}

} // verus!
