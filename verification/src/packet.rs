//! The wire format: one frame is
//! `mark | checksum | metadata | command | length(LE,2) | payload`, where
//! `checksum` covers everything after itself and `metadata` is a single
//! bit-packed byte. This module builds outbound frames and decodes and
//! validates inbound ones.

use vstd::prelude::*;

use crate::util::{checksum, checksum_spec};

verus! {

/// The fixed sentinel byte that opens every frame of this protocol.
pub const COMMAND_MARK: u8 = 0x9E;

/// Frame length (in bytes) up to which checksum and length mismatches
/// are tolerated rather than refused; above it validation is strict.
/// Observed device behaviour, not documentation: callers may pass
/// another bound where the policy is revised.
pub const LENIENT_FRAME_LIMIT: usize = 20;

/// Everything that can go wrong while decoding a frame or running one
/// of the request/response exchanges.
#[derive(Clone, Copy, Debug, PartialEq, Eq, Structural)]
pub enum ProtocolError {
    /// The buffer is too short to contain a frame header.
    Malformed,
    /// The decoded opcode is not in the caller's allow-list.
    UnexpectedCommand,
    /// The badge-info payload is flagged empty by the device.
    EmptyInfo,
    /// The notification stream ended before the expected packet count.
    IncompleteBindSequence,
    /// The reported checksum disagrees with the computed one (strict mode).
    ChecksumMismatch,
    /// The reported payload length disagrees with the actual one (strict mode).
    LengthMismatch,
    /// An inbound frame asks for an acknowledgement this engine does not
    /// yet send; surfaced so that no exchange silently ignores it.
    UnhandledAckRequest,
}

/// One bit-packed metadata byte, most-significant bit first:
/// `[flag1:1][packet_id:4][long_flag:1][expect_response:1][flag4:1]`.
/// `flag1` and `flag4` have unknown semantics and stay false outbound.
#[derive(Clone, Copy, Debug, PartialEq, Eq, Structural)]
pub struct PacketMetadata {
    pub flag1: bool,
    /// Low 4 bits of the sequence counter, used for correlation.
    pub packet_id: u8,
    /// Set when the total frame length exceeds 20 bytes; the name
    /// records how the device computes it, not a known meaning.
    pub length_more_than_20: bool,
    /// Marks frames for which the device additionally unicasts an
    /// acknowledgement.
    pub expect_response: bool,
    pub flag4: bool,
}

/// A bit as a byte, for the packed representation.
pub open spec fn bit_u8(b: bool) -> u8 {
    if b {
        1u8
    } else {
        0u8
    }
}

impl PacketMetadata {
    /// The packet id fits its 4-bit field.
    pub open spec fn wf(self) -> bool {
        self.packet_id < 16
    }

    /// The packed byte, most-significant bit first.
    pub open spec fn bits_spec(self) -> u8 {
        (bit_u8(self.flag1) << 7) | ((self.packet_id & 0x0F) << 3) | (bit_u8(
            self.length_more_than_20,
        ) << 2) | (bit_u8(self.expect_response) << 1) | bit_u8(self.flag4)
    }

    /// All flags clear and packet id zero.
    pub fn new() -> (r: PacketMetadata)
        ensures
            r == (PacketMetadata {
                flag1: false,
                packet_id: 0u8,
                length_more_than_20: false,
                expect_response: false,
                flag4: false,
            }),
    {
        PacketMetadata {
            flag1: false,
            packet_id: 0,
            length_more_than_20: false,
            expect_response: false,
            flag4: false,
        }
    }

    pub fn with_flag1(self, v: bool) -> (r: PacketMetadata)
        ensures
            r == (PacketMetadata { flag1: v, ..self }),
    {
        PacketMetadata { flag1: v, ..self }
    }

    pub fn with_packet_id(self, v: u8) -> (r: PacketMetadata)
        requires
            v < 16,
        ensures
            r == (PacketMetadata { packet_id: v, ..self }),
    {
        PacketMetadata { packet_id: v, ..self }
    }

    pub fn with_length_more_than_20(self, v: bool) -> (r: PacketMetadata)
        ensures
            r == (PacketMetadata { length_more_than_20: v, ..self }),
    {
        PacketMetadata { length_more_than_20: v, ..self }
    }

    pub fn with_expect_response(self, v: bool) -> (r: PacketMetadata)
        ensures
            r == (PacketMetadata { expect_response: v, ..self }),
    {
        PacketMetadata { expect_response: v, ..self }
    }

    pub fn with_flag4(self, v: bool) -> (r: PacketMetadata)
        ensures
            r == (PacketMetadata { flag4: v, ..self }),
    {
        PacketMetadata { flag4: v, ..self }
    }

    /// Packs the fields into the single metadata byte.
    pub fn into_bits(self) -> (r: u8)
        ensures
            r == self.bits_spec(),
    {
        let flag1: u8 = if self.flag1 {
            1
        } else {
            0
        };
        let long: u8 = if self.length_more_than_20 {
            1
        } else {
            0
        };
        let expect: u8 = if self.expect_response {
            1
        } else {
            0
        };
        let flag4: u8 = if self.flag4 {
            1
        } else {
            0
        };
        (flag1 << 7) | ((self.packet_id & 0x0F) << 3) | (long << 2) | (expect << 1) | flag4
    }

    /// Unpacks a metadata byte into its fields.
    pub fn from_bits(b: u8) -> (r: PacketMetadata)
        ensures
            r == metadata_of(b),
            r.wf(),
    {
        let r = PacketMetadata {
            flag1: b & 0x80 != 0,
            packet_id: (b >> 3) & 0x0F,
            length_more_than_20: b & 0x04 != 0,
            expect_response: b & 0x02 != 0,
            flag4: b & 0x01 != 0,
        };
        proof {
            assert((b >> 3) & 0x0F < 16) by (bit_vector);
        }
        r
    }
}

/// The fields packed into a metadata byte, most-significant bit first.
pub open spec fn metadata_of(b: u8) -> PacketMetadata {
    PacketMetadata {
        flag1: b & 0x80 != 0,
        packet_id: (b >> 3) & 0x0F,
        length_more_than_20: b & 0x04 != 0,
        expect_response: b & 0x02 != 0,
        flag4: b & 0x01 != 0,
    }
}

/// Reading each field back out of the packed byte yields the field that
/// was packed in, for every combination of well-formed field values.
pub proof fn lemma_metadata_round_trip(m: PacketMetadata)
    requires
        m.wf(),
    ensures
        metadata_of(m.bits_spec()) == m,
{
    let f1 = bit_u8(m.flag1);
    let pid = m.packet_id;
    let l = bit_u8(m.length_more_than_20);
    let e = bit_u8(m.expect_response);
    let f4 = bit_u8(m.flag4);
    let b = m.bits_spec();
    assert(b == (f1 << 7) | ((pid & 0x0F) << 3) | (l << 2) | (e << 1) | f4);
    lemma_pack_fields(f1, pid, l, e, f4);
}

proof fn lemma_pack_fields(f1: u8, pid: u8, l: u8, e: u8, f4: u8)
    by (bit_vector)
    requires
        f1 < 2,
        pid < 16,
        l < 2,
        e < 2,
        f4 < 2,
    ensures
        (((f1 << 7) | ((pid & 0x0F) << 3) | (l << 2) | (e << 1) | f4) & 0x80 != 0) == (f1 == 1),
        (((f1 << 7) | ((pid & 0x0F) << 3) | (l << 2) | (e << 1) | f4) >> 3) & 0x0F == pid,
        (((f1 << 7) | ((pid & 0x0F) << 3) | (l << 2) | (e << 1) | f4) & 0x04 != 0) == (l == 1),
        (((f1 << 7) | ((pid & 0x0F) << 3) | (l << 2) | (e << 1) | f4) & 0x02 != 0) == (e == 1),
        (((f1 << 7) | ((pid & 0x0F) << 3) | (l << 2) | (e << 1) | f4) & 0x01 != 0) == (f4 == 1),
{
}

/// The metadata byte of an outbound frame: the low 4 bits of the given
/// id, the long flag when the total frame length exceeds 20 bytes, a
/// response always requested, the unknown flags clear.
pub open spec fn outbound_metadata(packet_id: u8, payload_len: nat) -> PacketMetadata {
    PacketMetadata {
        flag1: false,
        packet_id: packet_id & 0x0F,
        length_more_than_20: payload_len + 6 > 20,
        expect_response: true,
        flag4: false,
    }
}

/// The complete outbound frame for one command: mark and checksum,
/// then metadata, command, little-endian payload length and payload.
pub open spec fn frame_spec(packet_id: u8, command: u8, payload: Seq<u8>) -> Seq<u8> {
    let body = seq![
        outbound_metadata(packet_id, payload.len()).bits_spec(),
        command,
        (payload.len() % 256) as u8,
        ((payload.len() / 256) % 256) as u8,
    ] + payload;
    seq![COMMAND_MARK, checksum_spec(body)] + body
}

/// Builds the frame that carries `command` with `data` as its payload,
/// stamped with the low 4 bits of `packet_id`.
pub fn command_data(packet_id: u8, command: u8, data: &[u8]) -> (r: Vec<u8>)
    requires
        data@.len() <= 0xFFFF,
    ensures
        r@ == frame_spec(packet_id, command, data@),
        r@.len() == data@.len() + 6,
{
    let n: usize = data.len();
    proof {
        assert(packet_id & 0x0F < 16) by (bit_vector);
    }
    let metadata = PacketMetadata::new().with_packet_id(packet_id & 0x0F).with_flag1(
        false,
    ).with_length_more_than_20(n + 6 > 20).with_expect_response(true).with_flag4(false);

    let mut body: Vec<u8> = Vec::new();
    body.push(metadata.into_bits());
    body.push(command);
    body.push((n % 256) as u8);
    body.push(((n / 256) % 256) as u8);
    let mut i: usize = 0;
    while i < n
        invariant
            i <= n,
            n == data@.len(),
            body@ =~= seq![
                outbound_metadata(packet_id, data@.len()).bits_spec(),
                command,
                (data@.len() % 256) as u8,
                ((data@.len() / 256) % 256) as u8,
            ] + data@.take(i as int),
        decreases n - i,
    {
        body.push(data[i]);
        proof {
            assert(data@.take(i + 1) =~= data@.take(i as int).push(data@[i as int]));
        }
        i = i + 1;
    }
    proof {
        assert(data@.take(n as int) =~= data@);
    }

    let ck = checksum(body.as_slice());

    let mut out: Vec<u8> = Vec::new();
    out.push(COMMAND_MARK);
    out.push(ck);
    let mut j: usize = 0;
    while j < body.len()
        invariant
            j <= body@.len(),
            out@ =~= seq![COMMAND_MARK, ck] + body@.take(j as int),
        decreases body@.len() - j,
    {
        out.push(body[j]);
        proof {
            assert(body@.take(j + 1) =~= body@.take(j as int).push(body@[j as int]));
        }
        j = j + 1;
    }
    proof {
        assert(body@.take(body@.len() as int) =~= body@);
        assert(out@ =~= frame_spec(packet_id, command, data@));
    }
    out
}

/// The payload length an inbound frame reports, read little-endian.
pub open spec fn reported_len_spec(s: Seq<u8>) -> int {
    s[4] + 256 * s[5]
}

/// The reported payload length agrees with the byte count on the wire.
pub open spec fn length_ok(s: Seq<u8>) -> bool {
    reported_len_spec(s) == s.len() - 6
}

/// The reported checksum agrees with the one computed over the bytes
/// it covers (everything after the checksum byte itself).
pub open spec fn checksum_ok(s: Seq<u8>) -> bool {
    s[1] == checksum_spec(s.skip(2))
}

/// Whether the decoded command byte passes the caller's allow-list;
/// no list accepts every command.
pub open spec fn command_allowed(cmd: u8, allowed: Option<&[u8]>) -> bool {
    match allowed {
        Option::None => true,
        Option::Some(a) => a@.contains(cmd),
    }
}

fn slice_contains_byte(s: &[u8], b: u8) -> (r: bool)
    ensures
        r == s@.contains(b),
{
    let mut i: usize = 0;
    while i < s.len()
        invariant
            i <= s@.len(),
            forall|j: int| 0 <= j < i ==> s@[j] != b,
        decreases s@.len() - i,
    {
        if s[i] == b {
            return true;
        }
        i = i + 1;
    }
    false
}

/// Why decoding `s` against a single accepted command fails, or `None`
/// when it succeeds. Mirrors the decoder's checks in their order, for
/// the exchange handlers, whose allow-lists hold one command each.
pub open spec fn decode_failure(s: Seq<u8>, expected_cmd: u8, limit: int) -> Option<
    ProtocolError,
> {
    if s.len() <= 6 {
        Some(ProtocolError::Malformed)
    } else if s.len() > limit && !length_ok(s) {
        Some(ProtocolError::LengthMismatch)
    } else if s.len() > limit && !checksum_ok(s) {
        Some(ProtocolError::ChecksumMismatch)
    } else if s[3] != expected_cmd {
        Some(ProtocolError::UnexpectedCommand)
    } else {
        None
    }
}

/// Splits an inbound frame into metadata, command and payload.
///
/// Mismatched length or checksum is tolerated on frames no longer than
/// `lenient_limit` bytes and refused above it. A frame whose metadata
/// requests an acknowledgement still decodes; the flag is surfaced in
/// the returned metadata, and the exchange handlers refuse such frames
/// rather than ignore the request.
pub fn parse_command_data_response(
    bytes: &[u8],
    allowed_commands: Option<&[u8]>,
    lenient_limit: usize,
) -> (r: Result<(PacketMetadata, u8, Vec<u8>), ProtocolError>)
    ensures
        bytes@.len() <= 6 ==> r == Err::<(PacketMetadata, u8, Vec<u8>), ProtocolError>(
            ProtocolError::Malformed,
        ),
        bytes@.len() > 6 ==> {
            let s = bytes@;
            let strict = s.len() > lenient_limit;
            if strict && !length_ok(s) {
                r == Err::<(PacketMetadata, u8, Vec<u8>), ProtocolError>(
                    ProtocolError::LengthMismatch,
                )
            } else if strict && !checksum_ok(s) {
                r == Err::<(PacketMetadata, u8, Vec<u8>), ProtocolError>(
                    ProtocolError::ChecksumMismatch,
                )
            } else if !command_allowed(s[3], allowed_commands) {
                r == Err::<(PacketMetadata, u8, Vec<u8>), ProtocolError>(
                    ProtocolError::UnexpectedCommand,
                )
            } else {
                r matches Ok(t) && t.0 == metadata_of(s[2]) && t.1 == s[3] && t.2@ == s.skip(6)
            }
        },
{
    if bytes.len() <= 6 {
        return Err(ProtocolError::Malformed);
    }
    let reported_checksum = bytes[1];
    let packet_metadata = PacketMetadata::from_bits(bytes[2]);
    let command = bytes[3];
    let reported_length: u16 = bytes[4] as u16 + 256 * (bytes[5] as u16);
    let actual_length: usize = bytes.len() - 6;
    let strict = bytes.len() > lenient_limit;

    if strict && reported_length as usize != actual_length {
        return Err(ProtocolError::LengthMismatch);
    }

    let covered = vstd::slice::slice_subrange(bytes, 2, bytes.len());
    let actual_checksum = checksum(covered);
    proof {
        assert(covered@ =~= bytes@.skip(2));
    }
    if strict && reported_checksum != actual_checksum {
        return Err(ProtocolError::ChecksumMismatch);
    }

    match allowed_commands {
        Option::Some(allowed) => {
            if !slice_contains_byte(allowed, command) {
                return Err(ProtocolError::UnexpectedCommand);
            }
        },
        Option::None => {},
    }

    let tail = vstd::slice::slice_subrange(bytes, 6, bytes.len());
    let data = vstd::slice::slice_to_vec(tail);
    proof {
        assert(data@ =~= bytes@.skip(6));
    }
    Ok((packet_metadata, command, data))
}

/// Decoding a frame this encoder built yields the command and payload
/// that went in: the frame is long enough, its reported length and
/// checksum agree with its contents, its command byte and payload read
/// back unchanged, and its metadata byte unpacks to the outbound
/// metadata. Payloads up to 250 bytes cover every frame this device
/// class exchanges; an empty payload is excluded because its 6-byte
/// frame is exactly the size the decoder refuses as too short.
pub proof fn lemma_frame_round_trip(packet_id: u8, command: u8, payload: Seq<u8>)
    requires
        0 < payload.len() <= 250,
    ensures
        ({
            let f = frame_spec(packet_id, command, payload);
            &&& f.len() == payload.len() + 6
            &&& f.len() > 6
            &&& f[3] == command
            &&& f.skip(6) == payload
            &&& length_ok(f)
            &&& checksum_ok(f)
            &&& metadata_of(f[2]) == outbound_metadata(packet_id, payload.len())
        }),
{
    let m = outbound_metadata(packet_id, payload.len());
    let body = seq![
        m.bits_spec(),
        command,
        (payload.len() % 256) as u8,
        ((payload.len() / 256) % 256) as u8,
    ] + payload;
    let f = frame_spec(packet_id, command, payload);
    assert(f =~= seq![COMMAND_MARK, checksum_spec(body)] + body);
    assert(f.skip(6) =~= payload);
    assert(f.skip(2) =~= body);
    assert(f[4] == payload.len() % 256 && f[5] == payload.len() / 256 % 256);
    assert(reported_len_spec(f) == payload.len());
    assert(packet_id & 0x0F < 16) by (bit_vector);
    lemma_metadata_round_trip(m);
}

} // verus!
