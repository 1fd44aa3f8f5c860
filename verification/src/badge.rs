//! The badge-information record and its decoder. The device answers a
//! badge-info request with a payload whose first byte is a status flag
//! (`1` for a valid record) followed by a fixed 12-byte little-endian
//! body.

use vstd::prelude::*;

use crate::packet::ProtocolError;

verus! {

/// Display and memory geometry the device reports about itself.
#[derive(Clone, Copy, Debug, PartialEq, Eq, Structural)]
pub struct BadgeInfo {
    pub width: u16,
    pub height: u16,
    pub picture_width: u16,
    pub picture_height: u16,
    pub memory: u32,
}

/// Two bytes read little-endian.
pub open spec fn le16(lo: u8, hi: u8) -> u16 {
    (lo + 256 * hi) as u16
}

/// Four bytes read little-endian.
pub open spec fn le32(b0: u8, b1: u8, b2: u8, b3: u8) -> u32 {
    (b0 + 256 * b1 + 0x10000 * b2 + 0x1000000 * b3) as u32
}

/// The record held in a valid badge-info payload: five little-endian
/// fields in the bytes after the status flag.
pub open spec fn badge_info_of(payload: Seq<u8>) -> BadgeInfo
    recommends
        payload.len() >= 13,
{
    BadgeInfo {
        width: le16(payload[1], payload[2]),
        height: le16(payload[3], payload[4]),
        picture_width: le16(payload[5], payload[6]),
        picture_height: le16(payload[7], payload[8]),
        memory: le32(payload[9], payload[10], payload[11], payload[12]),
    }
}

/// Decodes a badge-info response payload. The status byte must equal 1:
/// the firmware answers with an all-zero record on the other path,
/// which is an error here rather than a valid zero-sized badge.
pub fn parse_badge_info(payload: &[u8]) -> (r: Result<BadgeInfo, ProtocolError>)
    ensures
        payload@.len() == 0 ==> r == Err::<BadgeInfo, ProtocolError>(ProtocolError::Malformed),
        payload@.len() > 0 && payload@[0] != 1 ==> r == Err::<BadgeInfo, ProtocolError>(
            ProtocolError::EmptyInfo,
        ),
        payload@.len() > 0 && payload@[0] == 1 && payload@.len() < 13 ==> r == Err::<
            BadgeInfo,
            ProtocolError,
        >(ProtocolError::Malformed),
        payload@.len() >= 13 && payload@[0] == 1 ==> r == Ok::<BadgeInfo, ProtocolError>(
            badge_info_of(payload@),
        ),
{
    if payload.len() == 0 {
        return Err(ProtocolError::Malformed);
    }
    if payload[0] != 1 {
        return Err(ProtocolError::EmptyInfo);
    }
    if payload.len() < 13 {
        return Err(ProtocolError::Malformed);
    }
    let width: u16 = payload[1] as u16 + 256 * (payload[2] as u16);
    let height: u16 = payload[3] as u16 + 256 * (payload[4] as u16);
    let picture_width: u16 = payload[5] as u16 + 256 * (payload[6] as u16);
    let picture_height: u16 = payload[7] as u16 + 256 * (payload[8] as u16);
    let memory: u32 = payload[9] as u32 + 256 * (payload[10] as u32) + 0x10000 * (
    payload[11] as u32) + 0x1000000 * (payload[12] as u32);
    Ok(BadgeInfo { width, height, picture_width, picture_height, memory })
}

} // verus!
