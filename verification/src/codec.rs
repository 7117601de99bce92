//! The payload decoder: a pure function from the sensor's fixed 13-byte
//! current-readings buffer to a typed `Data` record.
//!
//! Byte layout, little-endian for the multi-byte fields: bytes 0-1 CO2 (ppm),
//! bytes 2-3 temperature (twentieths of a degree Celsius), bytes 4-5 pressure
//! (tenths of a hectopascal), byte 6 humidity (%), byte 7 battery (%),
//! byte 8 status, bytes 9-10 measurement interval (s), bytes 11-12 age of the
//! reading (s). Decoding fully succeeds or fails atomically: there is no
//! partially populated `Data`.

use vstd::prelude::*;

use crate::domain::{Data, DecodeError, Status};

verus! {

/// The number of bytes a current-readings payload must hold.
pub const PAYLOAD_LEN: usize = 13;

/// The little-endian 16-bit value held by a low and a high byte.
pub open spec fn spec_le16(lo: u8, hi: u8) -> u16 {
    (lo + hi * 256) as u16
}

/// Reads the little-endian 16-bit value held by a low and a high byte.
pub fn le16(lo: u8, hi: u8) -> (r: u16)
    ensures
        r == spec_le16(lo, hi),
{
    (lo as u16) + (hi as u16) * 256
}

/// What decoding a payload yields: the error for a short buffer or a bad
/// status byte, otherwise the record read at the fixed offsets. Buffers
/// longer than 13 bytes are decoded from their first 13 bytes.
pub open spec fn spec_decode(b: Seq<u8>) -> Result<Data, DecodeError> {
    if b.len() < PAYLOAD_LEN {
        Err(DecodeError::TruncatedPayload)
    } else if Status::spec_try_from(b[8]) is Err {
        Err(DecodeError::InvalidStatus)
    } else {
        Ok(
            Data {
                co2: spec_le16(b[0], b[1]),
                temperature_raw: spec_le16(b[2], b[3]),
                pressure_raw: spec_le16(b[4], b[5]),
                humidity: b[6],
                battery: b[7],
                status: Status::spec_try_from(b[8])->Ok_0,
                interval_seconds: spec_le16(b[9], b[10]),
                ago_seconds: spec_le16(b[11], b[12]),
            },
        )
    }
}

/// Decodes a current-readings payload.
///
/// A buffer of fewer than 13 bytes yields `TruncatedPayload`; a status byte
/// outside {1, 2, 3} yields `InvalidStatus`; otherwise the typed record is
/// returned. The result is a function of the bytes alone: no side effects,
/// no connection state.
pub fn decode(bytes: &Vec<u8>) -> (r: Result<Data, DecodeError>)
    ensures
        r == spec_decode(bytes@),
{
    if bytes.len() < PAYLOAD_LEN {
        return Err(DecodeError::TruncatedPayload);
    }
    let status = match Status::try_from(bytes[8]) {
        Ok(s) => s,
        Err(_) => {
            return Err(DecodeError::InvalidStatus);
        },
    };
    Ok(
        Data {
            co2: le16(bytes[0], bytes[1]),
            temperature_raw: le16(bytes[2], bytes[3]),
            pressure_raw: le16(bytes[4], bytes[5]),
            humidity: bytes[6],
            battery: bytes[7],
            status,
            interval_seconds: le16(bytes[9], bytes[10]),
            ago_seconds: le16(bytes[11], bytes[12]),
        },
    )
}

/// Law: decoding is deterministic. Any two results obtained for the same
/// byte sequence are the same result, because `decode` pins its result to
/// `spec_decode` of its input alone.
pub proof fn lemma_decode_deterministic(
    bytes: Seq<u8>,
    r1: Result<Data, DecodeError>,
    r2: Result<Data, DecodeError>,
)
    requires
        r1 == spec_decode(bytes),
        r2 == spec_decode(bytes),
    ensures
        r1 == r2,
{
}

/// Law: every buffer shorter than 13 bytes is rejected as truncated; no
/// partial record is ever produced for one.
pub proof fn lemma_truncation_rejected(bytes: Seq<u8>)
    requires
        bytes.len() < PAYLOAD_LEN,
    ensures
        spec_decode(bytes) == Err::<Data, DecodeError>(DecodeError::TruncatedPayload),
{
}

/// Law: the status byte boundary. Bytes 1, 2 and 3 decode to GREEN, AMBER
/// and RED; every other byte, 0 and 4 among them, is an invalid encoding.
pub proof fn lemma_status_boundary(value: u8)
    ensures
        value == 1 ==> Status::spec_try_from(value) == Ok::<Status, ()>(Status::GREEN),
        value == 2 ==> Status::spec_try_from(value) == Ok::<Status, ()>(Status::AMBER),
        value == 3 ==> Status::spec_try_from(value) == Ok::<Status, ()>(Status::RED),
        !(1 <= value <= 3) ==> Status::spec_try_from(value) == Err::<Status, ()>(()),
{
}

} // verus!
