//! The frame: a header of twenty-two bytes, the payload, and a CRC-32 trailer.

use crate::checksum::crc32_ieee;
use crate::round_trip::{
    checksum_validates, lemma_built_frame_checksum_validates, lemma_frame_layout,
};
use crate::wire::{put_bytes, put_u16_le, put_u32_le, put_u64_le, put_u8, u16_le, u32_le, u64_le};
use vstd::prelude::*;

verus! {

/// The four bytes that open every frame, read as a little-endian number.
pub const MAGIC: u32 = 0x4E4D5353;

/// The protocol version that this library writes and accepts.
pub const VERSION: u8 = 1;

/// Bytes before the payload.
pub const HEADER_LEN: usize = 22;

/// Bytes after the payload: the checksum.
pub const TRAILER_LEN: usize = 4;

/// The longest payload that the two-byte length field can announce.
pub const MAX_PAYLOAD_LEN: usize = 65535;

/// What a frame carries.
#[derive(Clone, Copy, Debug, PartialEq, Eq, Structural)]
pub enum MsgType {
    Telemetry,
    Command,
}

impl MsgType {
    /// The byte that stands for the type on the wire.
    pub open spec fn spec_code(self) -> u8 {
        match self {
            MsgType::Telemetry => 1,
            MsgType::Command => 2,
        }
    }

    /// The byte that stands for the type on the wire.
    #[verifier::when_used_as_spec(spec_code)]
    pub fn code(self) -> (c: u8)
        ensures
            c == self.spec_code(),
    {
        match self {
            MsgType::Telemetry => 1,
            MsgType::Command => 2,
        }
    }

    /// The type that a wire byte stands for, if it stands for one.
    pub open spec fn spec_from_code(c: u8) -> Option<MsgType> {
        if c == 1 {
            Some(MsgType::Telemetry)
        } else if c == 2 {
            Some(MsgType::Command)
        } else {
            None
        }
    }

    /// The type that a wire byte stands for, if it stands for one.
    #[verifier::when_used_as_spec(spec_from_code)]
    pub fn from_code(c: u8) -> (t: Option<MsgType>)
        ensures
            t == MsgType::spec_from_code(c),
    {
        if c == 1 {
            Some(MsgType::Telemetry)
        } else if c == 2 {
            Some(MsgType::Command)
        } else {
            None
        }
    }

    /// A type's wire byte stands for that type and for no other.
    pub proof fn lemma_code_round_trip(self)
        ensures
            MsgType::from_code(self.code()) == Some(self),
    {
    }
}

/// Why no frame was built.
#[derive(Clone, Copy, Debug, PartialEq, Eq, Structural)]
pub enum FrameError {
    /// The payload is longer than the length field can announce.
    OversizedPayload,
}

/// The header of a frame whose payload has `payload_len` bytes. The two
/// flag bytes are reserved and zero.
pub open spec fn header_bytes(
    msg_type: MsgType,
    sequence: u32,
    timestamp_ms: u64,
    payload_len: u16,
) -> Seq<u8> {
    u32_le(MAGIC) + seq![VERSION, msg_type.code()] + u16_le(0) + u32_le(sequence) + u64_le(
        timestamp_ms,
    ) + u16_le(payload_len)
}

/// Header and payload: the bytes that the checksum covers.
pub open spec fn body_bytes(
    msg_type: MsgType,
    sequence: u32,
    timestamp_ms: u64,
    payload: Seq<u8>,
) -> Seq<u8>
    recommends
        payload.len() <= MAX_PAYLOAD_LEN,
{
    header_bytes(msg_type, sequence, timestamp_ms, payload.len() as u16) + payload
}

/// A body followed by a checksum.
pub open spec fn sealed_bytes(body: Seq<u8>, crc: u32) -> Seq<u8> {
    body + u32_le(crc)
}

/// The whole frame: the body followed by the CRC-32 of the body.
pub open spec fn frame_bytes(
    msg_type: MsgType,
    sequence: u32,
    timestamp_ms: u64,
    payload: Seq<u8>,
) -> Seq<u8>
    recommends
        payload.len() <= MAX_PAYLOAD_LEN,
{
    let body = body_bytes(msg_type, sequence, timestamp_ms, payload);
    sealed_bytes(body, crc32_ieee(body))
}

/// Writes header and payload, the part of a frame that the checksum covers.
/// The length is tested before anything is written.
pub fn build_body(msg_type: MsgType, seq: u32, unix_ms: u64, payload: &[u8]) -> (r: Result<
    Vec<u8>,
    FrameError,
>)
    ensures
        match r {
            Ok(body) => payload@.len() <= MAX_PAYLOAD_LEN && body@ == body_bytes(
                msg_type,
                seq,
                unix_ms,
                payload@,
            ),
            Err(e) => payload@.len() > MAX_PAYLOAD_LEN && e == FrameError::OversizedPayload,
        },
{
    if payload.len() > MAX_PAYLOAD_LEN {
        return Err(FrameError::OversizedPayload);
    }
    let payload_len: u16 = payload.len() as u16;
    let mut buf: Vec<u8> = Vec::with_capacity(HEADER_LEN + payload.len() + TRAILER_LEN);
    put_u32_le(&mut buf, MAGIC);
    put_u8(&mut buf, VERSION);
    put_u8(&mut buf, msg_type.code());
    put_u16_le(&mut buf, 0);
    put_u32_le(&mut buf, seq);
    put_u64_le(&mut buf, unix_ms);
    put_u16_le(&mut buf, payload_len);
    put_bytes(&mut buf, payload);
    Ok(buf)
}

/// Appends a checksum to a body.
pub fn seal(body: Vec<u8>, crc: u32) -> (frame: Vec<u8>)
    ensures
        frame@ == sealed_bytes(body@, crc),
{
    let mut frame = body;
    put_u32_le(&mut frame, crc);
    frame
}

/// Builds a frame: header, payload, and the CRC-32 of both. A payload of
/// more than 65535 bytes is refused, and nothing is built.
pub fn build_frame(msg_type: MsgType, seq: u32, unix_ms: u64, payload: &[u8]) -> (r: Result<
    Vec<u8>,
    FrameError,
>)
    ensures
        match r {
            Ok(frame) => {
                &&& payload@.len() <= MAX_PAYLOAD_LEN
                &&& frame@ == frame_bytes(msg_type, seq, unix_ms, payload@)
                &&& frame@.len() == HEADER_LEN + payload@.len() + TRAILER_LEN
                &&& checksum_validates(frame@)
            },
            Err(e) => payload@.len() > MAX_PAYLOAD_LEN && e == FrameError::OversizedPayload,
        },
{
    match build_body(msg_type, seq, unix_ms, payload) {
        Ok(body) => {
            let crc: u32 = crc32fast::hash(body.as_slice());
            proof {
                lemma_frame_layout(msg_type, seq, unix_ms, payload@);
                lemma_built_frame_checksum_validates(msg_type, seq, unix_ms, payload@);
            }
            Ok(seal(body, crc))
        },
        Err(e) => Err(e),
    }
}

} // verus!
