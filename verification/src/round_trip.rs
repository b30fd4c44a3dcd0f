//! What ties the building side to the receiving side.

use crate::checksum::crc32_ieee;
use crate::decode::{decoded, DecodeError, FrameView};
use crate::frame::{
    body_bytes, frame_bytes, header_bytes, MsgType, HEADER_LEN, MAGIC, MAX_PAYLOAD_LEN,
    TRAILER_LEN, VERSION,
};
use crate::wire::{
    lemma_u16_bytes_round_trip, lemma_u16_round_trip, lemma_u32_bytes_round_trip,
    lemma_u32_round_trip, lemma_u64_bytes_round_trip, lemma_u64_round_trip, u16_from_le, u16_le,
    u32_from_le, u32_le, u64_le,
};
use vstd::prelude::*;

verus! {

/// Whether the last four bytes of `frame`, read as a little-endian number,
/// are the CRC-32 of the bytes before them.
pub open spec fn checksum_validates(frame: Seq<u8>) -> bool {
    &&& frame.len() >= TRAILER_LEN
    &&& crc32_ieee(frame.subrange(0, frame.len() - 4)) == u32_from_le(
        frame.subrange(frame.len() - 4, frame.len() as int),
    )
}

/// A frame is as long as header, payload and checksum together, and splits
/// into its body and the little-endian CRC-32 of that body.
pub proof fn lemma_frame_layout(
    msg_type: MsgType,
    sequence: u32,
    timestamp_ms: u64,
    payload: Seq<u8>,
)
    requires
        payload.len() <= MAX_PAYLOAD_LEN,
    ensures
        ({
            let frame = frame_bytes(msg_type, sequence, timestamp_ms, payload);
            let body = body_bytes(msg_type, sequence, timestamp_ms, payload);
            &&& body.len() == HEADER_LEN + payload.len()
            &&& frame.len() == HEADER_LEN + payload.len() + TRAILER_LEN
            &&& frame.subrange(0, frame.len() - 4) == body
            &&& frame.subrange(frame.len() - 4, frame.len() as int) == u32_le(crc32_ieee(body))
            &&& frame.subrange(0, 4) == u32_le(MAGIC)
            &&& frame[4] == VERSION
            &&& frame[5] == msg_type.code()
            &&& frame.subrange(6, 8) == u16_le(0)
            &&& frame.subrange(8, 12) == u32_le(sequence)
            &&& frame.subrange(12, 20) == u64_le(timestamp_ms)
            &&& frame.subrange(20, 22) == u16_le(payload.len() as u16)
            &&& frame.subrange(HEADER_LEN as int, frame.len() - 4) == payload
        }),
{
    let frame = frame_bytes(msg_type, sequence, timestamp_ms, payload);
    let body = body_bytes(msg_type, sequence, timestamp_ms, payload);
    let header = header_bytes(msg_type, sequence, timestamp_ms, payload.len() as u16);
    assert(header.len() == HEADER_LEN);
    assert(frame.subrange(0, frame.len() - 4) =~= body);
    assert(frame.subrange(frame.len() - 4, frame.len() as int) =~= u32_le(crc32_ieee(body)));
    assert(frame.subrange(0, 4) =~= u32_le(MAGIC));
    assert(frame.subrange(6, 8) =~= u16_le(0));
    assert(frame.subrange(8, 12) =~= u32_le(sequence));
    assert(frame.subrange(12, 20) =~= u64_le(timestamp_ms));
    assert(frame.subrange(20, 22) =~= u16_le(payload.len() as u16));
    assert(frame.subrange(HEADER_LEN as int, frame.len() - 4) =~= payload);
}

/// In every frame that the builder makes, the last four bytes, read as a
/// little-endian number, are the CRC-32 of all the bytes before them.
pub proof fn lemma_built_frame_checksum_validates(
    msg_type: MsgType,
    sequence: u32,
    timestamp_ms: u64,
    payload: Seq<u8>,
)
    requires
        payload.len() <= MAX_PAYLOAD_LEN,
    ensures
        checksum_validates(frame_bytes(msg_type, sequence, timestamp_ms, payload)),
{
    lemma_frame_layout(msg_type, sequence, timestamp_ms, payload);
    lemma_u32_round_trip(crc32_ieee(body_bytes(msg_type, sequence, timestamp_ms, payload)));
}

/// Decoding a built frame gives back the message type, the sequence number,
/// the timestamp and the payload that it was built from.
pub proof fn lemma_decode_recovers_built_frame(
    msg_type: MsgType,
    sequence: u32,
    timestamp_ms: u64,
    payload: Seq<u8>,
)
    requires
        payload.len() <= MAX_PAYLOAD_LEN,
    ensures
        decoded(frame_bytes(msg_type, sequence, timestamp_ms, payload)) == Ok::<
            FrameView,
            DecodeError,
        >(FrameView { msg_type, sequence, timestamp_ms, payload }),
{
    lemma_frame_layout(msg_type, sequence, timestamp_ms, payload);
    msg_type.lemma_code_round_trip();
    lemma_u32_round_trip(MAGIC);
    lemma_u32_round_trip(sequence);
    lemma_u64_round_trip(timestamp_ms);
    lemma_u16_round_trip(payload.len() as u16);
    lemma_u32_round_trip(crc32_ieee(body_bytes(msg_type, sequence, timestamp_ms, payload)));
}

/// What the receiver accepts is a frame whose checksum validates. Where its
/// two reserved flag bytes are zero, it is the very frame that the builder
/// makes of the content handed out.
pub proof fn lemma_accepted_frame_is_built(bytes: Seq<u8>)
    requires
        decoded(bytes) is Ok,
    ensures
        checksum_validates(bytes),
        decoded(bytes)->Ok_0.payload.len() <= MAX_PAYLOAD_LEN,
        bytes.len() == HEADER_LEN + decoded(bytes)->Ok_0.payload.len() + TRAILER_LEN,
        bytes[6] == 0 && bytes[7] == 0 ==> bytes == frame_bytes(
            decoded(bytes)->Ok_0.msg_type,
            decoded(bytes)->Ok_0.sequence,
            decoded(bytes)->Ok_0.timestamp_ms,
            decoded(bytes)->Ok_0.payload,
        ),
{
    let content = decoded(bytes)->Ok_0;
    let len = bytes.len() as int;
    let announced = u16_from_le(bytes.subrange(20, 22));
    assert(content.payload.len() == announced);
    lemma_u32_bytes_round_trip(bytes.subrange(0, 4));
    lemma_u32_bytes_round_trip(bytes.subrange(8, 12));
    lemma_u64_bytes_round_trip(bytes.subrange(12, 20));
    lemma_u16_bytes_round_trip(bytes.subrange(20, 22));
    lemma_u32_bytes_round_trip(bytes.subrange(len - 4, len));
    if bytes[6] == 0 && bytes[7] == 0 {
        let body = body_bytes(
            content.msg_type,
            content.sequence,
            content.timestamp_ms,
            content.payload,
        );
        assert(bytes.subrange(6, 8) =~= u16_le(0));
        assert(body =~= bytes.subrange(0, len - 4));
        assert(bytes =~= bytes.subrange(0, len - 4) + bytes.subrange(len - 4, len));
    }
}

} // verus!
