//! The receiving side: taking a frame apart and checking it.

use crate::checksum::crc32_ieee;
use crate::frame::{MsgType, HEADER_LEN, MAGIC, TRAILER_LEN, VERSION};
use crate::wire::{get_u16_le, get_u32_le, get_u64_le, u16_from_le, u32_from_le, u64_from_le};
use vstd::prelude::*;
use vstd::slice::{slice_subrange, slice_to_vec};

verus! {

/// Why a run of bytes is no frame. The checks are made in the order of the
/// variants, and the first that fails is reported.
#[derive(Clone, Copy, Debug, PartialEq, Eq, Structural)]
pub enum DecodeError {
    /// Fewer bytes than a header and a checksum take.
    TooShort,
    /// The first four bytes are not the magic number.
    BadMagic,
    /// A protocol version other than the one this library knows.
    UnsupportedVersion,
    /// A message type byte that stands for no type.
    UnknownMsgType,
    /// The announced payload length is not the number of bytes between
    /// header and checksum.
    LengthMismatch,
    /// The trailing checksum is not the CRC-32 of the bytes before it.
    ChecksumMismatch,
}

/// What a frame says, once taken apart.
#[derive(Clone, Debug, PartialEq, Eq)]
pub struct Frame {
    pub msg_type: MsgType,
    pub sequence: u32,
    pub timestamp_ms: u64,
    pub payload: Vec<u8>,
}

/// A frame's content as mathematical values.
pub struct FrameView {
    pub msg_type: MsgType,
    pub sequence: u32,
    pub timestamp_ms: u64,
    pub payload: Seq<u8>,
}

impl View for Frame {
    type V = FrameView;

    open spec fn view(&self) -> FrameView {
        FrameView {
            msg_type: self.msg_type,
            sequence: self.sequence,
            timestamp_ms: self.timestamp_ms,
            payload: self.payload@,
        }
    }
}

/// What a receiver makes of `bytes`, given the CRC-32 `crc` that it has
/// computed over all of them but the last four.
pub open spec fn checked(bytes: Seq<u8>, crc: u32) -> Result<FrameView, DecodeError> {
    let len = bytes.len() as int;
    if len < HEADER_LEN + TRAILER_LEN {
        Err(DecodeError::TooShort)
    } else if u32_from_le(bytes.subrange(0, 4)) != MAGIC {
        Err(DecodeError::BadMagic)
    } else if bytes[4] != VERSION {
        Err(DecodeError::UnsupportedVersion)
    } else if MsgType::from_code(bytes[5]) is None {
        Err(DecodeError::UnknownMsgType)
    } else if HEADER_LEN + u16_from_le(bytes.subrange(20, 22)) + TRAILER_LEN != len {
        Err(DecodeError::LengthMismatch)
    } else if u32_from_le(bytes.subrange(len - 4, len)) != crc {
        Err(DecodeError::ChecksumMismatch)
    } else {
        Ok(
            FrameView {
                msg_type: MsgType::from_code(bytes[5])->Some_0,
                sequence: u32_from_le(bytes.subrange(8, 12)),
                timestamp_ms: u64_from_le(bytes.subrange(12, 20)),
                payload: bytes.subrange(HEADER_LEN as int, len - 4),
            },
        )
    }
}

/// What a receiver makes of `bytes`.
pub open spec fn decoded(bytes: Seq<u8>) -> Result<FrameView, DecodeError> {
    if bytes.len() < HEADER_LEN + TRAILER_LEN {
        Err(DecodeError::TooShort)
    } else {
        checked(bytes, crc32_ieee(bytes.subrange(0, bytes.len() - 4)))
    }
}

/// Whether an outcome of the executable decoder is the outcome `expected`.
pub open spec fn outcome_is(
    r: Result<Frame, DecodeError>,
    expected: Result<FrameView, DecodeError>,
) -> bool {
    match r {
        Ok(frame) => expected == Ok::<FrameView, DecodeError>(frame@),
        Err(e) => expected == Err::<FrameView, DecodeError>(e),
    }
}

/// Takes `bytes` apart, given the CRC-32 `crc` of all of them but the last
/// four. The flag bytes are reserved and not looked at.
pub fn check_frame(bytes: &[u8], crc: u32) -> (r: Result<Frame, DecodeError>)
    ensures
        outcome_is(r, checked(bytes@, crc)),
{
    let len: usize = bytes.len();
    if len < HEADER_LEN + TRAILER_LEN {
        return Err(DecodeError::TooShort);
    }
    if get_u32_le(bytes, 0) != MAGIC {
        return Err(DecodeError::BadMagic);
    }
    if bytes[4] != VERSION {
        return Err(DecodeError::UnsupportedVersion);
    }
    let msg_type = match MsgType::from_code(bytes[5]) {
        Some(t) => t,
        None => {
            return Err(DecodeError::UnknownMsgType);
        },
    };
    let announced: usize = get_u16_le(bytes, 20) as usize;
    if announced != len - HEADER_LEN - TRAILER_LEN {
        return Err(DecodeError::LengthMismatch);
    }
    if get_u32_le(bytes, len - TRAILER_LEN) != crc {
        return Err(DecodeError::ChecksumMismatch);
    }
    let sequence: u32 = get_u32_le(bytes, 8);
    let timestamp_ms: u64 = get_u64_le(bytes, 12);
    let payload: Vec<u8> = slice_to_vec(slice_subrange(bytes, HEADER_LEN, len - TRAILER_LEN));
    Ok(Frame { msg_type, sequence, timestamp_ms, payload })
}

/// Takes a received frame apart: checks magic, version, message type,
/// announced length and checksum, in that order, and hands out the content.
pub fn decode_frame(bytes: &[u8]) -> (r: Result<Frame, DecodeError>)
    ensures
        outcome_is(r, decoded(bytes@)),
{
    let len: usize = bytes.len();
    if len < HEADER_LEN + TRAILER_LEN {
        return Err(DecodeError::TooShort);
    }
    let crc: u32 = crc32fast::hash(slice_subrange(bytes, 0, len - TRAILER_LEN));
    check_frame(bytes, crc)
}

} // verus!
