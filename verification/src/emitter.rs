//! The sending side's state: which sequence number the next frame gets.

use crate::clock::{now_ms, ClockError};
use crate::frame::{build_frame, frame_bytes, MsgType};
use crate::generator::{generate_sample, plausible};
use crate::telemetry::TelemetrySample;
use rand::rngs::ThreadRng;
use vstd::prelude::*;

verus! {

/// The sequence number after `seq`: one more, and zero after the largest.
pub open spec fn next_sequence_spec(seq: u32) -> u32 {
    if seq == u32::MAX {
        0
    } else {
        (seq + 1) as u32
    }
}

/// The sequence number after `seq`: one more, and zero after the largest.
#[verifier::when_used_as_spec(next_sequence_spec)]
pub fn next_sequence(seq: u32) -> (next: u32)
    ensures
        next == next_sequence_spec(seq),
{
    seq.wrapping_add(1)
}

/// A sender of telemetry frames. It numbers its frames in turn.
#[derive(Clone, Copy, Debug, PartialEq, Eq, Structural)]
pub struct Emitter {
    /// The sequence number of the next frame.
    pub sequence: u32,
}

impl Emitter {
    /// A sender whose first frame has the sequence number zero.
    pub fn new() -> (e: Emitter)
        ensures
            e.sequence == 0,
    {
        Emitter { sequence: 0 }
    }

    /// Frames `sample` with the time `unix_ms` and the next sequence
    /// number, and moves on to the number after it.
    pub fn emit(&mut self, sample: &TelemetrySample, unix_ms: u64) -> (frame: Vec<u8>)
        ensures
            frame@ == frame_bytes(
                MsgType::Telemetry,
                old(self).sequence,
                unix_ms,
                sample.bytes(),
            ),
            final(self).sequence == next_sequence(old(self).sequence),
    {
        let payload = sample.encode();
        let frame = build_frame(MsgType::Telemetry, self.sequence, unix_ms, payload.as_slice())
            .unwrap();
        self.sequence = next_sequence(self.sequence);
        frame
    }

    /// Frames `sample` with what the clock gave. A good reading is framed as
    /// `emit` frames it. A failed one is handed on: no frame is made and the
    /// sequence number stays.
    pub fn emit_reading(&mut self, sample: &TelemetrySample, reading: Result<u64, ClockError>) -> (r:
        Result<Vec<u8>, ClockError>)
        ensures
            match reading {
                Ok(unix_ms) => {
                    &&& r is Ok
                    &&& r->Ok_0@ == frame_bytes(
                        MsgType::Telemetry,
                        old(self).sequence,
                        unix_ms,
                        sample.bytes(),
                    )
                    &&& final(self).sequence == next_sequence(old(self).sequence)
                },
                Err(e) => {
                    &&& r == Err::<Vec<u8>, ClockError>(e)
                    &&& final(self).sequence == old(self).sequence
                },
            },
    {
        match reading {
            Ok(unix_ms) => Ok(self.emit(sample, unix_ms)),
            Err(e) => Err(e),
        }
    }

    /// Fabricates a sample for `node_id`, reads the clock, and frames the
    /// sample. Where the clock fails, no frame is made and the sequence
    /// number stays.
    pub fn next_frame(&mut self, rng: &mut ThreadRng, node_id: u16) -> (r: Result<
        Vec<u8>,
        ClockError,
    >)
        ensures
            match r {
                Ok(frame) => {
                    &&& final(self).sequence == next_sequence(old(self).sequence)
                    &&& exists|sample: TelemetrySample, unix_ms: u64|
                        plausible(sample, node_id) && #[trigger] frame_bytes(
                            MsgType::Telemetry,
                            old(self).sequence,
                            unix_ms,
                            sample.bytes(),
                        ) == frame@
                },
                Err(_) => final(self).sequence == old(self).sequence,
            },
    {
        let sample = generate_sample(rng, node_id);
        let reading = now_ms();
        self.emit_reading(&sample, reading)
    }
}

} // verus!
