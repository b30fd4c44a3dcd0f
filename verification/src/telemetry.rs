//! The telemetry payload: one sample in twelve bytes.

use crate::wire::{i16_le, put_i16_le, put_u16_le, put_u32_le, put_u8, u16_le, u32_le};
use vstd::prelude::*;

verus! {

/// Bytes in an encoded sample.
pub const PAYLOAD_LEN: usize = 12;

/// A snapshot of one node. The fields are not range-checked: a lock status
/// or a CPU load beyond what is expected is encoded as it stands.
#[derive(Clone, Copy, Debug, PartialEq, Eq, Structural)]
pub struct TelemetrySample {
    /// Which node the sample is from.
    pub node_id: u16,
    /// Signal-to-noise ratio, in tenths of a dB.
    pub snr_x10: i16,
    /// Bit-error rate, in parts per billion.
    pub ber_ppb: u32,
    /// 1 if the receiver has signal lock, else 0.
    pub lock: u8,
    /// Temperature, in tenths of a degree Celsius.
    pub temp_c_x10: i16,
    /// CPU load, in percent.
    pub cpu_pct: u8,
}

/// The encoded sample: the six fields in their declared order, each
/// little-endian.
pub open spec fn telemetry_bytes(
    node_id: u16,
    snr_x10: i16,
    ber_ppb: u32,
    lock: u8,
    temp_c_x10: i16,
    cpu_pct: u8,
) -> Seq<u8> {
    u16_le(node_id) + i16_le(snr_x10) + u32_le(ber_ppb) + seq![lock] + i16_le(temp_c_x10)
        + seq![cpu_pct]
}

impl TelemetrySample {
    /// The encoded sample.
    pub open spec fn bytes(self) -> Seq<u8> {
        telemetry_bytes(
            self.node_id,
            self.snr_x10,
            self.ber_ppb,
            self.lock,
            self.temp_c_x10,
            self.cpu_pct,
        )
    }

    /// Encodes the sample.
    pub fn encode(&self) -> (p: Vec<u8>)
        ensures
            p@ == self.bytes(),
            p@.len() == PAYLOAD_LEN,
    {
        build_telemetry_payload(
            self.node_id,
            self.snr_x10,
            self.ber_ppb,
            self.lock,
            self.temp_c_x10,
            self.cpu_pct,
        )
    }
}

/// Encodes one sample. The result has twelve bytes whatever the fields hold.
pub fn build_telemetry_payload(
    node_id: u16,
    snr_x10: i16,
    ber_ppb: u32,
    lock: u8,
    temp_c_x10: i16,
    cpu_pct: u8,
) -> (p: Vec<u8>)
    ensures
        p@ == telemetry_bytes(node_id, snr_x10, ber_ppb, lock, temp_c_x10, cpu_pct),
        p@.len() == PAYLOAD_LEN,
{
    let mut p: Vec<u8> = Vec::with_capacity(PAYLOAD_LEN);
    put_u16_le(&mut p, node_id);
    put_i16_le(&mut p, snr_x10);
    put_u32_le(&mut p, ber_ppb);
    put_u8(&mut p, lock);
    put_i16_le(&mut p, temp_c_x10);
    put_u8(&mut p, cpu_pct);
    p
}

} // verus!
