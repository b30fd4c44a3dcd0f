//! Fabricated readings: plausible values drawn at random.

use crate::telemetry::TelemetrySample;
use rand::rngs::ThreadRng;
use rand::Rng;
use vstd::prelude::*;

verus! {

/// Lowest signal-to-noise ratio that is drawn, in tenths of a dB.
pub const SNR_X10_MIN: i16 = 80;

/// Signal-to-noise ratios are drawn below this, in tenths of a dB.
pub const SNR_X10_END: i16 = 180;

/// Above this signal-to-noise ratio, in tenths of a dB, a node has lock.
pub const LOCK_THRESHOLD_X10: i16 = 95;

/// Bit-error rates are drawn below this, in parts per billion.
pub const BER_PPB_END: u32 = 50_000;

/// Lowest temperature that is drawn, in tenths of a degree Celsius.
pub const TEMP_C_X10_MIN: i16 = 180;

/// Temperatures are drawn below this, in tenths of a degree Celsius.
pub const TEMP_C_X10_END: i16 = 420;

/// Lowest CPU load that is drawn, in percent.
pub const CPU_PCT_MIN: u8 = 10;

/// CPU loads are drawn below this, in percent.
pub const CPU_PCT_END: u8 = 85;

/// `rand`'s handle to the generator of the current thread.
#[verifier::external_type_specification]
#[verifier::external_body]
pub struct ExThreadRng(ThreadRng);

/// `Rng::gen_range` on a half-open range of `i16`. It panics on an empty
/// range, which `requires` leaves out. Claimed, not proved: the number drawn
/// lies in the range. Which number it is depends on the generator's state.
#[verifier::external_body]
fn draw_i16(rng: &mut ThreadRng, low: i16, end: i16) -> (x: i16)
    requires
        low < end,
    ensures
        low <= x < end,
{
    rng.gen_range(low..end)
}

/// `Rng::gen_range` on a half-open range of `u32`. It panics on an empty
/// range, which `requires` leaves out. Claimed, not proved: the number drawn
/// lies in the range. Which number it is depends on the generator's state.
#[verifier::external_body]
fn draw_u32(rng: &mut ThreadRng, low: u32, end: u32) -> (x: u32)
    requires
        low < end,
    ensures
        low <= x < end,
{
    rng.gen_range(low..end)
}

/// `Rng::gen_range` on a half-open range of `u8`. It panics on an empty
/// range, which `requires` leaves out. Claimed, not proved: the number drawn
/// lies in the range. Which number it is depends on the generator's state.
#[verifier::external_body]
fn draw_u8(rng: &mut ThreadRng, low: u8, end: u8) -> (x: u8)
    requires
        low < end,
    ensures
        low <= x < end,
{
    rng.gen_range(low..end)
}

/// The lock status that goes with a signal-to-noise ratio.
pub open spec fn lock_for(snr_x10: i16) -> u8 {
    if snr_x10 > LOCK_THRESHOLD_X10 {
        1
    } else {
        0
    }
}

/// The sample that a node's readings make: the lock status follows from
/// the signal-to-noise ratio, the rest is taken as it stands.
pub open spec fn sample_of(
    node_id: u16,
    snr_x10: i16,
    ber_ppb: u32,
    temp_c_x10: i16,
    cpu_pct: u8,
) -> TelemetrySample {
    TelemetrySample { node_id, snr_x10, ber_ppb, lock: lock_for(snr_x10), temp_c_x10, cpu_pct }
}

/// Whether `s` is a sample that the generator can make for `node_id`.
pub open spec fn plausible(s: TelemetrySample, node_id: u16) -> bool {
    &&& s.node_id == node_id
    &&& SNR_X10_MIN <= s.snr_x10 < SNR_X10_END
    &&& s.ber_ppb < BER_PPB_END
    &&& s.lock == lock_for(s.snr_x10)
    &&& TEMP_C_X10_MIN <= s.temp_c_x10 < TEMP_C_X10_END
    &&& CPU_PCT_MIN <= s.cpu_pct < CPU_PCT_END
}

/// Makes a sample of a node's readings.
pub fn sample_from_readings(
    node_id: u16,
    snr_x10: i16,
    ber_ppb: u32,
    temp_c_x10: i16,
    cpu_pct: u8,
) -> (s: TelemetrySample)
    ensures
        s == sample_of(node_id, snr_x10, ber_ppb, temp_c_x10, cpu_pct),
{
    let lock: u8 = if snr_x10 > LOCK_THRESHOLD_X10 {
        1
    } else {
        0
    };
    TelemetrySample { node_id, snr_x10, ber_ppb, lock, temp_c_x10, cpu_pct }
}

/// Fabricates a sample for `node_id`. Which readings are drawn is up to the
/// generator; they lie in the plausible ranges.
pub fn generate_sample(rng: &mut ThreadRng, node_id: u16) -> (s: TelemetrySample)
    ensures
        plausible(s, node_id),
{
    let snr_x10: i16 = draw_i16(rng, SNR_X10_MIN, SNR_X10_END);
    let ber_ppb: u32 = draw_u32(rng, 0, BER_PPB_END);
    let temp_c_x10: i16 = draw_i16(rng, TEMP_C_X10_MIN, TEMP_C_X10_END);
    let cpu_pct: u8 = draw_u8(rng, CPU_PCT_MIN, CPU_PCT_END);
    sample_from_readings(node_id, snr_x10, ber_ppb, temp_c_x10, cpu_pct)
}

} // verus!
