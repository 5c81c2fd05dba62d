//! A fixed-point, multi-channel audio mixing engine with a catalog of
//! waveform generators, plus a small line-oriented tokenizing utility.
//!
//! All quantities are integers: a generator's phase is a position in
//! `[0, PHASE_MODULUS)` (one full waveform cycle), frequencies are given in
//! millihertz, and samples are fixed-point values scaled by `SAMPLE_UNIT`
//! (so `SAMPLE_UNIT` stands for 1.0 and `-SAMPLE_UNIT` for -1.0).

pub mod mixer;
pub mod tokenizing;
pub mod sources;

use vstd::prelude::*;

verus! {

/// Samples per second drawn from every source and from the mixer.
pub const SAMPLE_RATE: u32 = 41000;

/// Frequencies are measured in millihertz (thousandths of a hertz).
pub const FREQUENCY_SCALE: u32 = 1000;

/// One full waveform cycle, in phase units: a source at `f` millihertz
/// advances its phase by `f` units per pulled sample, modulo this constant.
pub const PHASE_MODULUS: u64 = 41_000_000;

/// The fixed-point scale of samples: this value stands for 1.0.
pub const SAMPLE_UNIT: i64 = 1_000_000;

/// Phase advance for one pulled sample: the phase moves by the frequency
/// (in millihertz) and wraps at the end of the cycle.
pub open spec fn next_phase(phase: u64, frequency: u32) -> u64 {
    ((phase + frequency) % (PHASE_MODULUS as int)) as u64
}

/// Advance a phase by one sample at the given frequency.
pub fn advance_phase(phase: u64, frequency: u32) -> (r: u64)
    requires
        phase < PHASE_MODULUS,
    ensures
        r == next_phase(phase, frequency),
        r < PHASE_MODULUS,
{
    (phase + frequency as u64) % PHASE_MODULUS
}

} // verus!
