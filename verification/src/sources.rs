//! The waveform catalog: every generator advances an integer phase in
//! `[0, PHASE_MODULUS)` by its frequency (in millihertz) once per pulled
//! sample, and maps the phase it had before the advance to a fixed-point
//! sample scaled by `SAMPLE_UNIT`.
//!
//! The two sine-shaped generators use Bhaskara I's rational approximation of
//! the sine, which keeps every computation in integers; the spec functions
//! below are the exact definition of what each generator returns.

use vstd::prelude::*;
use vstd::arithmetic::div_mod::{
    lemma_add_mod_noop_right, lemma_div_by_multiple, lemma_div_is_ordered, lemma_div_pos_is_pos,
    lemma_fundamental_div_mod, lemma_mod_division_less_than_divisor, lemma_mod_self_0,
    lemma_multiply_divide_le, lemma_small_mod,
};
use crate::{next_phase, advance_phase, PHASE_MODULUS, SAMPLE_RATE, SAMPLE_UNIT};

verus! {

/// The largest magnitude any source's sample may have: the white-noise
/// generator stays within six standard deviations of zero by construction,
/// and every other generator stays within one `SAMPLE_UNIT`.
pub const SAMPLE_LIMIT: i64 = 6_000_000;

/// Square wave: +1 while the phase is in the first half of the cycle, -1 after.
pub open spec fn square_sample(p: u64) -> int {
    if 2 * p < PHASE_MODULUS {
        SAMPLE_UNIT as int
    } else {
        -(SAMPLE_UNIT as int)
    }
}

/// Sawtooth wave: rises linearly from -1 to 1 over the cycle.
pub open spec fn sawtooth_sample(p: u64) -> int {
    2 * p * SAMPLE_UNIT / (PHASE_MODULUS as int) - SAMPLE_UNIT
}

/// Triangle wave: rises linearly from -1 to 1 over the first half of the
/// cycle, then falls back to -1.
pub open spec fn triangle_sample(p: u64) -> int {
    if 2 * p < PHASE_MODULUS {
        4 * p * SAMPLE_UNIT / (PHASE_MODULUS as int) - SAMPLE_UNIT
    } else {
        3 * SAMPLE_UNIT - 4 * p * SAMPLE_UNIT / (PHASE_MODULUS as int)
    }
}

/// Semi-triangle wave: a four-segment ramp, -1 up to 1, down to 0, up to 1,
/// down to -1 across the quarters of the cycle.
pub open spec fn semi_triangle_sample(p: u64) -> int {
    if 4 * p <= PHASE_MODULUS {
        8 * p * SAMPLE_UNIT / (PHASE_MODULUS as int) - SAMPLE_UNIT
    } else if 2 * p <= PHASE_MODULUS {
        2 * SAMPLE_UNIT - 4 * p * SAMPLE_UNIT / (PHASE_MODULUS as int)
    } else if 4 * p <= 3 * PHASE_MODULUS {
        4 * p * SAMPLE_UNIT / (PHASE_MODULUS as int) - 2 * SAMPLE_UNIT
    } else {
        7 * SAMPLE_UNIT - 8 * p * SAMPLE_UNIT / (PHASE_MODULUS as int)
    }
}

/// Step-square wave: a four-level staircase, -1, 0, 1, 0 across the quarters
/// of the cycle.
pub open spec fn step_square_sample(p: u64) -> int {
    if 4 * p <= PHASE_MODULUS {
        -(SAMPLE_UNIT as int)
    } else if 2 * p <= PHASE_MODULUS {
        0
    } else if 4 * p <= 3 * PHASE_MODULUS {
        SAMPLE_UNIT as int
    } else {
        0
    }
}

/// Bhaskara I's rational approximation of `sin(pi * t / PHASE_MODULUS)`,
/// scaled by `SAMPLE_UNIT`: `16 w (1 - w) / (5 - 4 w (1 - w))` with
/// `w = t / PHASE_MODULUS`, evaluated entirely in integers.
pub open spec fn half_sine_units(t: int) -> int {
    let w = t * (PHASE_MODULUS - t) / (PHASE_MODULUS as int);
    16 * SAMPLE_UNIT * w / (5 * PHASE_MODULUS - 4 * w)
}

/// Sine wave: the positive sine arch over the first half of the cycle, its
/// mirror image below zero over the second half.
pub open spec fn sine_sample(p: u64) -> int {
    if 2 * p < PHASE_MODULUS {
        half_sine_units(2 * p)
    } else {
        -half_sine_units(2 * p - PHASE_MODULUS)
    }
}

/// Semi-sine wave: one positive sine arch per cycle, rescaled from [0, 1] to
/// [-1, 1].
pub open spec fn semi_sine_sample(p: u64) -> int {
    2 * half_sine_units(p as int) - SAMPLE_UNIT
}

/// The sine approximation stays within [0, 1] on the half cycle, and its
/// intermediate ratio stays within a quarter cycle.
pub proof fn lemma_half_sine_bounds(t: int)
    requires
        0 <= t <= PHASE_MODULUS,
    ensures
        0 <= half_sine_units(t) <= SAMPLE_UNIT,
        0 <= t * (PHASE_MODULUS - t) / (PHASE_MODULUS as int) <= PHASE_MODULUS / 4,
{
    let m = PHASE_MODULUS as int;
    let u = SAMPLE_UNIT as int;
    let q = t * (m - t);
    assert(0 <= q && 4 * q <= m * m) by (nonlinear_arith)
        requires
            0 <= t <= m,
            q == t * (m - t),
    ;
    assert(q <= m * m / 4);
    let w = q / m;
    lemma_div_pos_is_pos(q, m);
    lemma_div_is_ordered(q, m * m / 4, m);
    assert(m * m / 4 == (m / 4) * m);
    lemma_div_by_multiple(m / 4, m);
    assert(w <= m / 4);
    let num = 16 * u * w;
    let den = 5 * m - 4 * w;
    assert(den >= 4 * m);
    assert(num >= 0) by (nonlinear_arith)
        requires
            w >= 0,
            u > 0,
            num == 16 * u * w,
    ;
    assert(num <= den * u) by (nonlinear_arith)
        requires
            num == 16 * u * w,
            den == 5 * m - 4 * w,
            4 * w <= m,
            u > 0,
    ;
    lemma_div_pos_is_pos(num, den);
    lemma_multiply_divide_le(num, den, u);
}

/// Every deterministic waveform keeps its samples within [-1, 1]
/// (in fixed point: within `SAMPLE_UNIT` of zero) for every phase.
pub proof fn lemma_wave_samples_bounded(p: u64)
    requires
        p < PHASE_MODULUS,
    ensures
        -SAMPLE_UNIT <= square_sample(p) <= SAMPLE_UNIT,
        -SAMPLE_UNIT <= sawtooth_sample(p) <= SAMPLE_UNIT,
        -SAMPLE_UNIT <= triangle_sample(p) <= SAMPLE_UNIT,
        -SAMPLE_UNIT <= semi_triangle_sample(p) <= SAMPLE_UNIT,
        -SAMPLE_UNIT <= step_square_sample(p) <= SAMPLE_UNIT,
        -SAMPLE_UNIT <= sine_sample(p) <= SAMPLE_UNIT,
        -SAMPLE_UNIT <= semi_sine_sample(p) <= SAMPLE_UNIT,
{
    let m = PHASE_MODULUS as int;
    let u = SAMPLE_UNIT as int;
    lemma_ramp_between(2 * p, 0, 2);
    if 2 * p < PHASE_MODULUS {
        lemma_ramp_between(4 * p, 0, 2);
        lemma_half_sine_bounds(2 * p);
    } else {
        lemma_ramp_between(4 * p, 2, 4);
        lemma_half_sine_bounds(2 * p - m);
    }
    lemma_half_sine_bounds(p as int);
    if 4 * p <= PHASE_MODULUS {
        lemma_ramp_between(8 * p, 0, 2);
    } else if 2 * p <= PHASE_MODULUS {
        lemma_ramp_between(4 * p, 1, 2);
    } else if 4 * p <= 3 * PHASE_MODULUS {
        lemma_ramp_between(4 * p, 2, 3);
    } else {
        lemma_ramp_between(8 * p, 6, 8);
    }
}

/// A scaled ramp `k * SAMPLE_UNIT / PHASE_MODULUS` lies between `lo` and `hi`
/// units while `k` lies between `lo` and `hi` cycles.
proof fn lemma_ramp_between(k: int, lo: int, hi: int)
    requires
        0 <= lo <= hi,
        lo * (PHASE_MODULUS as int) <= k <= hi * (PHASE_MODULUS as int),
    ensures
        lo * SAMPLE_UNIT <= k * SAMPLE_UNIT / (PHASE_MODULUS as int) <= hi * SAMPLE_UNIT,
{
    let m = PHASE_MODULUS as int;
    let u = SAMPLE_UNIT as int;
    assert(lo * u >= 0 && hi * u >= 0) by (nonlinear_arith)
        requires
            0 <= lo <= hi,
            u > 0,
    ;
    assert((lo * u) * m <= k * u <= (hi * u) * m) by (nonlinear_arith)
        requires
            lo * m <= k <= hi * m,
            u > 0,
            m == PHASE_MODULUS as int,
    ;
    lemma_div_is_ordered((lo * u) * m, k * u, m);
    lemma_div_is_ordered(k * u, (hi * u) * m, m);
    lemma_div_by_multiple(lo * u, m);
    lemma_div_by_multiple(hi * u, m);
}

fn square_sample_at(p: u64) -> (r: i64)
    requires
        p < PHASE_MODULUS,
    ensures
        r == square_sample(p),
{
    if 2 * p < PHASE_MODULUS {
        SAMPLE_UNIT
    } else {
        -SAMPLE_UNIT
    }
}

fn sawtooth_sample_at(p: u64) -> (r: i64)
    requires
        p < PHASE_MODULUS,
    ensures
        r == sawtooth_sample(p),
{
    proof {
        lemma_ramp_between(2 * (p as int), 0, 2);
    }
    let q: u64 = 2 * p * (SAMPLE_UNIT as u64) / PHASE_MODULUS;
    (q as i64) - SAMPLE_UNIT
}

fn triangle_sample_at(p: u64) -> (r: i64)
    requires
        p < PHASE_MODULUS,
    ensures
        r == triangle_sample(p),
{
    if 2 * p < PHASE_MODULUS {
        proof {
            lemma_ramp_between(4 * (p as int), 0, 2);
        }
        let q: u64 = 4 * p * (SAMPLE_UNIT as u64) / PHASE_MODULUS;
        (q as i64) - SAMPLE_UNIT
    } else {
        proof {
            lemma_ramp_between(4 * (p as int), 2, 4);
        }
        let q: u64 = 4 * p * (SAMPLE_UNIT as u64) / PHASE_MODULUS;
        3 * SAMPLE_UNIT - (q as i64)
    }
}

fn semi_triangle_sample_at(p: u64) -> (r: i64)
    requires
        p < PHASE_MODULUS,
    ensures
        r == semi_triangle_sample(p),
{
    if 4 * p <= PHASE_MODULUS {
        proof {
            lemma_ramp_between(8 * (p as int), 0, 2);
        }
        let q: u64 = 8 * p * (SAMPLE_UNIT as u64) / PHASE_MODULUS;
        (q as i64) - SAMPLE_UNIT
    } else if 2 * p <= PHASE_MODULUS {
        proof {
            lemma_ramp_between(4 * (p as int), 1, 2);
        }
        let q: u64 = 4 * p * (SAMPLE_UNIT as u64) / PHASE_MODULUS;
        2 * SAMPLE_UNIT - (q as i64)
    } else if 4 * p <= 3 * PHASE_MODULUS {
        proof {
            lemma_ramp_between(4 * (p as int), 2, 3);
        }
        let q: u64 = 4 * p * (SAMPLE_UNIT as u64) / PHASE_MODULUS;
        (q as i64) - 2 * SAMPLE_UNIT
    } else {
        proof {
            lemma_ramp_between(8 * (p as int), 6, 8);
        }
        let q: u64 = 8 * p * (SAMPLE_UNIT as u64) / PHASE_MODULUS;
        7 * SAMPLE_UNIT - (q as i64)
    }
}

fn step_square_sample_at(p: u64) -> (r: i64)
    requires
        p < PHASE_MODULUS,
    ensures
        r == step_square_sample(p),
{
    if 4 * p <= PHASE_MODULUS {
        -SAMPLE_UNIT
    } else if 2 * p <= PHASE_MODULUS {
        0
    } else if 4 * p <= 3 * PHASE_MODULUS {
        SAMPLE_UNIT
    } else {
        0
    }
}

fn half_sine_at(t: u64) -> (r: i64)
    requires
        t <= PHASE_MODULUS,
    ensures
        r == half_sine_units(t as int),
        0 <= r <= SAMPLE_UNIT,
{
    proof {
        lemma_half_sine_bounds(t as int);
        assert((t as int) * ((PHASE_MODULUS - t) as int) <= (PHASE_MODULUS as int) * (
        PHASE_MODULUS as int)) by (nonlinear_arith)
            requires
                0 <= t <= PHASE_MODULUS,
        ;
    }
    let w: u64 = t * (PHASE_MODULUS - t) / PHASE_MODULUS;
    let num: u64 = 16 * (SAMPLE_UNIT as u64) * w;
    let den: u64 = 5 * PHASE_MODULUS - 4 * w;
    (num / den) as i64
}

fn sine_sample_at(p: u64) -> (r: i64)
    requires
        p < PHASE_MODULUS,
    ensures
        r == sine_sample(p),
{
    if 2 * p < PHASE_MODULUS {
        half_sine_at(2 * p)
    } else {
        -half_sine_at(2 * p - PHASE_MODULUS)
    }
}

fn semi_sine_sample_at(p: u64) -> (r: i64)
    requires
        p < PHASE_MODULUS,
    ensures
        r == semi_sine_sample(p),
{
    2 * half_sine_at(p) - SAMPLE_UNIT
}

/// Relies on `rand::random`: a value drawn from the thread-local generator.
/// Nothing is assumed of the result; callers state what holds of every
/// outcome.
pub assume_specification<T>[ rand::random::<T> ]() -> (r: T)
    where
        rand::distributions::Standard: rand::distributions::Distribution<T>,
;

/// One white-noise sample: the sum of twelve independent uniform draws,
/// centered on zero, which approximates a normal distribution with a standard
/// deviation of one `SAMPLE_UNIT` and stays within six of them.
fn noise_sample() -> (r: i64)
    ensures
        -SAMPLE_LIMIT <= r <= SAMPLE_LIMIT,
{
    let mut acc: i64 = 0;
    let mut k: u32 = 0;
    while k < 12
        invariant
            k <= 12,
            0 <= acc <= k * 1_000_000,
        decreases 12 - k,
    {
        let d: u64 = rand::random::<u64>();
        acc = acc + ((d % 1_000_000) as i64);
        k = k + 1;
    }
    acc - SAMPLE_LIMIT
}


#[derive(Clone, Copy, Debug, PartialEq, Structural)]
/// A square wave source, with adjustable frequency: toggles between 1 and -1 at mid-cycle.
pub struct SquareWave {
    pub phase: u64,
    pub frequency: u32,
}

impl SquareWave {
    /// The generator's invariant: the phase lies within one cycle.
    pub open spec fn wf(self) -> bool {
        self.phase < PHASE_MODULUS
    }

    /// Create a new square wave source with the given frequency, in millihertz.
    pub fn new(frequency: u32) -> (s: SquareWave)
        ensures
            s.phase == 0,
            s.frequency == frequency,
            s.wf(),
    {
        SquareWave { phase: 0, frequency }
    }

    /// Pull one sample: the value at the current phase; the phase then
    /// advances by the frequency.
    pub fn next(&mut self) -> (r: i64)
        requires
            old(self).wf(),
        ensures
            r == square_sample(old(self).phase),
            final(self).phase == next_phase(old(self).phase, old(self).frequency),
            final(self).frequency == old(self).frequency,
            final(self).wf(),
    {
        let r = square_sample_at(self.phase);
        self.phase = advance_phase(self.phase, self.frequency);
        r
    }

    /// Overwrite the frequency, in millihertz. The phase is untouched, so the
    /// change shows only in the advance of pulls made after this call.
    pub fn set_frequency(&mut self, frequency: u32)
        ensures
            final(self).phase == old(self).phase,
            final(self).frequency == frequency,
    {
        self.frequency = frequency;
    }

    /// This source is mono.
    pub fn channels(&self) -> (c: u16)
        ensures
            c == 1,
    {
        1
    }

    /// The engine-wide sample rate.
    pub fn sample_rate(&self) -> (r: u32)
        ensures
            r == SAMPLE_RATE,
    {
        SAMPLE_RATE
    }

    /// The stream is not organized in frames.
    pub fn current_frame_len(&self) -> (r: Option<usize>)
        ensures
            r is None,
    {
        None
    }

    /// The stream never ends.
    pub fn total_duration(&self) -> (r: Option<u64>)
        ensures
            r is None,
    {
        None
    }
}

#[derive(Clone, Copy, Debug, PartialEq, Structural)]
/// A sawtooth wave source, with adjustable frequency: rises linearly, then drops back instantly.
pub struct SawtoothWave {
    pub phase: u64,
    pub frequency: u32,
}

impl SawtoothWave {
    /// The generator's invariant: the phase lies within one cycle.
    pub open spec fn wf(self) -> bool {
        self.phase < PHASE_MODULUS
    }

    /// Create a new sawtooth wave source with the given frequency, in millihertz.
    pub fn new(frequency: u32) -> (s: SawtoothWave)
        ensures
            s.phase == 0,
            s.frequency == frequency,
            s.wf(),
    {
        SawtoothWave { phase: 0, frequency }
    }

    /// Pull one sample: the value at the current phase; the phase then
    /// advances by the frequency.
    pub fn next(&mut self) -> (r: i64)
        requires
            old(self).wf(),
        ensures
            r == sawtooth_sample(old(self).phase),
            final(self).phase == next_phase(old(self).phase, old(self).frequency),
            final(self).frequency == old(self).frequency,
            final(self).wf(),
    {
        let r = sawtooth_sample_at(self.phase);
        self.phase = advance_phase(self.phase, self.frequency);
        r
    }

    /// Overwrite the frequency, in millihertz. The phase is untouched, so the
    /// change shows only in the advance of pulls made after this call.
    pub fn set_frequency(&mut self, frequency: u32)
        ensures
            final(self).phase == old(self).phase,
            final(self).frequency == frequency,
    {
        self.frequency = frequency;
    }

    /// This source is mono.
    pub fn channels(&self) -> (c: u16)
        ensures
            c == 1,
    {
        1
    }

    /// The engine-wide sample rate.
    pub fn sample_rate(&self) -> (r: u32)
        ensures
            r == SAMPLE_RATE,
    {
        SAMPLE_RATE
    }

    /// The stream is not organized in frames.
    pub fn current_frame_len(&self) -> (r: Option<usize>)
        ensures
            r is None,
    {
        None
    }

    /// The stream never ends.
    pub fn total_duration(&self) -> (r: Option<u64>)
        ensures
            r is None,
    {
        None
    }
}

#[derive(Clone, Copy, Debug, PartialEq, Structural)]
/// A triangle wave source, with adjustable frequency: rises linearly, then falls linearly.
pub struct TriangleWave {
    pub phase: u64,
    pub frequency: u32,
}

impl TriangleWave {
    /// The generator's invariant: the phase lies within one cycle.
    pub open spec fn wf(self) -> bool {
        self.phase < PHASE_MODULUS
    }

    /// Create a new triangle wave source with the given frequency, in millihertz.
    pub fn new(frequency: u32) -> (s: TriangleWave)
        ensures
            s.phase == 0,
            s.frequency == frequency,
            s.wf(),
    {
        TriangleWave { phase: 0, frequency }
    }

    /// Pull one sample: the value at the current phase; the phase then
    /// advances by the frequency.
    pub fn next(&mut self) -> (r: i64)
        requires
            old(self).wf(),
        ensures
            r == triangle_sample(old(self).phase),
            final(self).phase == next_phase(old(self).phase, old(self).frequency),
            final(self).frequency == old(self).frequency,
            final(self).wf(),
    {
        let r = triangle_sample_at(self.phase);
        self.phase = advance_phase(self.phase, self.frequency);
        r
    }

    /// Overwrite the frequency, in millihertz. The phase is untouched, so the
    /// change shows only in the advance of pulls made after this call.
    pub fn set_frequency(&mut self, frequency: u32)
        ensures
            final(self).phase == old(self).phase,
            final(self).frequency == frequency,
    {
        self.frequency = frequency;
    }

    /// This source is mono.
    pub fn channels(&self) -> (c: u16)
        ensures
            c == 1,
    {
        1
    }

    /// The engine-wide sample rate.
    pub fn sample_rate(&self) -> (r: u32)
        ensures
            r == SAMPLE_RATE,
    {
        SAMPLE_RATE
    }

    /// The stream is not organized in frames.
    pub fn current_frame_len(&self) -> (r: Option<usize>)
        ensures
            r is None,
    {
        None
    }

    /// The stream never ends.
    pub fn total_duration(&self) -> (r: Option<u64>)
        ensures
            r is None,
    {
        None
    }
}

#[derive(Clone, Copy, Debug, PartialEq, Structural)]
/// A sine wave source, with adjustable frequency: a full sine cycle, by a rational approximation.
pub struct SineWave {
    pub phase: u64,
    pub frequency: u32,
}

impl SineWave {
    /// The generator's invariant: the phase lies within one cycle.
    pub open spec fn wf(self) -> bool {
        self.phase < PHASE_MODULUS
    }

    /// Create a new sine wave source with the given frequency, in millihertz.
    pub fn new(frequency: u32) -> (s: SineWave)
        ensures
            s.phase == 0,
            s.frequency == frequency,
            s.wf(),
    {
        SineWave { phase: 0, frequency }
    }

    /// Pull one sample: the value at the current phase; the phase then
    /// advances by the frequency.
    pub fn next(&mut self) -> (r: i64)
        requires
            old(self).wf(),
        ensures
            r == sine_sample(old(self).phase),
            final(self).phase == next_phase(old(self).phase, old(self).frequency),
            final(self).frequency == old(self).frequency,
            final(self).wf(),
    {
        let r = sine_sample_at(self.phase);
        self.phase = advance_phase(self.phase, self.frequency);
        r
    }

    /// Overwrite the frequency, in millihertz. The phase is untouched, so the
    /// change shows only in the advance of pulls made after this call.
    pub fn set_frequency(&mut self, frequency: u32)
        ensures
            final(self).phase == old(self).phase,
            final(self).frequency == frequency,
    {
        self.frequency = frequency;
    }

    /// This source is mono.
    pub fn channels(&self) -> (c: u16)
        ensures
            c == 1,
    {
        1
    }

    /// The engine-wide sample rate.
    pub fn sample_rate(&self) -> (r: u32)
        ensures
            r == SAMPLE_RATE,
    {
        SAMPLE_RATE
    }

    /// The stream is not organized in frames.
    pub fn current_frame_len(&self) -> (r: Option<usize>)
        ensures
            r is None,
    {
        None
    }

    /// The stream never ends.
    pub fn total_duration(&self) -> (r: Option<u64>)
        ensures
            r is None,
    {
        None
    }
}

#[derive(Clone, Copy, Debug, PartialEq, Structural)]
/// A semi-triangle wave source, with adjustable frequency: ramps -1 to 1, down to 0, up to 1, back to -1.
pub struct SemiTriangle {
    pub phase: u64,
    pub frequency: u32,
}

impl SemiTriangle {
    /// The generator's invariant: the phase lies within one cycle.
    pub open spec fn wf(self) -> bool {
        self.phase < PHASE_MODULUS
    }

    /// Create a new semi-triangle wave source with the given frequency, in millihertz.
    pub fn new(frequency: u32) -> (s: SemiTriangle)
        ensures
            s.phase == 0,
            s.frequency == frequency,
            s.wf(),
    {
        SemiTriangle { phase: 0, frequency }
    }

    /// Pull one sample: the value at the current phase; the phase then
    /// advances by the frequency.
    pub fn next(&mut self) -> (r: i64)
        requires
            old(self).wf(),
        ensures
            r == semi_triangle_sample(old(self).phase),
            final(self).phase == next_phase(old(self).phase, old(self).frequency),
            final(self).frequency == old(self).frequency,
            final(self).wf(),
    {
        let r = semi_triangle_sample_at(self.phase);
        self.phase = advance_phase(self.phase, self.frequency);
        r
    }

    /// Overwrite the frequency, in millihertz. The phase is untouched, so the
    /// change shows only in the advance of pulls made after this call.
    pub fn set_frequency(&mut self, frequency: u32)
        ensures
            final(self).phase == old(self).phase,
            final(self).frequency == frequency,
    {
        self.frequency = frequency;
    }

    /// This source is mono.
    pub fn channels(&self) -> (c: u16)
        ensures
            c == 1,
    {
        1
    }

    /// The engine-wide sample rate.
    pub fn sample_rate(&self) -> (r: u32)
        ensures
            r == SAMPLE_RATE,
    {
        SAMPLE_RATE
    }

    /// The stream is not organized in frames.
    pub fn current_frame_len(&self) -> (r: Option<usize>)
        ensures
            r is None,
    {
        None
    }

    /// The stream never ends.
    pub fn total_duration(&self) -> (r: Option<u64>)
        ensures
            r is None,
    {
        None
    }
}

#[derive(Clone, Copy, Debug, PartialEq, Structural)]
/// A semi-sine wave source, with adjustable frequency: one positive sine arch per cycle, rescaled to [-1, 1].
pub struct SemiSine {
    pub phase: u64,
    pub frequency: u32,
}

impl SemiSine {
    /// The generator's invariant: the phase lies within one cycle.
    pub open spec fn wf(self) -> bool {
        self.phase < PHASE_MODULUS
    }

    /// Create a new semi-sine wave source with the given frequency, in millihertz.
    pub fn new(frequency: u32) -> (s: SemiSine)
        ensures
            s.phase == 0,
            s.frequency == frequency,
            s.wf(),
    {
        SemiSine { phase: 0, frequency }
    }

    /// Pull one sample: the value at the current phase; the phase then
    /// advances by the frequency.
    pub fn next(&mut self) -> (r: i64)
        requires
            old(self).wf(),
        ensures
            r == semi_sine_sample(old(self).phase),
            final(self).phase == next_phase(old(self).phase, old(self).frequency),
            final(self).frequency == old(self).frequency,
            final(self).wf(),
    {
        let r = semi_sine_sample_at(self.phase);
        self.phase = advance_phase(self.phase, self.frequency);
        r
    }

    /// Overwrite the frequency, in millihertz. The phase is untouched, so the
    /// change shows only in the advance of pulls made after this call.
    pub fn set_frequency(&mut self, frequency: u32)
        ensures
            final(self).phase == old(self).phase,
            final(self).frequency == frequency,
    {
        self.frequency = frequency;
    }

    /// This source is mono.
    pub fn channels(&self) -> (c: u16)
        ensures
            c == 1,
    {
        1
    }

    /// The engine-wide sample rate.
    pub fn sample_rate(&self) -> (r: u32)
        ensures
            r == SAMPLE_RATE,
    {
        SAMPLE_RATE
    }

    /// The stream is not organized in frames.
    pub fn current_frame_len(&self) -> (r: Option<usize>)
        ensures
            r is None,
    {
        None
    }

    /// The stream never ends.
    pub fn total_duration(&self) -> (r: Option<u64>)
        ensures
            r is None,
    {
        None
    }
}

#[derive(Clone, Copy, Debug, PartialEq, Structural)]
/// A step-square wave source, with adjustable frequency: a staircase of -1, 0, 1, 0 across the quarters.
pub struct StepSquare {
    pub phase: u64,
    pub frequency: u32,
}

impl StepSquare {
    /// The generator's invariant: the phase lies within one cycle.
    pub open spec fn wf(self) -> bool {
        self.phase < PHASE_MODULUS
    }

    /// Create a new step-square wave source with the given frequency, in millihertz.
    pub fn new(frequency: u32) -> (s: StepSquare)
        ensures
            s.phase == 0,
            s.frequency == frequency,
            s.wf(),
    {
        StepSquare { phase: 0, frequency }
    }

    /// Pull one sample: the value at the current phase; the phase then
    /// advances by the frequency.
    pub fn next(&mut self) -> (r: i64)
        requires
            old(self).wf(),
        ensures
            r == step_square_sample(old(self).phase),
            final(self).phase == next_phase(old(self).phase, old(self).frequency),
            final(self).frequency == old(self).frequency,
            final(self).wf(),
    {
        let r = step_square_sample_at(self.phase);
        self.phase = advance_phase(self.phase, self.frequency);
        r
    }

    /// Overwrite the frequency, in millihertz. The phase is untouched, so the
    /// change shows only in the advance of pulls made after this call.
    pub fn set_frequency(&mut self, frequency: u32)
        ensures
            final(self).phase == old(self).phase,
            final(self).frequency == frequency,
    {
        self.frequency = frequency;
    }

    /// This source is mono.
    pub fn channels(&self) -> (c: u16)
        ensures
            c == 1,
    {
        1
    }

    /// The engine-wide sample rate.
    pub fn sample_rate(&self) -> (r: u32)
        ensures
            r == SAMPLE_RATE,
    {
        SAMPLE_RATE
    }

    /// The stream is not organized in frames.
    pub fn current_frame_len(&self) -> (r: Option<usize>)
        ensures
            r is None,
    {
        None
    }

    /// The stream never ends.
    pub fn total_duration(&self) -> (r: Option<u64>)
        ensures
            r is None,
    {
        None
    }
}


#[derive(Clone, Copy, Debug, PartialEq, Structural)]
/// A white-noise source: every pull is an independent, approximately normally
/// distributed sample with mean zero and a standard deviation of one
/// `SAMPLE_UNIT`. The frequency has no effect on noise.
pub struct WhiteNoise;

impl WhiteNoise {
    /// Create a new noise source.
    pub fn new() -> (s: WhiteNoise)
        ensures
            s == (WhiteNoise {  }),
    {
        WhiteNoise
    }

    /// Pull one sample: an independent draw, always within `SAMPLE_LIMIT`
    /// (six standard deviations) of zero.
    pub fn next(&mut self) -> (r: i64)
        ensures
            -SAMPLE_LIMIT <= r <= SAMPLE_LIMIT,
    {
        noise_sample()
    }

    /// Noise has no pitch: setting a frequency does nothing.
    pub fn set_frequency(&mut self, _frequency: u32)
    {
    }

    /// This source is mono.
    pub fn channels(&self) -> (c: u16)
        ensures
            c == 1,
    {
        1
    }

    /// The engine-wide sample rate.
    pub fn sample_rate(&self) -> (r: u32)
        ensures
            r == SAMPLE_RATE,
    {
        SAMPLE_RATE
    }

    /// The stream is not organized in frames.
    pub fn current_frame_len(&self) -> (r: Option<usize>)
        ensures
            r is None,
    {
        None
    }

    /// The stream never ends.
    pub fn total_duration(&self) -> (r: Option<u64>)
        ensures
            r is None,
    {
        None
    }
}

/// The phase a generator holds after `k` pulls, starting from phase `p` at a
/// constant frequency of `f` millihertz.
pub open spec fn phase_after(p: u64, f: u32, k: nat) -> u64
    decreases k,
{
    if k == 0 {
        p
    } else {
        phase_after(next_phase(p, f), f, (k - 1) as nat)
    }
}

/// The phase sequence is a linear walk: after `k` pulls at frequency `f` the
/// phase is the start phase plus `k * f`, wrapped around the cycle.
pub proof fn lemma_phase_after_linear(p: u64, f: u32, k: nat)
    requires
        p < PHASE_MODULUS,
    ensures
        phase_after(p, f, k) == (p + k * f) % (PHASE_MODULUS as int),
    decreases k,
{
    let m = PHASE_MODULUS as int;
    if k == 0 {
        lemma_small_mod(p as nat, PHASE_MODULUS as nat);
    } else {
        let p1 = next_phase(p, f);
        assert(p1 == (p + f) % m);
        lemma_mod_division_less_than_divisor(p + f, m);
        lemma_phase_after_linear(p1, f, (k - 1) as nat);
        lemma_add_mod_noop_right((k - 1) * f, p + f, m);
        assert((k - 1) * f + (p + f) == p + k * f) by (nonlinear_arith)
            requires
                k >= 1,
        ;
    }
}

/// The phase sequence at a constant frequency is periodic: whenever `k` pulls
/// advance the phase by a whole number of cycles, the phase returns to its
/// start. In particular, a frequency that divides `PHASE_MODULUS` gives the
/// period `PHASE_MODULUS / f` pulls, which is the sample rate divided by the
/// frequency in hertz.
pub proof fn lemma_phase_periodic(p: u64, f: u32, k: nat)
    requires
        p < PHASE_MODULUS,
        (k * f) % (PHASE_MODULUS as int) == 0,
    ensures
        phase_after(p, f, k) == p,
{
    let m = PHASE_MODULUS as int;
    lemma_phase_after_linear(p, f, k);
    lemma_add_mod_noop_right(p as int, k * f, m);
    lemma_small_mod(p as nat, PHASE_MODULUS as nat);
}

/// The period of a source whose frequency divides the cycle: after
/// `PHASE_MODULUS / f` pulls the phase is back where it started.
pub proof fn lemma_phase_period_is_rate_over_frequency(p: u64, f: u32)
    requires
        p < PHASE_MODULUS,
        f > 0,
        (PHASE_MODULUS as int) % (f as int) == 0,
    ensures
        phase_after(p, f, (PHASE_MODULUS / (f as u64)) as nat) == p,
{
    let m = PHASE_MODULUS as int;
    let k = (PHASE_MODULUS / (f as u64)) as nat;
    assert(k == m / (f as int));
    lemma_fundamental_div_mod(m, f as int);
    assert(m == (f as int) * (m / (f as int)) + m % (f as int));
    assert(k * f == m);
    lemma_mod_self_0(m);
    lemma_phase_periodic(p, f, k);
}

} // verus!
