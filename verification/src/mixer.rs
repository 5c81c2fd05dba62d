//! The channel mixer: an ordered, fixed collection of waveform sources, one
//! volume per channel, combined into a single mono stream. Each pull reads
//! the current volumes, pulls one sample from every source, and returns the
//! arithmetic mean of the volume-scaled samples, so loudness does not depend
//! on the channel count.
//!
//! Construction validates every source: a source that reports a finite
//! duration, a finite frame length, or more than one channel is a structural
//! incompatibility and is rejected with a typed error before any sample is
//! rendered.

use vstd::prelude::*;
use vstd::arithmetic::div_mod::{
    lemma_div_by_multiple, lemma_div_denominator, lemma_div_pos_is_pos,
};
use crate::sources::{
    SquareWave, SawtoothWave, TriangleWave, SineWave, SemiTriangle, SemiSine, StepSquare,
    WhiteNoise, SAMPLE_LIMIT, square_sample, sawtooth_sample, triangle_sample, sine_sample,
    semi_triangle_sample, semi_sine_sample, step_square_sample,
};
use crate::{next_phase, PHASE_MODULUS, SAMPLE_RATE, SAMPLE_UNIT};

verus! {

/// The largest volume magnitude a channel accepts: one million units, far
/// beyond the conventional [0, 1] range but small enough that every
/// volume-scaled sample fits the mixer's accumulator.
pub const VOLUME_LIMIT: i64 = 1_000_000_000_000;

/// The volume every channel starts with: 0.2 in fixed point.
pub const DEFAULT_VOLUME: i64 = 200_000;

/// The product of `SAMPLE_LIMIT` and `VOLUME_LIMIT`: the largest magnitude a
/// single volume-scaled sample can reach, and the per-channel unit of the
/// mixer accumulator's range.
pub const SCALED_SAMPLE_LIMIT: i128 = 6_000_000_000_000_000_000;

#[derive(Clone, Copy, Debug, PartialEq)]
/// A user-defined source: it emits one fixed sample value on every pull and
/// declares its own static stream properties, which the mixer checks at
/// build time.
pub struct CustomSource {
    /// The sample emitted on every pull.
    pub value: i64,
    /// How many interleaved channels the source claims to produce.
    pub channel_count: u16,
    /// The frame length the source claims, if any.
    pub frame_len: Option<usize>,
    /// The total duration the source claims, in milliseconds, if any.
    pub duration: Option<u64>,
}

impl CustomSource {
    /// The source's invariant: its sample stays within the engine's range.
    pub open spec fn wf(self) -> bool {
        -SAMPLE_LIMIT <= self.value <= SAMPLE_LIMIT
    }

    /// A mono, endless source that emits `value` on every pull.
    pub fn new(value: i64) -> (s: CustomSource)
        requires
            -SAMPLE_LIMIT <= value <= SAMPLE_LIMIT,
        ensures
            s == (CustomSource { value, channel_count: 1, frame_len: None, duration: None }),
    {
        CustomSource { value, channel_count: 1, frame_len: None, duration: None }
    }
}

#[derive(Clone, Copy, Debug, PartialEq)]
/// The closed set of waveform sources a channel can hold, dispatched through
/// one interface: every variant produces an unending mono sample stream and
/// accepts frequency updates.
pub enum WaveSource {
    Square(SquareWave),
    Sawtooth(SawtoothWave),
    Triangle(TriangleWave),
    Sine(SineWave),
    SemiTriangle(SemiTriangle),
    SemiSine(SemiSine),
    StepSquare(StepSquare),
    Noise(WhiteNoise),
    Custom(CustomSource),
}

impl WaveSource {
    /// The source's invariant: its phase lies within one cycle, and its
    /// sample range is respected.
    pub open spec fn wf(self) -> bool {
        match self {
            WaveSource::Square(w) => w.wf(),
            WaveSource::Sawtooth(w) => w.wf(),
            WaveSource::Triangle(w) => w.wf(),
            WaveSource::Sine(w) => w.wf(),
            WaveSource::SemiTriangle(w) => w.wf(),
            WaveSource::SemiSine(w) => w.wf(),
            WaveSource::StepSquare(w) => w.wf(),
            WaveSource::Noise(_) => true,
            WaveSource::Custom(c) => c.wf(),
        }
    }

    /// Whether a pull's value is fully determined by the source's state:
    /// true of everything but noise.
    pub open spec fn is_deterministic(self) -> bool {
        !(self is Noise)
    }

    /// The sample a deterministic source emits at its current phase.
    pub open spec fn det_sample(self) -> int {
        match self {
            WaveSource::Square(w) => square_sample(w.phase),
            WaveSource::Sawtooth(w) => sawtooth_sample(w.phase),
            WaveSource::Triangle(w) => triangle_sample(w.phase),
            WaveSource::Sine(w) => sine_sample(w.phase),
            WaveSource::SemiTriangle(w) => semi_triangle_sample(w.phase),
            WaveSource::SemiSine(w) => semi_sine_sample(w.phase),
            WaveSource::StepSquare(w) => step_square_sample(w.phase),
            WaveSource::Noise(_) => 0,
            WaveSource::Custom(c) => c.value as int,
        }
    }

    /// What one pulled sample can be: a deterministic source emits exactly
    /// its waveform's value; noise may emit anything within `SAMPLE_LIMIT`.
    pub open spec fn sample_ok(self, s: i64) -> bool {
        if self is Noise {
            -SAMPLE_LIMIT <= s <= SAMPLE_LIMIT
        } else {
            s == self.det_sample()
        }
    }

    /// The state after one pull: phase-driven sources advance by their
    /// frequency; noise and custom sources are stateless.
    pub open spec fn stepped(self) -> WaveSource {
        match self {
            WaveSource::Square(w) => WaveSource::Square(
                SquareWave { phase: next_phase(w.phase, w.frequency), frequency: w.frequency },
            ),
            WaveSource::Sawtooth(w) => WaveSource::Sawtooth(
                SawtoothWave { phase: next_phase(w.phase, w.frequency), frequency: w.frequency },
            ),
            WaveSource::Triangle(w) => WaveSource::Triangle(
                TriangleWave { phase: next_phase(w.phase, w.frequency), frequency: w.frequency },
            ),
            WaveSource::Sine(w) => WaveSource::Sine(
                SineWave { phase: next_phase(w.phase, w.frequency), frequency: w.frequency },
            ),
            WaveSource::SemiTriangle(w) => WaveSource::SemiTriangle(
                SemiTriangle { phase: next_phase(w.phase, w.frequency), frequency: w.frequency },
            ),
            WaveSource::SemiSine(w) => WaveSource::SemiSine(
                SemiSine { phase: next_phase(w.phase, w.frequency), frequency: w.frequency },
            ),
            WaveSource::StepSquare(w) => WaveSource::StepSquare(
                StepSquare { phase: next_phase(w.phase, w.frequency), frequency: w.frequency },
            ),
            WaveSource::Noise(n) => WaveSource::Noise(n),
            WaveSource::Custom(c) => WaveSource::Custom(c),
        }
    }

    /// The state after a frequency change: only the frequency moves; the
    /// phase, and with it the very next sample, is untouched.
    pub open spec fn with_frequency(self, frequency: u32) -> WaveSource {
        match self {
            WaveSource::Square(w) => WaveSource::Square(
                SquareWave { phase: w.phase, frequency },
            ),
            WaveSource::Sawtooth(w) => WaveSource::Sawtooth(
                SawtoothWave { phase: w.phase, frequency },
            ),
            WaveSource::Triangle(w) => WaveSource::Triangle(
                TriangleWave { phase: w.phase, frequency },
            ),
            WaveSource::Sine(w) => WaveSource::Sine(SineWave { phase: w.phase, frequency }),
            WaveSource::SemiTriangle(w) => WaveSource::SemiTriangle(
                SemiTriangle { phase: w.phase, frequency },
            ),
            WaveSource::SemiSine(w) => WaveSource::SemiSine(
                SemiSine { phase: w.phase, frequency },
            ),
            WaveSource::StepSquare(w) => WaveSource::StepSquare(
                StepSquare { phase: w.phase, frequency },
            ),
            WaveSource::Noise(n) => WaveSource::Noise(n),
            WaveSource::Custom(c) => WaveSource::Custom(c),
        }
    }

    /// How many interleaved channels the source produces.
    pub open spec fn spec_channels(self) -> u16 {
        match self {
            WaveSource::Custom(c) => c.channel_count,
            _ => 1,
        }
    }

    /// The frame length the source reports.
    pub open spec fn spec_frame_len(self) -> Option<usize> {
        match self {
            WaveSource::Custom(c) => c.frame_len,
            _ => None,
        }
    }

    /// The total duration the source reports, in milliseconds.
    pub open spec fn spec_duration(self) -> Option<u64> {
        match self {
            WaveSource::Custom(c) => c.duration,
            _ => None,
        }
    }

    /// Pull one sample and advance the source.
    pub fn next(&mut self) -> (r: i64)
        requires
            old(self).wf(),
        ensures
            old(self).sample_ok(r),
            -SAMPLE_LIMIT <= r <= SAMPLE_LIMIT,
            *final(self) == old(self).stepped(),
            final(self).wf(),
    {
        match *self {
            WaveSource::Square(mut w) => {
                proof {
                    crate::sources::lemma_wave_samples_bounded(w.phase);
                }
                let r = w.next();
                *self = WaveSource::Square(w);
                r
            },
            WaveSource::Sawtooth(mut w) => {
                proof {
                    crate::sources::lemma_wave_samples_bounded(w.phase);
                }
                let r = w.next();
                *self = WaveSource::Sawtooth(w);
                r
            },
            WaveSource::Triangle(mut w) => {
                proof {
                    crate::sources::lemma_wave_samples_bounded(w.phase);
                }
                let r = w.next();
                *self = WaveSource::Triangle(w);
                r
            },
            WaveSource::Sine(mut w) => {
                proof {
                    crate::sources::lemma_wave_samples_bounded(w.phase);
                }
                let r = w.next();
                *self = WaveSource::Sine(w);
                r
            },
            WaveSource::SemiTriangle(mut w) => {
                proof {
                    crate::sources::lemma_wave_samples_bounded(w.phase);
                }
                let r = w.next();
                *self = WaveSource::SemiTriangle(w);
                r
            },
            WaveSource::SemiSine(mut w) => {
                proof {
                    crate::sources::lemma_wave_samples_bounded(w.phase);
                }
                let r = w.next();
                *self = WaveSource::SemiSine(w);
                r
            },
            WaveSource::StepSquare(mut w) => {
                proof {
                    crate::sources::lemma_wave_samples_bounded(w.phase);
                }
                let r = w.next();
                *self = WaveSource::StepSquare(w);
                r
            },
            WaveSource::Noise(mut n) => {
                let r = n.next();
                *self = WaveSource::Noise(n);
                r
            },
            WaveSource::Custom(c) => c.value,
        }
    }

    /// Overwrite the frequency; takes effect with the advance of the next
    /// pull, never retroactively.
    pub fn set_frequency(&mut self, frequency: u32)
        ensures
            *final(self) == old(self).with_frequency(frequency),
            old(self).wf() ==> final(self).wf(),
    {
        match *self {
            WaveSource::Square(mut w) => {
                w.set_frequency(frequency);
                *self = WaveSource::Square(w);
            },
            WaveSource::Sawtooth(mut w) => {
                w.set_frequency(frequency);
                *self = WaveSource::Sawtooth(w);
            },
            WaveSource::Triangle(mut w) => {
                w.set_frequency(frequency);
                *self = WaveSource::Triangle(w);
            },
            WaveSource::Sine(mut w) => {
                w.set_frequency(frequency);
                *self = WaveSource::Sine(w);
            },
            WaveSource::SemiTriangle(mut w) => {
                w.set_frequency(frequency);
                *self = WaveSource::SemiTriangle(w);
            },
            WaveSource::SemiSine(mut w) => {
                w.set_frequency(frequency);
                *self = WaveSource::SemiSine(w);
            },
            WaveSource::StepSquare(mut w) => {
                w.set_frequency(frequency);
                *self = WaveSource::StepSquare(w);
            },
            WaveSource::Noise(_) => {},
            WaveSource::Custom(_) => {},
        }
    }

    /// How many interleaved channels the source produces.
    pub fn channels(&self) -> (c: u16)
        ensures
            c == self.spec_channels(),
    {
        match *self {
            WaveSource::Custom(c) => c.channel_count,
            _ => 1,
        }
    }

    /// The engine-wide sample rate.
    pub fn sample_rate(&self) -> (r: u32)
        ensures
            r == SAMPLE_RATE,
    {
        SAMPLE_RATE
    }

    /// The frame length the source reports.
    pub fn current_frame_len(&self) -> (r: Option<usize>)
        ensures
            r == self.spec_frame_len(),
    {
        match *self {
            WaveSource::Custom(c) => c.frame_len,
            _ => None,
        }
    }

    /// The total duration the source reports, in milliseconds.
    pub fn total_duration(&self) -> (r: Option<u64>)
        ensures
            r == self.spec_duration(),
    {
        match *self {
            WaveSource::Custom(c) => c.duration,
            _ => None,
        }
    }
}

/// A source the mixer accepts: endless, frame-free, and mono.
pub open spec fn source_acceptable(s: WaveSource) -> bool {
    s.spec_duration() is None && s.spec_frame_len() is None && s.spec_channels() == 1
}

/// Whether a source fails the endless-stream requirement; this is checked
/// before the mono requirement for each source.
pub open spec fn source_finite(s: WaveSource) -> bool {
    !(s.spec_duration() is None) || !(s.spec_frame_len() is None)
}

#[derive(Clone, Copy, Debug, PartialEq, Eq, Structural)]
/// Why a mixer could not be built: the index of the first offending channel,
/// with the endless-stream check made before the mono check.
pub enum ChannelsError {
    /// The source at this index reports a finite duration or frame length.
    FiniteSource { index: usize },
    /// The source at this index is not single-channel audio.
    NotMono { index: usize },
}

/// Division truncating toward zero, the rounding of the mixer's averaging.
pub open spec fn tdiv(a: int, b: int) -> int
    recommends
        b > 0,
{
    if a >= 0 {
        a / b
    } else {
        -((-a) / b)
    }
}

/// The volume-weighted sum of one sample per channel, in units of
/// `SAMPLE_UNIT` squared.
pub open spec fn weighted_sum(samples: Seq<i64>, volumes: Seq<i64>) -> int
    decreases samples.len(),
{
    if samples.len() == 0 || volumes.len() == 0 {
        0
    } else {
        samples[0] * volumes[0] + weighted_sum(samples.drop_first(), volumes.drop_first())
    }
}

/// The sum of a sequence of volumes.
pub open spec fn seq_sum(v: Seq<i64>) -> int
    decreases v.len(),
{
    if v.len() == 0 {
        0
    } else {
        v[0] + seq_sum(v.drop_first())
    }
}

/// One mixed sample: every channel's sample scaled by its volume, summed,
/// and divided by the channel count (the arithmetic mean, truncated toward
/// zero). An empty mixer is silent.
pub open spec fn mixed_sample(samples: Seq<i64>, volumes: Seq<i64>) -> int {
    if samples.len() == 0 {
        0
    } else {
        tdiv(weighted_sum(samples, volumes), samples.len() * SAMPLE_UNIT)
    }
}

proof fn lemma_weighted_sum_take_step(s: Seq<i64>, v: Seq<i64>, i: int)
    requires
        s.len() == v.len(),
        0 <= i < s.len(),
    ensures
        weighted_sum(s.take(i + 1), v.take(i + 1)) == weighted_sum(s.take(i), v.take(i)) + s[i]
            * v[i],
    decreases i,
{
    if i == 0 {
        assert(s.take(1).drop_first() =~= s.take(0));
        assert(v.take(1).drop_first() =~= v.take(0));
    } else {
        lemma_weighted_sum_take_step(s.drop_first(), v.drop_first(), i - 1);
        assert(s.take(i + 1).drop_first() =~= s.drop_first().take(i));
        assert(v.take(i + 1).drop_first() =~= v.drop_first().take(i));
        assert(s.take(i).drop_first() =~= s.drop_first().take(i - 1));
        assert(v.take(i).drop_first() =~= v.drop_first().take(i - 1));
        assert(s.drop_first()[i - 1] == s[i]);
        assert(v.drop_first()[i - 1] == v[i]);
    }
}

proof fn lemma_weighted_sum_bound(s: Seq<i64>, v: Seq<i64>)
    requires
        s.len() == v.len(),
        forall|i: int| 0 <= i < s.len() ==> -SAMPLE_LIMIT <= #[trigger] s[i] <= SAMPLE_LIMIT,
        forall|i: int| 0 <= i < v.len() ==> -VOLUME_LIMIT <= #[trigger] v[i] <= VOLUME_LIMIT,
    ensures
        -(s.len() * SCALED_SAMPLE_LIMIT) <= weighted_sum(s, v) <= s.len() * (
        SCALED_SAMPLE_LIMIT),
    decreases s.len(),
{
    if s.len() > 0 {
        assert(-SCALED_SAMPLE_LIMIT <= s[0] * v[0] <= SCALED_SAMPLE_LIMIT)
            by (nonlinear_arith)
            requires
                -SAMPLE_LIMIT <= s[0] <= SAMPLE_LIMIT,
                -VOLUME_LIMIT <= v[0] <= VOLUME_LIMIT,
                SAMPLE_LIMIT == 6_000_000,
                VOLUME_LIMIT == 1_000_000_000_000,
                SCALED_SAMPLE_LIMIT == 6_000_000_000_000_000_000,
        ;
        lemma_weighted_sum_bound(s.drop_first(), v.drop_first());
    }
}

proof fn lemma_quotient_fits(a: int, n: int)
    requires
        0 <= a,
        1 <= n,
        a <= n * SCALED_SAMPLE_LIMIT,
    ensures
        0 <= a / (n * SAMPLE_UNIT) <= SAMPLE_LIMIT * (VOLUME_LIMIT / SAMPLE_UNIT),
{
    let d = n * (SAMPLE_UNIT as int);
    let q = SAMPLE_LIMIT * (VOLUME_LIMIT / SAMPLE_UNIT);
    assert(d >= SAMPLE_UNIT > 0) by (nonlinear_arith)
        requires
            n >= 1,
            d == n * (SAMPLE_UNIT as int),
    ;
    lemma_div_pos_is_pos(a, d);
    assert(d * q == n * SCALED_SAMPLE_LIMIT) by (nonlinear_arith)
        requires
            d == n * (SAMPLE_UNIT as int),
            q == SAMPLE_LIMIT * (VOLUME_LIMIT / SAMPLE_UNIT),
            SAMPLE_UNIT == 1_000_000,
            SAMPLE_LIMIT == 6_000_000,
            VOLUME_LIMIT == 1_000_000_000_000,
            SCALED_SAMPLE_LIMIT == 6_000_000_000_000_000_000,
    ;
    vstd::arithmetic::div_mod::lemma_multiply_divide_le(a, d, q);
}

/// Combine one already-pulled sample per channel with the current volumes:
/// the arithmetic mean of the volume-scaled samples, truncated toward zero.
pub fn mix_samples(samples: &Vec<i64>, volumes: &Vec<i64>) -> (out: i64)
    requires
        samples@.len() == volumes@.len(),
        forall|i: int|
            0 <= i < samples@.len() ==> -SAMPLE_LIMIT <= #[trigger] samples@[i] <= SAMPLE_LIMIT,
        forall|i: int|
            0 <= i < volumes@.len() ==> -VOLUME_LIMIT <= #[trigger] volumes@[i] <= VOLUME_LIMIT,
    ensures
        out == mixed_sample(samples@, volumes@),
{
    let n = samples.len();
    if n == 0 {
        return 0;
    }
    let mut acc: i128 = 0;
    let mut i: usize = 0;
    while i < n
        invariant
            samples@.len() == n,
            volumes@.len() == n,
            0 <= i <= n,
            forall|j: int|
                0 <= j < n ==> -SAMPLE_LIMIT <= #[trigger] samples@[j] <= SAMPLE_LIMIT,
            forall|j: int|
                0 <= j < n ==> -VOLUME_LIMIT <= #[trigger] volumes@[j] <= VOLUME_LIMIT,
            acc == weighted_sum(samples@.take(i as int), volumes@.take(i as int)),
            -((i as int) * SCALED_SAMPLE_LIMIT) <= acc <= (i as int) * (SAMPLE_LIMIT
                * VOLUME_LIMIT),
        decreases n - i,
    {
        let s = samples[i];
        let v = volumes[i];
        proof {
            lemma_weighted_sum_take_step(samples@, volumes@, i as int);
            assert(-SCALED_SAMPLE_LIMIT <= (s as int) * (v as int) <= SAMPLE_LIMIT
                * VOLUME_LIMIT) by (nonlinear_arith)
                requires
                    -SAMPLE_LIMIT <= s <= SAMPLE_LIMIT,
                    -VOLUME_LIMIT <= v <= VOLUME_LIMIT,
                    SAMPLE_LIMIT == 6_000_000,
                    VOLUME_LIMIT == 1_000_000_000_000,
                    SCALED_SAMPLE_LIMIT == 6_000_000_000_000_000_000,
            ;
        }
        acc = acc + (s as i128) * (v as i128);
        i = i + 1;
    }
    proof {
        assert(samples@.take(n as int) =~= samples@);
        assert(volumes@.take(n as int) =~= volumes@);
    }
    let d: u128 = (n as u128) * (SAMPLE_UNIT as u128);
    if acc >= 0 {
        proof {
            lemma_quotient_fits(acc as int, n as int);
        }
        let q: u128 = (acc as u128) / d;
        q as i64
    } else {
        proof {
            lemma_quotient_fits(-(acc as int), n as int);
        }
        let m: u128 = (-acc) as u128;
        let q: u128 = m / d;
        -(q as i64)
    }
}

/// One possible outcome of a mixer pull: some per-channel sample draw,
/// consistent with what each source can emit, explains the mixed output.
pub open spec fn pull_outcome(
    sources: Seq<WaveSource>,
    volumes: Seq<i64>,
    samples: Seq<i64>,
    out: i64,
) -> bool {
    &&& samples.len() == sources.len()
    &&& (forall|i: int| 0 <= i < sources.len() ==> sources[i].sample_ok(#[trigger] samples[i]))
    &&& out == mixed_sample(samples, volumes)
}

/// The samples a mixer of deterministic sources must draw.
pub open spec fn det_samples_of(sources: Seq<WaveSource>) -> Seq<i64> {
    Seq::new(sources.len(), |i: int| sources[i].det_sample() as i64)
}

/// A pull from a mixer whose sources are all deterministic has exactly one
/// possible output: the mean of the waveform values scaled by the volumes.
pub proof fn lemma_deterministic_outcome(
    sources: Seq<WaveSource>,
    volumes: Seq<i64>,
    samples: Seq<i64>,
    out: i64,
)
    requires
        pull_outcome(sources, volumes, samples, out),
        forall|i: int| 0 <= i < sources.len() ==> (#[trigger] sources[i]).is_deterministic(),
    ensures
        out == mixed_sample(det_samples_of(sources), volumes),
{
    assert(samples =~= det_samples_of(sources));
}


/// The mixer: an ordered, fixed-count sequence of channels, each one a source
/// paired with a volume, established at construction and never resized.
pub struct Channels {
    sources: Vec<WaveSource>,
    volumes: Vec<i64>,
}

impl Channels {
    /// The ordered sources, one per channel.
    pub closed spec fn spec_sources(self) -> Seq<WaveSource> {
        self.sources@
    }

    /// The per-channel volumes, in units of `SAMPLE_UNIT`.
    pub closed spec fn spec_volumes(self) -> Seq<i64> {
        self.volumes@
    }

    /// The mixer's invariant: one volume per source, every source within its
    /// own invariant, every volume within the engine's range.
    pub open spec fn wf(self) -> bool {
        &&& self.spec_sources().len() == self.spec_volumes().len()
        &&& (forall|i: int|
            0 <= i < self.spec_sources().len() ==> (#[trigger] self.spec_sources()[i]).wf())
        &&& (forall|i: int|
            0 <= i < self.spec_volumes().len() ==> -VOLUME_LIMIT <= #[trigger] self.spec_volumes()[i]
                <= VOLUME_LIMIT)
    }

    /// Validate the sources and assemble the mixer, every channel at the
    /// default volume. Exactly the sources that are endless, frame-free and
    /// mono are accepted; the first violation is reported by index, the
    /// endless-stream check ahead of the mono check.
    fn new(sources: Vec<WaveSource>) -> (r: Result<Channels, ChannelsError>)
        requires
            forall|i: int| 0 <= i < sources@.len() ==> (#[trigger] sources@[i]).wf(),
        ensures
            match r {
                Ok(c) => {
                    &&& forall|i: int|
                        0 <= i < sources@.len() ==> source_acceptable(#[trigger] sources@[i])
                    &&& c.wf()
                    &&& c.spec_sources() == sources@
                    &&& c.spec_volumes() == Seq::new(sources@.len(), |i: int| DEFAULT_VOLUME)
                },
                Err(ChannelsError::FiniteSource { index }) => {
                    &&& index < sources@.len()
                    &&& source_finite(sources@[index as int])
                    &&& forall|j: int| 0 <= j < index ==> source_acceptable(#[trigger] sources@[j])
                },
                Err(ChannelsError::NotMono { index }) => {
                    &&& index < sources@.len()
                    &&& !source_finite(sources@[index as int])
                    &&& sources@[index as int].spec_channels() != 1
                    &&& forall|j: int| 0 <= j < index ==> source_acceptable(#[trigger] sources@[j])
                },
            },
    {
        let n = sources.len();
        let mut i: usize = 0;
        while i < n
            invariant
                n == sources@.len(),
                0 <= i <= n,
                forall|j: int| 0 <= j < i ==> source_acceptable(#[trigger] sources@[j]),
            decreases n - i,
        {
            let finite = {
                let d = sources[i].total_duration();
                let f = sources[i].current_frame_len();
                d.is_some() || f.is_some()
            };
            if finite {
                return Err(ChannelsError::FiniteSource { index: i });
            }
            if sources[i].channels() != 1 {
                return Err(ChannelsError::NotMono { index: i });
            }
            i = i + 1;
        }
        let mut volumes: Vec<i64> = Vec::new();
        let mut k: usize = 0;
        while k < n
            invariant
                0 <= k <= n,
                volumes@.len() == k,
                forall|j: int| 0 <= j < k ==> #[trigger] volumes@[j] == DEFAULT_VOLUME,
            decreases n - k,
        {
            volumes.push(DEFAULT_VOLUME);
            k = k + 1;
        }
        proof {
            assert(volumes@ =~= Seq::new(sources@.len(), |i: int| DEFAULT_VOLUME));
        }
        Ok(Channels { sources, volumes })
    }

    /// The number of channels of the mixed stream itself: mono.
    pub fn channels(&self) -> (c: u16)
        ensures
            c == 1,
    {
        1
    }

    /// The engine-wide sample rate.
    pub fn sample_rate(&self) -> (r: u32)
        ensures
            r == SAMPLE_RATE,
    {
        SAMPLE_RATE
    }

    /// The mixed stream is not organized in frames.
    pub fn current_frame_len(&self) -> (r: Option<usize>)
        ensures
            r is None,
    {
        None
    }

    /// The mixed stream never ends.
    pub fn total_duration(&self) -> (r: Option<u64>)
        ensures
            r is None,
    {
        None
    }

    /// How many channels the mixer holds.
    pub fn channel_count(&self) -> (n: usize)
        ensures
            n == self.spec_sources().len(),
    {
        self.sources.len()
    }

    /// Pull one mixed sample: read the current volumes, pull one sample from
    /// every source in construction order, and return their volume-scaled
    /// mean. Every source advances by exactly one pull; the volumes do not
    /// move.
    pub fn next(&mut self) -> (out: i64)
        requires
            old(self).wf(),
        ensures
            final(self).wf(),
            final(self).spec_volumes() == old(self).spec_volumes(),
            final(self).spec_sources().len() == old(self).spec_sources().len(),
            forall|i: int|
                0 <= i < old(self).spec_sources().len() ==> #[trigger] final(self).spec_sources()[i]
                    == old(self).spec_sources()[i].stepped(),
            exists|samples: Seq<i64>|
                pull_outcome(old(self).spec_sources(), old(self).spec_volumes(), samples, out),
            (forall|i: int|
                0 <= i < old(self).spec_sources().len() ==> (#[trigger] old(
                    self,
                ).spec_sources()[i]).is_deterministic()) ==> out == mixed_sample(
                det_samples_of(old(self).spec_sources()),
                old(self).spec_volumes(),
            ),
    {
        let n = self.sources.len();
        let mut samples: Vec<i64> = Vec::new();
        let mut i: usize = 0;
        while i < n
            invariant
                old(self).wf(),
                n == old(self).spec_sources().len(),
                self.sources@.len() == n,
                self.volumes@ == old(self).spec_volumes(),
                0 <= i <= n,
                samples@.len() == i,
                forall|j: int|
                    0 <= j < i ==> old(self).spec_sources()[j].sample_ok(#[trigger] samples@[j]),
                forall|j: int|
                    0 <= j < i ==> -SAMPLE_LIMIT <= #[trigger] samples@[j] <= SAMPLE_LIMIT,
                forall|j: int|
                    0 <= j < i ==> #[trigger] self.sources@[j]
                        == old(self).spec_sources()[j].stepped(),
                forall|j: int|
                    i <= j < n ==> #[trigger] self.sources@[j] == old(self).spec_sources()[j],
                forall|j: int| 0 <= j < n ==> (#[trigger] self.sources@[j]).wf(),
            decreases n - i,
        {
            let mut src = self.sources[i];
            let s = src.next();
            self.sources[i] = src;
            samples.push(s);
            i = i + 1;
        }
        let out = mix_samples(&samples, &self.volumes);
        proof {
            assert(pull_outcome(
                old(self).spec_sources(),
                old(self).spec_volumes(),
                samples@,
                out,
            ));
            if forall|j: int|
                0 <= j < old(self).spec_sources().len() ==> (#[trigger] old(
                    self,
                ).spec_sources()[j]).is_deterministic() {
                lemma_deterministic_outcome(
                    old(self).spec_sources(),
                    old(self).spec_volumes(),
                    samples@,
                    out,
                );
            }
        }
        out
    }

    /// Set the volume of the channel with the given index; the change is
    /// observed by the very next pull. An index out of range is a programmer
    /// error, refused by contract.
    pub fn set_volume(&mut self, index: usize, volume: i64)
        requires
            old(self).wf(),
            index < old(self).spec_volumes().len(),
            -VOLUME_LIMIT <= volume <= VOLUME_LIMIT,
        ensures
            final(self).wf(),
            final(self).spec_sources() == old(self).spec_sources(),
            final(self).spec_volumes() == old(self).spec_volumes().update(index as int, volume),
    {
        self.volumes[index] = volume;
    }

    /// Set the frequency of the channel with the given index, in millihertz;
    /// the change affects only pulls made after this call. An index out of
    /// range is a programmer error, refused by contract.
    pub fn set_frequency(&mut self, index: usize, frequency: u32)
        requires
            old(self).wf(),
            index < old(self).spec_sources().len(),
        ensures
            final(self).wf(),
            final(self).spec_volumes() == old(self).spec_volumes(),
            final(self).spec_sources() == old(self).spec_sources().update(
                index as int,
                old(self).spec_sources()[index as int].with_frequency(frequency),
            ),
    {
        let mut src = self.sources[index];
        src.set_frequency(frequency);
        self.sources[index] = src;
    }
}

/// The builder that collects the ordered sources of a mixer.
pub struct ChannelsBuilder {
    sources: Vec<WaveSource>,
}

impl ChannelsBuilder {
    /// The sources collected so far, in order.
    pub closed spec fn spec_sources(self) -> Seq<WaveSource> {
        self.sources@
    }

    /// Start with no channels.
    pub fn new() -> (b: ChannelsBuilder)
        ensures
            b.spec_sources() == Seq::<WaveSource>::empty(),
    {
        ChannelsBuilder { sources: Vec::new() }
    }

    /// Append one source as the next channel.
    pub fn add_source(self, source: WaveSource) -> (b: ChannelsBuilder)
        ensures
            b.spec_sources() == self.spec_sources().push(source),
    {
        let mut b = self;
        b.sources.push(source);
        b
    }

    /// Validate every source and build the mixer; see `ChannelsError` for
    /// exactly which sources are refused.
    pub fn build(self) -> (r: Result<Channels, ChannelsError>)
        requires
            forall|i: int|
                0 <= i < self.spec_sources().len() ==> (#[trigger] self.spec_sources()[i]).wf(),
        ensures
            match r {
                Ok(c) => {
                    &&& forall|i: int|
                        0 <= i < self.spec_sources().len() ==> source_acceptable(
                            #[trigger] self.spec_sources()[i],
                        )
                    &&& c.wf()
                    &&& c.spec_sources() == self.spec_sources()
                    &&& c.spec_volumes() == Seq::new(
                        self.spec_sources().len(),
                        |i: int| DEFAULT_VOLUME,
                    )
                },
                Err(ChannelsError::FiniteSource { index }) => {
                    &&& index < self.spec_sources().len()
                    &&& source_finite(self.spec_sources()[index as int])
                    &&& forall|j: int|
                        0 <= j < index ==> source_acceptable(#[trigger] self.spec_sources()[j])
                },
                Err(ChannelsError::NotMono { index }) => {
                    &&& index < self.spec_sources().len()
                    &&& !source_finite(self.spec_sources()[index as int])
                    &&& self.spec_sources()[index as int].spec_channels() != 1
                    &&& forall|j: int|
                        0 <= j < index ==> source_acceptable(#[trigger] self.spec_sources()[j])
                },
            },
    {
        Channels::new(self.sources)
    }
}


proof fn lemma_weighted_sum_unit_samples(samples: Seq<i64>, volumes: Seq<i64>)
    requires
        samples.len() == volumes.len(),
        forall|i: int| 0 <= i < samples.len() ==> #[trigger] samples[i] == SAMPLE_UNIT,
    ensures
        weighted_sum(samples, volumes) == SAMPLE_UNIT * seq_sum(volumes),
    decreases samples.len(),
{
    if samples.len() == 0 {
        assert(SAMPLE_UNIT * seq_sum(volumes) == 0) by (nonlinear_arith)
            requires
                seq_sum(volumes) == 0,
        ;
    } else {
        lemma_weighted_sum_unit_samples(samples.drop_first(), volumes.drop_first());
        assert(SAMPLE_UNIT * volumes[0] + SAMPLE_UNIT * seq_sum(volumes.drop_first())
            == SAMPLE_UNIT * seq_sum(volumes)) by (nonlinear_arith)
            requires
                seq_sum(volumes) == volumes[0] + seq_sum(volumes.drop_first()),
        ;
    }
}

proof fn lemma_tdiv_common_factor(s: int, n: int)
    requires
        n >= 1,
    ensures
        tdiv(SAMPLE_UNIT * s, n * SAMPLE_UNIT) == tdiv(s, n),
{
    let u = SAMPLE_UNIT as int;
    assert(n * u == u * n) by (nonlinear_arith);
    assert(u * n > 0) by (nonlinear_arith)
        requires
            n >= 1,
            u > 0,
    ;
    if s >= 0 {
        assert(u * s >= 0) by (nonlinear_arith)
            requires
                s >= 0,
                u > 0,
        ;
        lemma_div_denominator(u * s, u, n);
        lemma_div_by_multiple(s, u);
        assert(u * s == s * u) by (nonlinear_arith);
    } else {
        assert(u * s < 0 && u * (-s) == -(u * s) && u * (-s) >= 0) by (nonlinear_arith)
            requires
                s < 0,
                u > 0,
        ;
        lemma_div_denominator(u * (-s), u, n);
        lemma_div_by_multiple(-s, u);
        assert(u * (-s) == (-s) * u) by (nonlinear_arith);
    }
}

/// Mixing channels whose sources each emit the constant sample 1 (one full
/// `SAMPLE_UNIT`) yields the arithmetic mean of the volumes, truncated
/// toward zero, on every pull.
pub proof fn lemma_unit_sources_mix_to_mean_volume(
    sources: Seq<WaveSource>,
    volumes: Seq<i64>,
    samples: Seq<i64>,
    out: i64,
)
    requires
        pull_outcome(sources, volumes, samples, out),
        sources.len() == volumes.len(),
        sources.len() > 0,
        forall|i: int|
            0 <= i < sources.len() ==> (#[trigger] sources[i]).is_deterministic()
                && sources[i].det_sample() == SAMPLE_UNIT,
    ensures
        out == tdiv(seq_sum(volumes), volumes.len() as int),
{
    assert(forall|i: int| 0 <= i < samples.len() ==> #[trigger] samples[i] == SAMPLE_UNIT);
    lemma_weighted_sum_unit_samples(samples, volumes);
    lemma_tdiv_common_factor(seq_sum(volumes), volumes.len() as int);
}

proof fn lemma_weighted_sum_ignores_muted(s1: Seq<i64>, s2: Seq<i64>, volumes: Seq<i64>, i: int)
    requires
        s1.len() == s2.len(),
        s1.len() == volumes.len(),
        0 <= i < s1.len(),
        volumes[i] == 0,
        forall|j: int| 0 <= j < s1.len() && j != i ==> #[trigger] s1[j] == s2[j],
    ensures
        weighted_sum(s1, volumes) == weighted_sum(s2, volumes),
    decreases s1.len(),
{
    if i == 0 {
        assert(s1[0] * volumes[0] == 0 && s2[0] * volumes[0] == 0) by (nonlinear_arith)
            requires
                volumes[0] == 0,
        ;
        assert(s1.drop_first() =~= s2.drop_first());
    } else {
        lemma_weighted_sum_ignores_muted(
            s1.drop_first(),
            s2.drop_first(),
            volumes.drop_first(),
            i - 1,
        );
    }
}

/// Setting a channel's volume to zero mutes it from the very next pull on:
/// once the volume at a channel is zero, the mixed sample does not depend on
/// what that channel's source emits.
pub proof fn lemma_zero_volume_mutes(s1: Seq<i64>, s2: Seq<i64>, volumes: Seq<i64>, i: int)
    requires
        s1.len() == s2.len(),
        s1.len() == volumes.len(),
        0 <= i < s1.len(),
        volumes[i] == 0,
        forall|j: int| 0 <= j < s1.len() && j != i ==> #[trigger] s1[j] == s2[j],
    ensures
        mixed_sample(s1, volumes) == mixed_sample(s2, volumes),
{
    lemma_weighted_sum_ignores_muted(s1, s2, volumes, i);
}

/// A frequency change is prospective. It leaves the source's phase alone, so
/// the changed source can emit exactly the samples the unchanged one could
/// have emitted on the very next pull; only the phase advance of that pull,
/// and with it every later sample, uses the new frequency. Samples already
/// pulled are values, not references, so they cannot be recomputed at all.
pub proof fn lemma_frequency_change_prospective(s: WaveSource, frequency: u32, r: i64)
    ensures
        s.with_frequency(frequency).sample_ok(r) <==> s.sample_ok(r),
        s.with_frequency(frequency).is_deterministic() ==> s.with_frequency(
            frequency,
        ).det_sample() == s.det_sample(),
        s.with_frequency(frequency).wf() <==> s.wf(),
{
}


/// A frequency change between two pulls is invisible to the very next mixed
/// sample: updating one channel's frequency leaves every channel's next
/// waveform value, and with it the mixed mean, exactly as it was. Together
/// with `Channels::set_frequency`, whose contract changes nothing but that
/// one source's frequency, and `Channels::next`, whose result reads only the
/// state each pull starts from, this says a mid-stream frequency change
/// affects only samples pulled after it.
pub proof fn lemma_mixer_frequency_change_prospective(
    sources: Seq<WaveSource>,
    volumes: Seq<i64>,
    i: int,
    frequency: u32,
)
    requires
        0 <= i < sources.len(),
    ensures
        mixed_sample(
            det_samples_of(sources.update(i, sources[i].with_frequency(frequency))),
            volumes,
        ) == mixed_sample(det_samples_of(sources), volumes),
{
    assert(det_samples_of(sources.update(i, sources[i].with_frequency(frequency)))
        =~= det_samples_of(sources));
}

} // verus!
