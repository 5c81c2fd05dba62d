use wavemix::sources::{
    SawtoothWave, SemiSine, SemiTriangle, SineWave, SquareWave, StepSquare, TriangleWave,
    WhiteNoise, SAMPLE_LIMIT,
};
use wavemix::{FREQUENCY_SCALE, PHASE_MODULUS, SAMPLE_RATE, SAMPLE_UNIT};

// One cycle of phase units covers the sample rate at the frequency scale, so
// a source at f millihertz advances f units per pull.
#[test]
fn phase_units_match_rate_and_scale() {
    assert_eq!(PHASE_MODULUS, SAMPLE_RATE as u64 * FREQUENCY_SCALE as u64);
}

#[test]
fn all_test() {
    sine_test();
    square_test();
    sawtooth_test();
    triangle_test();
    white_noise_test();
}

#[test]
fn sine_test() {
    let mut source = SineWave::new(220_000);
    assert_eq!(source.channels(), 1);
    assert_eq!(source.sample_rate(), SAMPLE_RATE);
    assert_eq!(source.current_frame_len(), None);
    assert_eq!(source.total_duration(), None);
    assert_eq!(source.next(), 0);
    for _ in 0..2000 {
        let x = source.next();
        assert!(-SAMPLE_UNIT <= x && x <= SAMPLE_UNIT);
    }
}

#[test]
fn square_test() {
    let mut source = SquareWave::new(220_000);
    assert_eq!(source.total_duration(), None);
    // The first sample sits at phase zero: the high half of the cycle.
    assert_eq!(source.next(), SAMPLE_UNIT);
    for _ in 0..2000 {
        let x = source.next();
        assert!(x == SAMPLE_UNIT || x == -SAMPLE_UNIT);
    }
}

#[test]
fn sawtooth_test() {
    let mut source = SawtoothWave::new(220_000);
    assert_eq!(source.next(), -SAMPLE_UNIT);
    for _ in 0..2000 {
        let x = source.next();
        assert!(-SAMPLE_UNIT <= x && x <= SAMPLE_UNIT);
    }
}

#[test]
fn triangle_test() {
    let mut source = TriangleWave::new(220_000);
    assert_eq!(source.next(), -SAMPLE_UNIT);
    for _ in 0..2000 {
        let x = source.next();
        assert!(-SAMPLE_UNIT <= x && x <= SAMPLE_UNIT);
    }
}

#[test]
fn semitriangle_test() {
    let mut source = SemiTriangle::new(220_000);
    assert_eq!(source.next(), -SAMPLE_UNIT);
    for _ in 0..2000 {
        let x = source.next();
        assert!(-SAMPLE_UNIT <= x && x <= SAMPLE_UNIT);
    }
}

#[test]
fn semisine_test() {
    let mut source = SemiSine::new(220_000);
    assert_eq!(source.next(), -SAMPLE_UNIT);
    for _ in 0..2000 {
        let x = source.next();
        assert!(-SAMPLE_UNIT <= x && x <= SAMPLE_UNIT);
    }
}

#[test]
fn stepsquare_test() {
    let mut source = StepSquare::new(220_000);
    assert_eq!(source.next(), -SAMPLE_UNIT);
    for _ in 0..2000 {
        let x = source.next();
        assert!(x == -SAMPLE_UNIT || x == 0 || x == SAMPLE_UNIT);
    }
}

#[test]
fn white_noise_test() {
    let mut source = WhiteNoise::new();
    assert_eq!(source.channels(), 1);
    assert_eq!(source.total_duration(), None);
    for _ in 0..1000 {
        let x = source.next();
        assert!(-SAMPLE_LIMIT <= x && x <= SAMPLE_LIMIT);
    }
}

// The sample mean of white noise is close to 0 and its sample variance close
// to 1 over a large number of pulls.
#[test]
fn white_noise_statistics() {
    let mut source = WhiteNoise::new();
    let n = 120_000;
    let mut sum = 0f64;
    let mut sum_squares = 0f64;
    for _ in 0..n {
        let x = source.next() as f64 / SAMPLE_UNIT as f64;
        sum += x;
        sum_squares += x * x;
    }
    let mean = sum / n as f64;
    let variance = sum_squares / n as f64 - mean * mean;
    assert!(mean.abs() < 0.02, "mean was {mean}");
    assert!((variance - 1.0).abs() < 0.05, "variance was {variance}");
}

// With a frequency that divides the cycle, the sample stream is periodic
// with period sample_rate / frequency pulls: at 1000 Hz, 41 samples.
#[test]
fn phase_periodicity() {
    let frequency = 1_000_000; // millihertz
    let period = (PHASE_MODULUS / frequency as u64) as usize;
    assert_eq!(period, 41);
    let mut source = SawtoothWave::new(frequency);
    let first: Vec<i64> = (0..period).map(|_| source.next()).collect();
    assert_eq!(source.phase, 0);
    let second: Vec<i64> = (0..period).map(|_| source.next()).collect();
    assert_eq!(first, second);
    assert_eq!(source.phase, 0);
}

// A frequency change leaves the phase, and with it the very next sample,
// untouched; only later pulls advance at the new rate.
#[test]
fn frequency_change_is_prospective() {
    let mut changed = SquareWave::new(300_000);
    let mut steady = SquareWave::new(300_000);
    let mut changed_prefix = Vec::new();
    let mut steady_prefix = Vec::new();
    for _ in 0..5 {
        changed_prefix.push(changed.next());
        steady_prefix.push(steady.next());
    }
    // Samples pulled before the change are what they always were.
    assert_eq!(changed_prefix, steady_prefix);
    changed.set_frequency(700_000);
    assert_eq!(changed.phase, steady.phase);
    // The very next sample is unaffected by the new frequency.
    assert_eq!(changed.next(), steady.next());
    // From then on the changed source advances faster.
    assert_ne!(changed.phase, steady.phase);
}

// Semi-sine stays within [-1, 1]; its peak reaches 1 at mid-cycle.
#[test]
fn semi_sine_peak() {
    let mut source = SemiSine::new(500_000);
    let mut peak = -SAMPLE_UNIT;
    for _ in 0..200 {
        let x = source.next();
        assert!(-SAMPLE_UNIT <= x && x <= SAMPLE_UNIT);
        if x > peak {
            peak = x;
        }
    }
    assert!(peak > 9 * SAMPLE_UNIT / 10);
}
