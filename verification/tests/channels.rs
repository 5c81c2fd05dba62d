use wavemix::mixer::{
    ChannelsBuilder, ChannelsError, CustomSource, WaveSource, DEFAULT_VOLUME, VOLUME_LIMIT,
};
use wavemix::sources::{SineWave, SquareWave, WhiteNoise, SAMPLE_LIMIT};
use wavemix::SAMPLE_UNIT;

fn unit_source() -> WaveSource {
    WaveSource::Custom(CustomSource::new(SAMPLE_UNIT))
}

#[test]
fn test_channels() {
    let channels = ChannelsBuilder::new()
        .add_source(WaveSource::Sine(SineWave::new(220_000)))
        .add_source(WaveSource::Square(SquareWave::new(220_000)))
        .build();
    let mut channels = channels.expect("two endless mono sources build");
    assert_eq!(channels.channel_count(), 2);
    assert_eq!(channels.channels(), 1);
    assert_eq!(channels.current_frame_len(), None);
    assert_eq!(channels.total_duration(), None);
    channels.set_volume(0, 500_000);
    channels.set_volume(1, 100_000);
    for _ in 0..1000 {
        channels.next();
    }
    channels.set_frequency(1, 440_000);
    for _ in 0..1000 {
        channels.next();
    }
    channels.set_frequency(0, 440_000);
    channels.set_volume(1, 0);
    for _ in 0..1000 {
        let x = channels.next();
        assert!(-SAMPLE_LIMIT <= x && x <= SAMPLE_LIMIT);
    }
}

// Mixing N channels whose sources each emit the constant sample 1 yields the
// mean of the volumes on every pull.
#[test]
fn constant_sources_mix_to_mean_volume() {
    let channels = ChannelsBuilder::new()
        .add_source(unit_source())
        .add_source(unit_source())
        .add_source(unit_source())
        .build();
    let mut channels = channels.unwrap();
    // Every channel starts at the default volume, whose mean is itself.
    assert_eq!(channels.next(), DEFAULT_VOLUME);
    channels.set_volume(0, 200_000);
    channels.set_volume(1, 500_000);
    channels.set_volume(2, 800_000);
    for _ in 0..10 {
        assert_eq!(channels.next(), 500_000);
    }
    // Negative volumes take part in the mean like any others.
    channels.set_volume(2, -400_000);
    assert_eq!(channels.next(), 100_000);
}

// Setting a channel's volume to 0 mutes that channel's contribution from the
// very next pulled sample on.
#[test]
fn zero_volume_mutes_channel() {
    let loud = WaveSource::Custom(CustomSource::new(SAMPLE_UNIT));
    let channels = ChannelsBuilder::new().add_source(unit_source()).add_source(loud).build();
    let mut channels = channels.unwrap();
    channels.set_volume(0, 600_000);
    channels.set_volume(1, 800_000);
    assert_eq!(channels.next(), 700_000);
    channels.set_volume(1, 0);
    // The very next pull no longer hears channel 1 at all.
    assert_eq!(channels.next(), 300_000);
}

// Changing a channel's frequency mid-stream affects only samples pulled
// after the change.
#[test]
fn frequency_change_mid_stream() {
    let mut changed = ChannelsBuilder::new()
        .add_source(WaveSource::Square(SquareWave::new(300_000)))
        .build()
        .unwrap();
    let mut steady = ChannelsBuilder::new()
        .add_source(WaveSource::Square(SquareWave::new(300_000)))
        .build()
        .unwrap();
    let before_change: Vec<i64> = (0..50).map(|_| changed.next()).collect();
    let steady_prefix: Vec<i64> = (0..50).map(|_| steady.next()).collect();
    assert_eq!(before_change, steady_prefix);
    changed.set_frequency(0, 900_000);
    // The next sample still reflects the phase reached at the old rate.
    assert_eq!(changed.next(), steady.next());
}

// A source that reports a finite duration fails construction.
#[test]
fn finite_duration_fails_build() {
    let finite = WaveSource::Custom(CustomSource {
        value: SAMPLE_UNIT,
        channel_count: 1,
        frame_len: None,
        duration: Some(1000),
    });
    let result = ChannelsBuilder::new().add_source(finite).build();
    assert_eq!(result.err(), Some(ChannelsError::FiniteSource { index: 0 }));
}

// A source that reports a finite frame length fails construction too.
#[test]
fn finite_frame_len_fails_build() {
    let framed = WaveSource::Custom(CustomSource {
        value: 0,
        channel_count: 1,
        frame_len: Some(512),
        duration: None,
    });
    let result = ChannelsBuilder::new().add_source(unit_source()).add_source(framed).build();
    assert_eq!(result.err(), Some(ChannelsError::FiniteSource { index: 1 }));
}

// A source that is not mono fails construction, reported at its index.
#[test]
fn stereo_source_fails_build() {
    let stereo = WaveSource::Custom(CustomSource {
        value: 0,
        channel_count: 2,
        frame_len: None,
        duration: None,
    });
    let result = ChannelsBuilder::new().add_source(unit_source()).add_source(stereo).build();
    assert_eq!(result.err(), Some(ChannelsError::NotMono { index: 1 }));
}

// An empty mixer builds and is silent.
#[test]
fn empty_mixer_is_silent() {
    let mut channels = ChannelsBuilder::new().build().unwrap();
    assert_eq!(channels.channel_count(), 0);
    assert_eq!(channels.next(), 0);
}

// A mixer that holds a noise channel still keeps its output within the
// engine's sample range.
#[test]
fn noise_mixes_within_bounds() {
    let mut channels = ChannelsBuilder::new()
        .add_source(WaveSource::Noise(WhiteNoise::new()))
        .add_source(unit_source())
        .build()
        .unwrap();
    channels.set_volume(0, VOLUME_LIMIT);
    for _ in 0..1000 {
        let x = channels.next();
        assert!(-6_000_000_000_000 <= x && x <= 6_000_000_000_000);
    }
}
