use flow_field::channel::{
    channel_axis, channel_frequency, channel_offset, Channel, CHANNEL_AXIS_STEP, CHAOS_FREQUENCY,
};
use noise::{NoiseFn, Simplex};

const ALL_CHANNELS: [Channel; 5] = [
    Channel::Magnitude,
    Channel::Rotation,
    Channel::Chaos,
    Channel::Chroma,
    Channel::Hue,
];

#[test]
fn channel_axes_are_consecutive() {
    assert_eq!(channel_axis(Channel::Magnitude), 0);
    assert_eq!(channel_axis(Channel::Rotation), 1);
    assert_eq!(channel_axis(Channel::Chaos), 2);
    assert_eq!(channel_axis(Channel::Chroma), 3);
    assert_eq!(channel_axis(Channel::Hue), 4);
}

#[test]
fn channel_offsets_step_by_the_axis_step() {
    assert_eq!(CHANNEL_AXIS_STEP, 100_000);
    assert_eq!(channel_offset(Channel::Magnitude), 0);
    assert_eq!(channel_offset(Channel::Rotation), 100_000);
    assert_eq!(channel_offset(Channel::Chaos), 200_000);
    assert_eq!(channel_offset(Channel::Chroma), 300_000);
    assert_eq!(channel_offset(Channel::Hue), 400_000);
}

#[test]
fn channel_offsets_pairwise_distinct() {
    for a in ALL_CHANNELS {
        for b in ALL_CHANNELS {
            if a != b {
                assert_ne!(channel_offset(a), channel_offset(b));
            }
        }
    }
}

#[test]
fn chaos_is_the_only_high_frequency_channel() {
    assert_eq!(CHAOS_FREQUENCY, 100);
    assert_eq!(channel_frequency(Channel::Chaos), 100);
    assert_eq!(channel_frequency(Channel::Magnitude), 1);
    assert_eq!(channel_frequency(Channel::Rotation), 1);
    assert_eq!(channel_frequency(Channel::Chroma), 1);
    assert_eq!(channel_frequency(Channel::Hue), 1);
}

fn sample(generator: &Simplex, x: f64, y: f64, t: f64, channel: Channel) -> f64 {
    let frequency = channel_frequency(channel) as f64;
    generator.get([
        x * frequency,
        y * frequency,
        t,
        channel_offset(channel) as f64,
    ])
}

#[test]
fn sampling_is_deterministic_for_a_fixed_seed() {
    let generator = Simplex::new(7);
    for channel in ALL_CHANNELS {
        let first = sample(&generator, 0.04, 0.12, 0.9, channel);
        let second = sample(&generator, 0.04, 0.12, 0.9, channel);
        assert_eq!(first.to_bits(), second.to_bits());
    }
    // a second generator with the same seed agrees bit for bit
    let twin = Simplex::new(7);
    let first = sample(&generator, 0.31, 0.07, 2.5, Channel::Magnitude);
    let second = sample(&twin, 0.31, 0.07, 2.5, Channel::Magnitude);
    assert_eq!(first.to_bits(), second.to_bits());
}

#[test]
fn channels_are_not_trivially_equal() {
    let generator = Simplex::new(7);
    // same position and time, different channels: the offsets keep the
    // samples apart, so no two base-frequency channels coincide everywhere
    let points = [(0.04, 0.12, 0.9), (0.31, 0.07, 2.5), (0.66, 0.42, 1.1)];
    for a in [Channel::Magnitude, Channel::Rotation, Channel::Chroma, Channel::Hue] {
        for b in [Channel::Magnitude, Channel::Rotation, Channel::Chroma, Channel::Hue] {
            if a != b {
                let mut all_equal = true;
                for (x, y, t) in points {
                    if sample(&generator, x, y, t, a).to_bits()
                        != sample(&generator, x, y, t, b).to_bits()
                    {
                        all_equal = false;
                    }
                }
                assert!(!all_equal);
            }
        }
    }
}
