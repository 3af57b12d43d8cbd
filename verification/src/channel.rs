//! Noise channels and their decorrelation bookkeeping.
//!
//! Every cell value is assembled from several scalar samples of one shared
//! four-dimensional noise field. All samples of one frame share the same
//! spatial and temporal coordinates; what keeps the channels statistically
//! independent is a large per-channel offset along the fourth axis, and, for
//! the chaos channel, a higher spatial frequency. This module fixes that
//! per-channel bookkeeping and proves that no two channels share an offset.

use vstd::prelude::*;

verus! {

/// Step between the fourth-axis offsets of consecutive channels. Large
/// enough that samples of different channels are far apart in noise space.
pub const CHANNEL_AXIS_STEP: u64 = 100_000;

/// Spatial frequency multiplier of the chaos channel, which jitters the
/// magnitude at a much finer spatial scale than the other channels.
pub const CHAOS_FREQUENCY: u64 = 100;

/// One scalar output channel of the field generator.
#[derive(Clone, Copy, Debug, PartialEq, Eq, Structural)]
pub enum Channel {
    /// Base length of the cell's vector.
    Magnitude,
    /// Rotation applied to the cell's vector.
    Rotation,
    /// High-frequency jitter added to the magnitude.
    Chaos,
    /// Colour chroma modulation.
    Chroma,
    /// Colour hue modulation.
    Hue,
}

/// Index of a channel along the fourth noise axis.
pub open spec fn spec_channel_axis(c: Channel) -> u64 {
    match c {
        Channel::Magnitude => 0,
        Channel::Rotation => 1,
        Channel::Chaos => 2,
        Channel::Chroma => 3,
        Channel::Hue => 4,
    }
}

/// Offset of a channel along the fourth noise axis.
pub open spec fn spec_channel_offset(c: Channel) -> int {
    spec_channel_axis(c) * CHANNEL_AXIS_STEP
}

/// Spatial frequency multiplier of a channel: the chaos channel samples the
/// field at a finer scale, every other channel at the base scale.
pub open spec fn spec_channel_frequency(c: Channel) -> u64 {
    match c {
        Channel::Chaos => CHAOS_FREQUENCY,
        _ => 1,
    }
}

/// Index of a channel along the fourth noise axis.
pub fn channel_axis(c: Channel) -> (a: u64)
    ensures
        a == spec_channel_axis(c),
{
    match c {
        Channel::Magnitude => 0,
        Channel::Rotation => 1,
        Channel::Chaos => 2,
        Channel::Chroma => 3,
        Channel::Hue => 4,
    }
}

/// Offset of a channel along the fourth noise axis of the sampled field.
pub fn channel_offset(c: Channel) -> (o: u64)
    ensures
        o == spec_channel_offset(c),
{
    channel_axis(c) * CHANNEL_AXIS_STEP
}

/// Spatial frequency multiplier applied to a channel's sample coordinates.
pub fn channel_frequency(c: Channel) -> (m: u64)
    ensures
        m == spec_channel_frequency(c),
{
    match c {
        Channel::Chaos => CHAOS_FREQUENCY,
        _ => 1,
    }
}

/// Law: distinct channels sample the noise field at distinct offsets along
/// the fourth axis, so no channel accidentally reuses another channel's
/// stream of samples.
pub proof fn lemma_channel_offsets_distinct(a: Channel, b: Channel)
    requires
        a != b,
    ensures
        spec_channel_offset(a) != spec_channel_offset(b),
{
}

} // verus!
