//! The fixed layout of the ten-band equalizer.
//!
//! The gains, the filter coefficients and the filtering itself are
//! floating-point work and live with the caller. What is fixed and counted
//! is here: the bands with their center frequencies, and the rule by which
//! the samples of an interleaved stereo stream fall to the two channels'
//! filter states.

use vstd::prelude::*;

verus! {

/// Number of equalizer bands.
pub const BAND_COUNT: usize = 10;

/// The center frequencies of the bands in hertz, lowest band first.
pub open spec fn band_centers() -> Seq<u32> {
    seq![31u32, 62u32, 125u32, 250u32, 500u32, 1000u32, 2000u32, 4000u32, 8000u32, 16000u32]
}

/// The center frequency in hertz of the band with the number `band`, where
/// there is such a band.
pub fn band_center_hz(band: usize) -> (center: Option<u32>)
    ensures
        center == if band < BAND_COUNT {
            Some(band_centers()[band as int])
        } else {
            None
        },
{
    let centers: [u32; 10] = [31, 62, 125, 250, 500, 1000, 2000, 4000, 8000, 16000];
    if band < BAND_COUNT {
        Some(centers[band])
    } else {
        None
    }
}

/// The band that a control with the number `index` sets, where `index`
/// names one of the bands.
pub fn band_of_control(index: i32) -> (band: Option<usize>)
    ensures
        band == if 0 <= index < BAND_COUNT {
            Some(index as usize)
        } else {
            None
        },
{
    if index >= 0 && index < 10 {
        Some(index as usize)
    } else {
        None
    }
}

/// One of the two channels of an interleaved stereo stream.
#[derive(Debug, Clone, Copy, PartialEq, Eq, Structural)]
pub enum Channel {
    Left,
    Right,
}

/// The channel of the sample with the number `sample`, counted from zero:
/// the first sample is a left one, and the channels alternate from there.
pub open spec fn channel_of(sample: nat) -> Channel {
    if sample % 2 == 0 {
        Channel::Left
    } else {
        Channel::Right
    }
}

impl Channel {
    /// The other channel.
    pub open spec fn other(self) -> Channel {
        match self {
            Channel::Left => Channel::Right,
            Channel::Right => Channel::Left,
        }
    }

    /// The channel of a stream's first sample.
    pub fn first() -> (channel: Channel)
        ensures
            channel == channel_of(0),
    {
        Channel::Left
    }

    /// The channel of the sample that follows one of this channel.
    pub fn flip(self) -> (next: Channel)
        ensures
            next == self.other(),
    {
        match self {
            Channel::Left => Channel::Right,
            Channel::Right => Channel::Left,
        }
    }
}

/// Each sample belongs to the other channel than the sample before it.
pub proof fn lemma_channels_alternate(sample: nat)
    ensures
        channel_of(sample + 1) == channel_of(sample).other(),
{
}

} // verus!
