//! Codec-specific configuration: the values a stream is configured
//! with, as opposed to the capability sets a server publishes.
use vstd::prelude::*;

use super::AudioLocation;
use super::OctetsPerCodecFrame;

verus! {

/// One codec-specific configuration entry, keyed on the wire by a
/// one-byte type tag (see [`CodecSpecificConfiguration::as_type`]).
#[derive(Debug, Clone, Copy, PartialEq)]
pub enum CodecSpecificConfiguration {
    SamplingFrequency(SamplingFrequency),
    FrameDuration(FrameDuration),
    AudioChannelAllocation(AudioLocation),
    OctetsPerCodecFrame(OctetsPerCodecFrame),
}

impl CodecSpecificConfiguration {
    pub open spec fn spec_as_type(self) -> u8 {
        match self {
            CodecSpecificConfiguration::SamplingFrequency(_) => 1,
            CodecSpecificConfiguration::FrameDuration(_) => 2,
            CodecSpecificConfiguration::AudioChannelAllocation(_) => 3,
            CodecSpecificConfiguration::OctetsPerCodecFrame(_) => 4,
        }
    }

    /// The one-byte type tag that keys this entry on the wire.
    pub fn as_type(&self) -> (r: u8)
        ensures
            r == self.spec_as_type(),
    {
        match self {
            CodecSpecificConfiguration::SamplingFrequency(_) => 1,
            CodecSpecificConfiguration::FrameDuration(_) => 2,
            CodecSpecificConfiguration::AudioChannelAllocation(_) => 3,
            CodecSpecificConfiguration::OctetsPerCodecFrame(_) => 4,
        }
    }
}

/// A single sampling frequency a stream runs at.
#[derive(Debug, Clone, Copy, PartialEq, Eq, Structural)]
pub enum SamplingFrequency {
    Hz8000,
    Hz11025,
    Hz16000,
    Hz22050,
    Hz24000,
    Hz32000,
    Hz44100,
    Hz48000,
    Hz88200,
    Hz96000,
    Hz176400,
    Hz192000,
    Hz384000,
}

impl SamplingFrequency {
    /// The bit index this frequency occupies inside the supported
    /// sampling-frequencies bitmask.
    pub open spec fn spec_bit_position(self) -> u8 {
        match self {
            SamplingFrequency::Hz8000 => 0,
            SamplingFrequency::Hz11025 => 1,
            SamplingFrequency::Hz16000 => 2,
            SamplingFrequency::Hz22050 => 3,
            SamplingFrequency::Hz24000 => 4,
            SamplingFrequency::Hz32000 => 5,
            SamplingFrequency::Hz44100 => 6,
            SamplingFrequency::Hz48000 => 7,
            SamplingFrequency::Hz88200 => 8,
            SamplingFrequency::Hz96000 => 9,
            SamplingFrequency::Hz176400 => 10,
            SamplingFrequency::Hz192000 => 11,
            SamplingFrequency::Hz384000 => 12,
        }
    }

    pub fn bit_position(&self) -> (r: u8)
        ensures
            r == self.spec_bit_position(),
            r <= 12,
    {
        match self {
            SamplingFrequency::Hz8000 => 0,
            SamplingFrequency::Hz11025 => 1,
            SamplingFrequency::Hz16000 => 2,
            SamplingFrequency::Hz22050 => 3,
            SamplingFrequency::Hz24000 => 4,
            SamplingFrequency::Hz32000 => 5,
            SamplingFrequency::Hz44100 => 6,
            SamplingFrequency::Hz48000 => 7,
            SamplingFrequency::Hz88200 => 8,
            SamplingFrequency::Hz96000 => 9,
            SamplingFrequency::Hz176400 => 10,
            SamplingFrequency::Hz192000 => 11,
            SamplingFrequency::Hz384000 => 12,
        }
    }
}

impl Default for SamplingFrequency {
    fn default() -> (r: Self)
        ensures
            r == SamplingFrequency::Hz8000,
    {
        SamplingFrequency::Hz8000
    }
}

/// A single frame duration a stream runs at.
#[derive(Debug, Clone, Copy, PartialEq, Eq, Structural)]
pub enum FrameDuration {
    Duration7_5MS,
    Duration10MS,
}

impl Default for FrameDuration {
    fn default() -> (r: Self)
        ensures
            r == FrameDuration::Duration10MS,
    {
        FrameDuration::Duration10MS
    }
}

} // verus!
