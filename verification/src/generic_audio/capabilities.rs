//! Codec-specific capability sets a server publishes: bitmask sets of
//! sampling frequencies, frame durations and channel counts, and the
//! supported octets-per-frame range.
use vstd::bytes::*;
use vstd::prelude::*;

use super::OctetsPerCodecFrame;
use super::SamplingFrequency;

verus! {

/// One published capability entry, keyed on the wire by a one-byte
/// type tag (see [`CodecSpecificCapabilities::as_type`]).
#[derive(Debug, Clone, Copy, PartialEq)]
pub enum CodecSpecificCapabilities {
    SupportedSamplingFrequencies(SupportedSamplingFrequencies),
    SupportedFrameDurations(SupportedFrameDurations),
    SupportedAudioChannelCounts(SupportedAudioChannelCounts),
    SupportedOctetsPerCodecFrame(OctetsPerCodecFrame),
    SupportedMaxCodecFramesPerSDU(u8),
}

impl CodecSpecificCapabilities {
    pub open spec fn spec_as_type(self) -> u8 {
        match self {
            CodecSpecificCapabilities::SupportedSamplingFrequencies(_) => 1,
            CodecSpecificCapabilities::SupportedFrameDurations(_) => 2,
            CodecSpecificCapabilities::SupportedAudioChannelCounts(_) => 3,
            CodecSpecificCapabilities::SupportedOctetsPerCodecFrame(_) => 4,
            CodecSpecificCapabilities::SupportedMaxCodecFramesPerSDU(_) => 5,
        }
    }

    /// The one-byte type tag that keys this entry on the wire.
    pub fn as_type(&self) -> (r: u8)
        ensures
            r == self.spec_as_type(),
    {
        match self {
            CodecSpecificCapabilities::SupportedSamplingFrequencies(_) => 1,
            CodecSpecificCapabilities::SupportedFrameDurations(_) => 2,
            CodecSpecificCapabilities::SupportedAudioChannelCounts(_) => 3,
            CodecSpecificCapabilities::SupportedOctetsPerCodecFrame(_) => 4,
            CodecSpecificCapabilities::SupportedMaxCodecFramesPerSDU(_) => 5,
        }
    }
}

/// The bit a sampling frequency occupies in the supported set.
pub open spec fn spec_frequency_bit(f: SamplingFrequency) -> u16 {
    1u16 << f.spec_bit_position()
}

/// The bitmask accumulated from a list of frequencies, in order, by
/// bitwise OR.
pub open spec fn spec_accumulated_frequencies(freqs: Seq<SamplingFrequency>) -> u16
    decreases freqs.len(),
{
    if freqs.len() == 0 {
        0u16
    } else {
        spec_accumulated_frequencies(freqs.drop_last()) | spec_frequency_bit(freqs.last())
    }
}

/// Bitmask over the 13 defined sampling frequencies: a set bit means
/// the server supports streams at that rate.
#[derive(Debug, Clone, Copy, PartialEq, Eq, Structural)]
pub struct SupportedSamplingFrequencies(pub u16);

impl SupportedSamplingFrequencies {
    /// The set holding exactly the given frequencies: combination is
    /// OR-accumulation over bit positions, so duplicates are harmless
    /// and the empty list gives the empty set.
    pub fn new(frequencies: &[SamplingFrequency]) -> (r: Self)
        ensures
            r.0 == spec_accumulated_frequencies(frequencies@),
    {
        let mut sampling_frequencies: u16 = 0;
        let ghost all = frequencies@;
        for i in 0..frequencies.len()
            invariant
                sampling_frequencies == spec_accumulated_frequencies(all.take(i as int)),
                all == frequencies@,
        {
            proof {
                assert(all.take(i + 1).drop_last() == all.take(i as int));
                assert(all.take(i + 1).last() == all[i as int]);
            }
            Self::add(&mut sampling_frequencies, frequencies[i]);
        }
        proof {
            assert(all.take(frequencies@.len() as int) == frequencies@);
        }
        SupportedSamplingFrequencies(sampling_frequencies)
    }

    /// OR one frequency's bit into an accumulating mask.
    pub fn add(frequencies: &mut u16, sampling_frequency: SamplingFrequency)
        ensures
            *final(frequencies) == *old(frequencies) | spec_frequency_bit(sampling_frequency),
    {
        let position = sampling_frequency.bit_position();
        *frequencies = *frequencies | (1u16 << position);
    }

}

impl Default for SupportedSamplingFrequencies {
    /// Only the default sampling frequency supported.
    fn default() -> (r: Self)
        ensures
            r.0 == spec_frequency_bit(SamplingFrequency::Hz8000),
    {
        proof {
            assert(1u16 << 0u8 == 1) by (bit_vector);
        }
        SupportedSamplingFrequencies(1)
    }
}

/// The bitmask published for the given frame-duration support: bit 0
/// for 7.5 ms support, bit 1 for 10 ms support, and bits 4 and 5 for a
/// preference, which is only expressible when both durations are
/// supported.
pub open spec fn spec_frame_duration_bits(
    support_7_5_ms: bool,
    support_10_ms: bool,
    prefer_7_5_ms: bool,
    prefer_10_ms: bool,
) -> u8 {
    (if support_7_5_ms {
        0x01u8
    } else {
        0u8
    }) | (if support_10_ms {
        0x02u8
    } else {
        0u8
    }) | (if support_7_5_ms && support_10_ms && prefer_7_5_ms {
        0x10u8
    } else {
        0u8
    }) | (if support_7_5_ms && support_10_ms && prefer_10_ms {
        0x20u8
    } else {
        0u8
    })
}

/// Bitmask of supported and preferred codec frame durations.
#[derive(Debug, Clone, Copy, PartialEq, Eq, Structural)]
pub struct SupportedFrameDurations(pub u8);

impl SupportedFrameDurations {
    pub fn new(support_7_5_ms: bool, support_10_ms: bool, prefer_7_5_ms: bool, prefer_10_ms: bool)
        -> (r: Self)
        ensures
            r.0 == spec_frame_duration_bits(support_7_5_ms, support_10_ms, prefer_7_5_ms,
            prefer_10_ms),
    {
        let mut value: u8 = 0;
        if support_7_5_ms {
            value = value | 0x01;
        }
        if support_10_ms {
            value = value | 0x02;
        }
        if support_7_5_ms && support_10_ms && prefer_7_5_ms {
            value = value | 0x10;
        }
        if support_7_5_ms && support_10_ms && prefer_10_ms {
            value = value | 0x20;
        }
        proof {
            let v = value;
            assert(0u8 | 0x01u8 == 0x01u8 && 0u8 | 0x02u8 == 0x02u8 && 0x01u8 | 0x02u8 == 0x03u8
                && 0u8 | 0u8 == 0u8 && 0x03u8 | 0x10u8 == 0x13u8 && 0x03u8 | 0x20u8 == 0x23u8
                && 0x13u8 | 0x20u8 == 0x33u8 && 0x01u8 | 0u8 == 0x01u8 && 0x02u8 | 0u8 == 0x02u8
                && 0x03u8 | 0u8 == 0x03u8 && 0x13u8 | 0u8 == 0x13u8 && 0x23u8 | 0u8 == 0x23u8
                && 0x33u8 | 0u8 == 0x33u8 && 0x23u8 | 0x10u8 == 0x33u8) by (bit_vector);
        }
        Self(value)
    }

}

impl Default for SupportedFrameDurations {
    /// Only the 10 ms duration supported, no preference.
    fn default() -> (r: Self)
        ensures
            r.0 == spec_frame_duration_bits(false, true, false, false),
    {
        proof {
            assert(0u8 | 0x02u8 | 0u8 | 0u8 == 0x02u8) by (bit_vector);
        }
        Self::new(false, true, false, false)
    }
}

/// The bitmask published for a channel count: counts one through eight
/// set their bit, an out-of-range count contributes nothing.
pub open spec fn spec_channel_count_bits(count: u8) -> u8 {
    if 1 <= count <= 8 {
        1u8 << ((count - 1) as u8)
    } else {
        0u8
    }
}

/// Bitmask of audio channel counts the server can serve in one stream.
#[derive(Debug, Clone, Copy, PartialEq, Eq, Structural)]
pub struct SupportedAudioChannelCounts(pub u8);

impl SupportedAudioChannelCounts {
    /// The set holding the given channel count; a count of zero or
    /// above eight is out of range and gives the empty set, not an
    /// error.
    pub fn new(count: u8) -> (r: Self)
        ensures
            r.0 == spec_channel_count_bits(count),
    {
        let mut value: u8 = 0;
        if 1 <= count && count <= 8 {
            value = value | (1u8 << (count - 1));
            proof {
                let c = count;
                assert(0u8 | (1u8 << ((c - 1) as u8)) == 1u8 << ((c - 1) as u8)) by (bit_vector);
            }
        }
        Self(value)
    }

}

/// The value bytes of a capability entry, without the length and type
/// prefix.
pub open spec fn spec_capability_value(c: CodecSpecificCapabilities) -> Seq<u8> {
    match c {
        CodecSpecificCapabilities::SupportedSamplingFrequencies(f) => spec_u16_to_le_bytes(f.0),
        CodecSpecificCapabilities::SupportedFrameDurations(d) => seq![d.0],
        CodecSpecificCapabilities::SupportedAudioChannelCounts(x) => seq![x.0],
        CodecSpecificCapabilities::SupportedOctetsPerCodecFrame(o) => o.spec_as_gatt(),
        CodecSpecificCapabilities::SupportedMaxCodecFramesPerSDU(n) => seq![n],
    }
}

/// The length-type-value wire form of a capability entry: a length
/// byte counting the type byte and the value, the type tag, then the
/// value.
pub open spec fn spec_capability_ltv(c: CodecSpecificCapabilities) -> Seq<u8> {
    seq![(spec_capability_value(c).len() + 1) as u8, c.spec_as_type()] + spec_capability_value(c)
}

impl CodecSpecificCapabilities {
    /// Encode as one length-type-value record.
    pub fn as_ltv(&self) -> (r: Vec<u8>)
        ensures
            r@ == spec_capability_ltv(*self),
    {
        let mut out: Vec<u8> = Vec::new();
        match self {
            CodecSpecificCapabilities::SupportedSamplingFrequencies(f) => {
                out.push(3);
                out.push(1);
                let mut value = u16_to_le_bytes(f.0);
                out.append(&mut value);
                proof {
                    lemma_auto_spec_u16_to_from_le_bytes();
                    assert(out@ =~= spec_capability_ltv(*self));
                }
            },
            CodecSpecificCapabilities::SupportedFrameDurations(d) => {
                out.push(2);
                out.push(2);
                out.push(d.0);
                proof {
                    assert(out@ =~= spec_capability_ltv(*self));
                }
            },
            CodecSpecificCapabilities::SupportedAudioChannelCounts(x) => {
                out.push(2);
                out.push(3);
                out.push(x.0);
                proof {
                    assert(out@ =~= spec_capability_ltv(*self));
                }
            },
            CodecSpecificCapabilities::SupportedOctetsPerCodecFrame(o) => {
                out.push(5);
                out.push(4);
                let mut value = o.as_gatt();
                out.append(&mut value);
                proof {
                    assert(out@ =~= spec_capability_ltv(*self));
                }
            },
            CodecSpecificCapabilities::SupportedMaxCodecFramesPerSDU(n) => {
                out.push(2);
                out.push(5);
                out.push(*n);
                proof {
                    assert(out@ =~= spec_capability_ltv(*self));
                }
            },
        }
        out
    }
}

} // verus!
