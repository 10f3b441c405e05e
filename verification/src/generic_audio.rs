//! Generic audio data model: audio-location and usage-context bitmasks
//! and the octets-per-codec-frame range, each with a bit-exact wire
//! encoding (little-endian byte buffers of fixed width).
use vstd::bytes::*;
use vstd::prelude::*;

use crate::DecodeError;

mod capabilities;
mod configuration;
mod metadata;

pub use capabilities::spec_accumulated_frequencies;
pub use capabilities::spec_capability_ltv;
pub use capabilities::spec_capability_value;
pub use capabilities::spec_channel_count_bits;
pub use capabilities::spec_frame_duration_bits;
pub use capabilities::spec_frequency_bit;
pub use capabilities::CodecSpecificCapabilities;
pub use capabilities::SupportedAudioChannelCounts;
pub use capabilities::SupportedFrameDurations;
pub use capabilities::SupportedSamplingFrequencies;
pub use configuration::CodecSpecificConfiguration;
pub use configuration::FrameDuration;
pub use configuration::SamplingFrequency;
pub use metadata::spec_metadata_ltv;
pub use metadata::spec_metadata_value;
pub use metadata::spec_metadata_wf;
pub use metadata::ExtendedMetadata;
pub use metadata::Metadata;
pub use metadata::ParentalRating;
pub use metadata::VenderSpecific;

verus! {

/// Audio location bit for mono audio: no position bit set.
pub const MONO: u32 = 0x0000_0000;

pub const FRONT_LEFT: u32 = 0x0000_0001;

pub const FRONT_RIGHT: u32 = 0x0000_0002;

pub const FRONT_CENTER: u32 = 0x0000_0004;

pub const LOW_FREQUENCY_EFFECTS_1: u32 = 0x0000_0008;

pub const BACK_LEFT: u32 = 0x0000_0010;

pub const BACK_RIGHT: u32 = 0x0000_0020;

pub const FRONT_LEFT_OF_CENTER: u32 = 0x0000_0040;

pub const FRONT_RIGHT_OF_CENTER: u32 = 0x0000_0080;

pub const BACK_CENTER: u32 = 0x0000_0100;

pub const LOW_FREQUENCY_EFFECTS_2: u32 = 0x0000_0200;

pub const SIDE_LEFT: u32 = 0x0000_0400;

pub const SIDE_RIGHT: u32 = 0x0000_0800;

pub const TOP_FRONT_LEFT: u32 = 0x0000_1000;

pub const TOP_FRONT_RIGHT: u32 = 0x0000_2000;

pub const TOP_FRONT_CENTER: u32 = 0x0000_4000;

pub const TOP_CENTER: u32 = 0x0000_8000;

pub const TOP_BACK_LEFT: u32 = 0x0001_0000;

pub const TOP_BACK_RIGHT: u32 = 0x0002_0000;

pub const TOP_SIDE_LEFT: u32 = 0x0004_0000;

pub const TOP_SIDE_RIGHT: u32 = 0x0008_0000;

pub const TOP_BACK_CENTER: u32 = 0x0010_0000;

pub const BOTTOM_FRONT_CENTER: u32 = 0x0020_0000;

pub const BOTTOM_FRONT_LEFT: u32 = 0x0040_0000;

pub const BOTTOM_FRONT_RIGHT: u32 = 0x0080_0000;

pub const FRONT_LEFT_WIDE: u32 = 0x0100_0000;

pub const FRONT_RIGHT_WIDE: u32 = 0x0200_0000;

pub const LEFT_SURROUND: u32 = 0x0400_0000;

pub const RIGHT_SURROUND: u32 = 0x0800_0000;

/// All audio location bits that name a defined speaker position.
pub const AUDIO_LOCATION_MASK: u32 = 0x0FFF_FFFF;

/// Width in bytes of the encoded form of [`AudioLocation`].
pub const AUDIO_LOCATION_SIZE: usize = 4;

/// A 32-bit bitmask of speaker positions, or the sentinel for a wire
/// value that set bits outside the defined position set.
///
/// A mask with no bit set is mono audio. Values built by
/// [`AudioLocation::from_bits`] or decoded from the wire satisfy
/// [`AudioLocation::wf`]: a `Positions` mask never holds an undefined
/// bit; out-of-range wire values decode to `Undefined` instead of
/// failing, so that forward-compatible peers are not protocol errors.
#[derive(Debug, Clone, Copy, PartialEq, Eq, Structural)]
pub enum AudioLocation {
    Positions { bits: u32 },
    Undefined,
}

impl AudioLocation {
    /// True of a mask whose bits all name defined positions.
    pub open spec fn spec_valid_bits(bits: u32) -> bool {
        bits & !AUDIO_LOCATION_MASK == 0
    }

    /// A well-formed value never pairs `Positions` with undefined bits.
    pub open spec fn wf(self) -> bool {
        self matches AudioLocation::Positions { bits } ==> Self::spec_valid_bits(bits)
    }

    pub open spec fn spec_from_bits(bits: u32) -> AudioLocation {
        if Self::spec_valid_bits(bits) {
            AudioLocation::Positions { bits }
        } else {
            AudioLocation::Undefined
        }
    }

    /// Classify a raw 32-bit mask: a mask within the defined position
    /// set is kept, anything else is the `Undefined` sentinel.
    pub fn from_bits(bits: u32) -> (r: AudioLocation)
        ensures
            r == Self::spec_from_bits(bits),
            r.wf(),
    {
        if bits & !AUDIO_LOCATION_MASK == 0 {
            AudioLocation::Positions { bits }
        } else {
            AudioLocation::Undefined
        }
    }

    /// The raw mask of a defined set of positions.
    pub fn bits(&self) -> (r: u32)
        requires
            *self is Positions,
        ensures
            r == self->bits,
    {
        match self {
            AudioLocation::Positions { bits } => *bits,
            AudioLocation::Undefined => 0,
        }
    }

    /// Encoded wire form of a defined mask.
    pub open spec fn spec_as_gatt(self) -> Seq<u8>
        recommends
            self is Positions,
    {
        spec_u32_to_le_bytes(self->bits)
    }

    /// Encode as 4 little-endian bytes. Only a defined mask has a wire
    /// form; the `Undefined` sentinel is never published.
    pub fn as_gatt(&self) -> (r: Vec<u8>)
        requires
            *self is Positions,
        ensures
            r@ == self.spec_as_gatt(),
            r@.len() == AUDIO_LOCATION_SIZE,
    {
        proof {
            lemma_auto_spec_u32_to_from_le_bytes();
        }
        u32_to_le_bytes(self.bits())
    }

    /// The value a 4-byte buffer decodes to.
    pub open spec fn spec_from_gatt(data: Seq<u8>) -> AudioLocation
        recommends
            data.len() == AUDIO_LOCATION_SIZE,
    {
        Self::spec_from_bits(spec_u32_from_le_bytes(data))
    }

    /// Decode from a wire buffer: exactly 4 little-endian bytes, any
    /// other length is `InvalidLength`. Bits outside the defined
    /// position set decode to `Undefined`, never to an error.
    pub fn from_gatt(data: &[u8]) -> (r: Result<AudioLocation, DecodeError>)
        ensures
            data@.len() != AUDIO_LOCATION_SIZE ==> r == Err::<AudioLocation, DecodeError>(
                DecodeError::InvalidLength,
            ),
            data@.len() == AUDIO_LOCATION_SIZE ==> r == Ok::<AudioLocation, DecodeError>(
                Self::spec_from_gatt(data@),
            ),
            r matches Ok(v) ==> v.wf(),
    {
        if data.len() != AUDIO_LOCATION_SIZE {
            Err(DecodeError::InvalidLength)
        } else {
            let bits = u32_from_le_bytes(data);
            Ok(Self::from_bits(bits))
        }
    }
}

impl Default for AudioLocation {
    /// Mono audio: no specified audio location.
    fn default() -> (r: Self)
        ensures
            r == (AudioLocation::Positions { bits: MONO }),
            r.wf(),
    {
        proof {
            assert(MONO & !AUDIO_LOCATION_MASK == 0) by (bit_vector);
        }
        AudioLocation::Positions { bits: MONO }
    }
}

/// Every defined position mask survives the trip onto the wire and
/// back: encoding then decoding returns the value itself.
pub proof fn lemma_audio_location_round_trip(v: AudioLocation)
    requires
        v is Positions,
        v.wf(),
    ensures
        AudioLocation::spec_from_gatt(v.spec_as_gatt()) == v,
{
    lemma_auto_spec_u32_to_from_le_bytes();
    let bits = v->bits;
    assert(spec_u32_to_le_bytes(bits).len() == 4);
    assert(spec_u32_from_le_bytes(spec_u32_to_le_bytes(bits)) == bits);
}

/// Audio context bit for an unspecified use case.
pub const CONTEXT_UNSPECIFIED: u16 = 0x0001;

pub const CONTEXT_CONVERSATIONAL: u16 = 0x0002;

pub const CONTEXT_MEDIA: u16 = 0x0004;

pub const CONTEXT_GAME: u16 = 0x0008;

pub const CONTEXT_INSTRUCTIONAL: u16 = 0x0010;

pub const CONTEXT_VOICE_ASSISTANTS: u16 = 0x0020;

pub const CONTEXT_LIVE: u16 = 0x0040;

pub const CONTEXT_SOUND_EFFECTS: u16 = 0x0080;

pub const CONTEXT_NOTIFICATIONS: u16 = 0x0100;

pub const CONTEXT_RINGTONE: u16 = 0x0200;

pub const CONTEXT_ALERTS: u16 = 0x0400;

pub const CONTEXT_ALARM: u16 = 0x0800;

/// All defined usage-context bits.
pub const CONTEXT_TYPE_MASK: u16 = 0x0FFF;

/// Width in bytes of the encoded form of [`ContextType`].
pub const CONTEXT_TYPE_SIZE: usize = 2;

/// A 16-bit bitmask of audio usage contexts, or the sentinel for a
/// wire value that set bits outside the defined context set.
///
/// A mask with no bit set prohibits every use case. As with
/// [`AudioLocation`], out-of-range wire values decode to `Undefined`
/// rather than failing.
#[derive(Debug, Clone, Copy, PartialEq, Eq, Structural)]
pub enum ContextType {
    Contexts { bits: u16 },
    Undefined,
}

impl ContextType {
    /// True of a mask whose bits all name defined contexts.
    pub open spec fn spec_valid_bits(bits: u16) -> bool {
        bits & !CONTEXT_TYPE_MASK == 0
    }

    /// A well-formed value never pairs `Contexts` with undefined bits.
    pub open spec fn wf(self) -> bool {
        self matches ContextType::Contexts { bits } ==> Self::spec_valid_bits(bits)
    }

    pub open spec fn spec_from_bits(bits: u16) -> ContextType {
        if Self::spec_valid_bits(bits) {
            ContextType::Contexts { bits }
        } else {
            ContextType::Undefined
        }
    }

    /// Classify a raw 16-bit mask: a mask within the defined context
    /// set is kept, anything else is the `Undefined` sentinel.
    pub fn from_bits(bits: u16) -> (r: ContextType)
        ensures
            r == Self::spec_from_bits(bits),
            r.wf(),
    {
        if bits & !CONTEXT_TYPE_MASK == 0 {
            ContextType::Contexts { bits }
        } else {
            ContextType::Undefined
        }
    }

    /// The raw mask of a defined set of contexts.
    pub fn bits(&self) -> (r: u16)
        requires
            *self is Contexts,
        ensures
            r == self->bits,
    {
        match self {
            ContextType::Contexts { bits } => *bits,
            ContextType::Undefined => 0,
        }
    }

    /// Encoded wire form of a defined mask.
    pub open spec fn spec_as_gatt(self) -> Seq<u8>
        recommends
            self is Contexts,
    {
        spec_u16_to_le_bytes(self->bits)
    }

    /// Encode as 2 little-endian bytes. Only a defined mask has a wire
    /// form; the `Undefined` sentinel is never published.
    pub fn as_gatt(&self) -> (r: Vec<u8>)
        requires
            *self is Contexts,
        ensures
            r@ == self.spec_as_gatt(),
            r@.len() == CONTEXT_TYPE_SIZE,
    {
        proof {
            lemma_auto_spec_u16_to_from_le_bytes();
        }
        u16_to_le_bytes(self.bits())
    }

    /// The value a 2-byte buffer decodes to.
    pub open spec fn spec_from_gatt(data: Seq<u8>) -> ContextType
        recommends
            data.len() == CONTEXT_TYPE_SIZE,
    {
        Self::spec_from_bits(spec_u16_from_le_bytes(data))
    }

    /// Decode from a wire buffer: exactly 2 little-endian bytes, any
    /// other length is `InvalidLength`. Bits outside the defined
    /// context set decode to `Undefined`, never to an error.
    pub fn from_gatt(data: &[u8]) -> (r: Result<ContextType, DecodeError>)
        ensures
            data@.len() != CONTEXT_TYPE_SIZE ==> r == Err::<ContextType, DecodeError>(
                DecodeError::InvalidLength,
            ),
            data@.len() == CONTEXT_TYPE_SIZE ==> r == Ok::<ContextType, DecodeError>(
                Self::spec_from_gatt(data@),
            ),
            r matches Ok(v) ==> v.wf(),
    {
        if data.len() != CONTEXT_TYPE_SIZE {
            Err(DecodeError::InvalidLength)
        } else {
            let bits = u16_from_le_bytes(data);
            Ok(Self::from_bits(bits))
        }
    }
}

impl Default for ContextType {
    /// No context bit set: audio prohibited for every use case.
    fn default() -> (r: Self)
        ensures
            r == (ContextType::Contexts { bits: 0u16 }),
            r.wf(),
    {
        proof {
            assert(0u16 & !CONTEXT_TYPE_MASK == 0) by (bit_vector);
        }
        ContextType::Contexts { bits: 0 }
    }
}

/// Every defined context mask survives the trip onto the wire and
/// back: encoding then decoding returns the value itself.
pub proof fn lemma_context_type_round_trip(v: ContextType)
    requires
        v is Contexts,
        v.wf(),
    ensures
        ContextType::spec_from_gatt(v.spec_as_gatt()) == v,
{
    lemma_auto_spec_u16_to_from_le_bytes();
    let bits = v->bits;
    assert(spec_u16_to_le_bytes(bits).len() == 2);
    assert(spec_u16_from_le_bytes(spec_u16_to_le_bytes(bits)) == bits);
}

/// The kind of input a source device takes its audio from.
#[derive(Debug, Clone, Copy, PartialEq, Eq, Structural)]
pub enum AudioInputType {
    Unspecified,
    Bluetooth,
    Microphone,
    Analog,
    Digital,
    Radio,
    Streaming,
    Ambient,
    Undefined,
}

impl Default for AudioInputType {
    fn default() -> (r: Self)
        ensures
            r == AudioInputType::Unspecified,
    {
        AudioInputType::Unspecified
    }
}

/// Width in bytes of the encoded form of [`OctetsPerCodecFrame`].
pub const OCTETS_PER_CODEC_FRAME_SIZE: usize = 4;

/// Range of octets a codec may spend on one audio frame.
///
/// Constructed only with `min_octets <= max_octets`; a caller passing a
/// reversed range is a contract violation, not a wire error.
#[derive(Debug, Clone, Copy, PartialEq, Eq, Structural, Default)]
pub struct OctetsPerCodecFrame {
    pub min_octets: u16,
    pub max_octets: u16,
}

impl OctetsPerCodecFrame {
    pub open spec fn wf(self) -> bool {
        self.min_octets <= self.max_octets
    }

    pub fn new(min_octets: u16, max_octets: u16) -> (r: Self)
        requires
            min_octets <= max_octets,
        ensures
            r.min_octets == min_octets,
            r.max_octets == max_octets,
            r.wf(),
    {
        Self { min_octets, max_octets }
    }


    /// The 32-bit pack of the range: low 16 bits the minimum, high 16
    /// bits the maximum.
    pub open spec fn spec_packed(self) -> u32 {
        ((self.max_octets as u32) << 16) | (self.min_octets as u32)
    }

    /// Encoded wire form: the pack as 4 little-endian bytes.
    pub open spec fn spec_as_gatt(self) -> Seq<u8> {
        spec_u32_to_le_bytes(self.spec_packed())
    }

    /// Encode as a 32-bit pack in 4 little-endian bytes: low 16 bits
    /// carry the minimum, high 16 bits the maximum.
    pub fn as_gatt(&self) -> (r: Vec<u8>)
        ensures
            r@ == self.spec_as_gatt(),
            r@.len() == OCTETS_PER_CODEC_FRAME_SIZE,
    {
        proof {
            lemma_auto_spec_u32_to_from_le_bytes();
        }
        let packed: u32 = ((self.max_octets as u32) << 16) | (self.min_octets as u32);
        u32_to_le_bytes(packed)
    }

    /// The value a 4-byte buffer decodes to.
    pub open spec fn spec_from_gatt(data: Seq<u8>) -> OctetsPerCodecFrame
        recommends
            data.len() == OCTETS_PER_CODEC_FRAME_SIZE,
    {
        OctetsPerCodecFrame {
            min_octets: (spec_u32_from_le_bytes(data) & 0xFFFF) as u16,
            max_octets: (spec_u32_from_le_bytes(data) >> 16) as u16,
        }
    }

    /// Decode from a wire buffer: exactly 4 little-endian bytes, any
    /// other length is `InvalidLength`. The wire may carry a reversed
    /// range from a foreign peer; such a value decodes without error
    /// but does not satisfy [`OctetsPerCodecFrame::wf`].
    pub fn from_gatt(data: &[u8]) -> (r: Result<OctetsPerCodecFrame, DecodeError>)
        ensures
            data@.len() != OCTETS_PER_CODEC_FRAME_SIZE ==> r == Err::<
                OctetsPerCodecFrame,
                DecodeError,
            >(DecodeError::InvalidLength),
            data@.len() == OCTETS_PER_CODEC_FRAME_SIZE ==> r == Ok::<
                OctetsPerCodecFrame,
                DecodeError,
            >(Self::spec_from_gatt(data@)),
    {
        if data.len() != OCTETS_PER_CODEC_FRAME_SIZE {
            Err(DecodeError::InvalidLength)
        } else {
            let packed = u32_from_le_bytes(data);
            Ok(OctetsPerCodecFrame {
                min_octets: (packed & 0xFFFF) as u16,
                max_octets: (packed >> 16) as u16,
            })
        }
    }
}

/// Every octet range survives the trip onto the wire and back:
/// encoding then decoding returns the value itself.
pub proof fn lemma_octets_per_codec_frame_round_trip(v: OctetsPerCodecFrame)
    ensures
        OctetsPerCodecFrame::spec_from_gatt(v.spec_as_gatt()) == v,
{
    lemma_auto_spec_u32_to_from_le_bytes();
    let min = v.min_octets;
    let max = v.max_octets;
    let packed = v.spec_packed();
    assert(spec_u32_to_le_bytes(packed).len() == 4);
    assert(spec_u32_from_le_bytes(spec_u32_to_le_bytes(packed)) == packed);
    assert(((((max as u32) << 16) | (min as u32)) & 0xFFFF) as u16 == min) by (bit_vector);
    assert(((((max as u32) << 16) | (min as u32)) >> 16) as u16 == max) by (bit_vector);
}

} // verus!
