use trouble_audio::generic_audio::AudioInputType;
use trouble_audio::generic_audio::AudioLocation;
use trouble_audio::generic_audio::ContextType;
use trouble_audio::generic_audio::FrameDuration;
use trouble_audio::generic_audio::Metadata;
use trouble_audio::generic_audio::OctetsPerCodecFrame;
use trouble_audio::generic_audio::ParentalRating;
use trouble_audio::generic_audio::SamplingFrequency;
use trouble_audio::generic_audio::SupportedAudioChannelCounts;
use trouble_audio::generic_audio::SupportedFrameDurations;
use trouble_audio::generic_audio::SupportedSamplingFrequencies;
use trouble_audio::generic_audio::VenderSpecific;
use trouble_audio::generic_audio::AUDIO_LOCATION_MASK;
use trouble_audio::generic_audio::CONTEXT_MEDIA;
use trouble_audio::generic_audio::FRONT_LEFT;
use trouble_audio::generic_audio::FRONT_RIGHT;
use trouble_audio::generic_audio::MONO;
use trouble_audio::generic_audio::RIGHT_SURROUND;
use trouble_audio::DecodeError;

#[test]
fn audio_location_round_trips() {
    for bits in [MONO, FRONT_LEFT, FRONT_LEFT | FRONT_RIGHT, RIGHT_SURROUND, AUDIO_LOCATION_MASK] {
        let v = AudioLocation::from_bits(bits);
        assert_eq!(v, AudioLocation::Positions { bits });
        let encoded = v.as_gatt();
        assert_eq!(encoded.len(), 4);
        assert_eq!(AudioLocation::from_gatt(&encoded), Ok(v));
    }
}

#[test]
fn audio_location_encodes_little_endian() {
    let v = AudioLocation::Positions {
        bits: 0x0800_0001,
    };
    assert_eq!(v.as_gatt(), vec![0x01, 0x00, 0x00, 0x08]);
}

#[test]
fn audio_location_out_of_range_bits_decode_to_undefined() {
    assert_eq!(
        AudioLocation::from_gatt(&[0x00, 0x00, 0x00, 0xF0]),
        Ok(AudioLocation::Undefined)
    );
    assert_eq!(AudioLocation::from_bits(0xF000_0000), AudioLocation::Undefined);
}

#[test]
fn audio_location_wrong_length_is_invalid_length() {
    for data in [&[][..], &[1u8][..], &[1u8, 2, 3][..], &[1u8, 2, 3, 4, 5][..]] {
        assert_eq!(AudioLocation::from_gatt(data), Err(DecodeError::InvalidLength));
    }
}

#[test]
fn audio_location_default_is_mono() {
    assert_eq!(AudioLocation::default(), AudioLocation::Positions { bits: 0 });
}

#[test]
fn context_type_round_trips() {
    for bits in [0u16, CONTEXT_MEDIA, 0x0FFF] {
        let v = ContextType::from_bits(bits);
        assert_eq!(v, ContextType::Contexts { bits });
        let encoded = v.as_gatt();
        assert_eq!(encoded.len(), 2);
        assert_eq!(ContextType::from_gatt(&encoded), Ok(v));
    }
}

#[test]
fn context_type_out_of_range_bits_decode_to_undefined() {
    assert_eq!(ContextType::from_gatt(&[0x00, 0xF0]), Ok(ContextType::Undefined));
}

#[test]
fn context_type_wrong_length_is_invalid_length() {
    for data in [&[][..], &[1u8][..], &[1u8, 2, 3][..]] {
        assert_eq!(ContextType::from_gatt(data), Err(DecodeError::InvalidLength));
    }
}

#[test]
fn octets_per_codec_frame_packs_min_low_max_high() {
    let v = OctetsPerCodecFrame::new(0x1234, 0x5678);
    assert_eq!(v.as_gatt(), vec![0x34, 0x12, 0x78, 0x56]);
}

#[test]
fn octets_per_codec_frame_round_trips() {
    for (min, max) in [(0u16, 0u16), (40, 120), (0, 0xFFFF), (0xFFFF, 0xFFFF)] {
        let v = OctetsPerCodecFrame::new(min, max);
        let encoded = v.as_gatt();
        assert_eq!(encoded.len(), 4);
        assert_eq!(OctetsPerCodecFrame::from_gatt(&encoded), Ok(v));
    }
}

#[test]
fn octets_per_codec_frame_wrong_length_is_invalid_length() {
    assert_eq!(
        OctetsPerCodecFrame::from_gatt(&[1, 2, 3]),
        Err(DecodeError::InvalidLength)
    );
    assert_eq!(
        OctetsPerCodecFrame::from_gatt(&[1, 2, 3, 4, 5]),
        Err(DecodeError::InvalidLength)
    );
}

#[test]
fn supported_sampling_frequencies_accumulate_by_or() {
    let set = SupportedSamplingFrequencies::new(&[
        SamplingFrequency::Hz8000,
        SamplingFrequency::Hz48000,
        SamplingFrequency::Hz48000,
    ]);
    assert_eq!(set.0, 0x0081);
    assert_eq!(SupportedSamplingFrequencies::new(&[]).0, 0);
    assert_eq!(SupportedSamplingFrequencies::new(&[SamplingFrequency::Hz384000]).0, 0x1000);
}

#[test]
fn supported_sampling_frequencies_add_sets_one_bit() {
    let mut bits: u16 = 0;
    SupportedSamplingFrequencies::add(&mut bits, SamplingFrequency::Hz16000);
    assert_eq!(bits, 0x0004);
    SupportedSamplingFrequencies::add(&mut bits, SamplingFrequency::Hz16000);
    assert_eq!(bits, 0x0004);
}

#[test]
fn supported_frame_durations_bit_formula() {
    assert_eq!(SupportedFrameDurations::new(false, false, false, false).0, 0x00);
    assert_eq!(SupportedFrameDurations::new(true, false, false, false).0, 0x01);
    assert_eq!(SupportedFrameDurations::new(false, true, false, false).0, 0x02);
    assert_eq!(SupportedFrameDurations::new(true, true, false, false).0, 0x03);
    assert_eq!(SupportedFrameDurations::new(true, true, true, false).0, 0x13);
    assert_eq!(SupportedFrameDurations::new(true, true, false, true).0, 0x23);
    // A preference is only expressible when both durations are there.
    assert_eq!(SupportedFrameDurations::new(true, false, true, true).0, 0x01);
    assert_eq!(SupportedFrameDurations::default().0, 0x02);
}

#[test]
fn supported_audio_channel_counts_out_of_range_is_empty() {
    assert_eq!(SupportedAudioChannelCounts::new(0).0, 0x00);
    assert_eq!(SupportedAudioChannelCounts::new(1).0, 0x01);
    assert_eq!(SupportedAudioChannelCounts::new(2).0, 0x02);
    assert_eq!(SupportedAudioChannelCounts::new(8).0, 0x80);
    assert_eq!(SupportedAudioChannelCounts::new(9).0, 0x00);
}

#[test]
fn sampling_frequency_bit_positions() {
    assert_eq!(SamplingFrequency::Hz8000.bit_position(), 0);
    assert_eq!(SamplingFrequency::Hz44100.bit_position(), 6);
    assert_eq!(SamplingFrequency::Hz384000.bit_position(), 12);
    assert_eq!(SamplingFrequency::default(), SamplingFrequency::Hz8000);
    assert_eq!(FrameDuration::default(), FrameDuration::Duration10MS);
}

#[test]
fn parental_rating_wire_values() {
    assert_eq!(ParentalRating::from(0x00), ParentalRating::NoRating);
    assert_eq!(ParentalRating::from(0x0A), ParentalRating::Age13orOlder);
    assert_eq!(ParentalRating::from(0x0F), ParentalRating::Age18orOlder);
    assert_eq!(ParentalRating::from(0x37), ParentalRating::Undefined);
    assert_eq!(ParentalRating::Age13orOlder.as_u8(), 0x0A);
}

#[test]
fn metadata_type_tags() {
    assert_eq!(Metadata::ProgramInfo("x").as_type(), 3);
    assert_eq!(Metadata::Language(*b"eng").as_type(), 4);
    assert_eq!(Metadata::CCIDList(&[1, 2]).as_type(), 5);
    assert_eq!(Metadata::ParentalRating(ParentalRating::AnyAge).as_type(), 6);
    assert_eq!(Metadata::ExtendedMetadata().as_type(), 8);
    assert_eq!(Metadata::VenderSpecific().as_type(), 9);
    let _ = VenderSpecific {};
    assert_eq!(AudioInputType::default(), AudioInputType::Unspecified);
}

#[test]
fn metadata_ltv_encodings() {
    assert_eq!(
        Metadata::PreferredAudioContexts(ContextType::Contexts { bits: CONTEXT_MEDIA }).as_ltv(),
        vec![3, 1, 0x04, 0x00]
    );
    assert_eq!(Metadata::ProgramInfo("ab").as_ltv(), vec![3, 3, b'a', b'b']);
    assert_eq!(Metadata::Language(*b"eng").as_ltv(), vec![4, 4, b'e', b'n', b'g']);
    assert_eq!(Metadata::CCIDList(&[7, 8]).as_ltv(), vec![3, 5, 7, 8]);
    assert_eq!(
        Metadata::ParentalRating(ParentalRating::AnyAge).as_ltv(),
        vec![2, 6, 0x01]
    );
    assert_eq!(Metadata::ExtendedMetadata().as_ltv(), vec![1, 8]);
    assert_eq!(Metadata::VenderSpecific().as_ltv(), vec![1, 9]);
}
