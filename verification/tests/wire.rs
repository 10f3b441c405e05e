use trouble_audio::ascs::Ase;
use trouble_audio::ascs::AseControlOpcode;
use trouble_audio::ascs::AseControlOperation;
use trouble_audio::ascs::AseParamsCodecConfigured;
use trouble_audio::ascs::AseParamsOther;
use trouble_audio::ascs::AseParamsQoSConfigured;
use trouble_audio::ascs::AseState;
use trouble_audio::ascs::AseType;
use trouble_audio::ascs::PhySet;
use trouble_audio::generic_audio::CodecSpecificCapabilities;
use trouble_audio::generic_audio::ContextType;
use trouble_audio::generic_audio::Metadata;
use trouble_audio::generic_audio::OctetsPerCodecFrame;
use trouble_audio::generic_audio::ParentalRating;
use trouble_audio::generic_audio::SupportedFrameDurations;
use trouble_audio::pacs::AudioContexts;
use trouble_audio::pacs::PACRecord;
use trouble_audio::pacs::PAC;
use trouble_audio::CodecId;
use trouble_audio::DecodeError;

#[test]
fn audio_contexts_encodes_sink_then_source() {
    let v = AudioContexts {
        sink_contexts: ContextType::Contexts { bits: 0x0004 },
        source_contexts: ContextType::Contexts { bits: 0x0102 },
    };
    assert_eq!(v.as_gatt(), vec![0x04, 0x00, 0x02, 0x01]);
}

#[test]
fn audio_contexts_round_trips() {
    let v = AudioContexts {
        sink_contexts: ContextType::Contexts { bits: 0x0FFF },
        source_contexts: ContextType::Contexts { bits: 0x0000 },
    };
    assert_eq!(AudioContexts::from_gatt(&v.as_gatt()), Ok(v));
    assert_eq!(AudioContexts::from_gatt(&[1, 2]), Err(DecodeError::InvalidLength));
}

#[test]
fn idle_and_releasing_encode_to_two_bytes() {
    let idle = Ase::new(9, AseType::Sink);
    assert_eq!(idle.as_gatt(), vec![9, 0]);
    let releasing = Ase {
        id: 4,
        direction: AseType::Source,
        state: AseState::Releasing,
    };
    assert_eq!(releasing.as_gatt(), vec![4, 6]);
}

#[test]
fn qos_configured_endpoint_encodes_fixed_layout() {
    let ase = Ase {
        id: 1,
        direction: AseType::Sink,
        state: AseState::QosConfigured(AseParamsQoSConfigured {
            cig_id: 3,
            cis_id: 4,
            sdu_interval: 10000,
            framing: 0,
            phy: PhySet::M2,
            max_sdu: 100,
            retransmission_number: 5,
            max_transport_latency: 20,
            presentation_delay: 40000,
        }),
    };
    assert_eq!(
        ase.as_gatt(),
        vec![1, 2, 3, 4, 0x10, 0x27, 0x00, 0, 2, 100, 0, 5, 20, 0, 0x40, 0x9C, 0x00]
    );
}

#[test]
fn ase_round_trips_every_state() {
    let states = vec![
        AseState::Idle,
        AseState::CodecConfigured(AseParamsCodecConfigured {
            framing: 1,
            preferred_phy: PhySet::Coded,
            preferred_retransmission_number: 2,
            max_transport_latency: 30,
            presentation_delay_min: 1000,
            presentation_delay_max: 2000,
            preferred_presentation_delay_min: 1200,
            preferred_presentation_delay_max: 1800,
            codec_id: CodecId(0x0D),
            codec_specific_configuration: None,
        }),
        AseState::QosConfigured(AseParamsQoSConfigured::default()),
        AseState::Enabling(AseParamsOther {
            cig_id: 1,
            cis_id: 2,
            metadata: Some(0x1122334455667788),
        }),
        AseState::Streaming(AseParamsOther::default()),
        AseState::Disabling(AseParamsOther {
            cig_id: 9,
            cis_id: 8,
            metadata: None,
        }),
        AseState::Releasing,
    ];
    for state in states {
        let ase = Ase {
            id: 42,
            direction: AseType::Source,
            state,
        };
        let encoded = ase.as_gatt();
        assert_eq!(Ase::from_gatt(AseType::Source, &encoded), Ok(ase));
    }
}

#[test]
fn ase_decode_rejects_malformed_buffers() {
    // Too short for any state.
    assert_eq!(Ase::from_gatt(AseType::Sink, &[1]), Err(DecodeError::InvalidLength));
    // Unknown state tag.
    assert_eq!(Ase::from_gatt(AseType::Sink, &[1, 7]), Err(DecodeError::InvalidValue));
    // Idle with trailing bytes.
    assert_eq!(Ase::from_gatt(AseType::Sink, &[1, 0, 0]), Err(DecodeError::InvalidLength));
    // QoS-configured payload with the wrong total length.
    assert_eq!(
        Ase::from_gatt(AseType::Sink, &[1, 2, 0, 0]),
        Err(DecodeError::InvalidLength)
    );
    // QoS-configured payload with an undefined PHY byte.
    let mut qos = Ase {
        id: 1,
        direction: AseType::Sink,
        state: AseState::QosConfigured(AseParamsQoSConfigured::default()),
    }
    .as_gatt();
    qos[8] = 9;
    assert_eq!(Ase::from_gatt(AseType::Sink, &qos), Err(DecodeError::InvalidValue));
    // Enabling payload with an undefined metadata presence byte.
    let mut enabling = Ase {
        id: 1,
        direction: AseType::Sink,
        state: AseState::Enabling(AseParamsOther::default()),
    }
    .as_gatt();
    enabling[4] = 2;
    assert_eq!(Ase::from_gatt(AseType::Sink, &enabling), Err(DecodeError::InvalidValue));
}

#[test]
fn control_opcode_round_trips() {
    let opcodes = vec![
        (AseControlOpcode::ConfigCodec, 0x01),
        (AseControlOpcode::ConfigQoS, 0x02),
        (AseControlOpcode::Enable, 0x03),
        (AseControlOpcode::ReceiverStartReady, 0x04),
        (AseControlOpcode::Disable, 0x05),
        (AseControlOpcode::ReceiverStopReady, 0x06),
        (AseControlOpcode::UpdateMetadata, 0x07),
        (AseControlOpcode::Release, 0x08),
        (AseControlOpcode::Released, 0x09),
    ];
    for (op, byte) in opcodes {
        assert_eq!(op.as_gatt(), vec![byte]);
        assert_eq!(AseControlOpcode::from_gatt(&[byte]), Ok(op));
        assert!(op.as_operation().is_some());
    }
    assert_eq!(AseControlOpcode::from_gatt(&[0x55]), Ok(AseControlOpcode::Rfu));
    assert_eq!(AseControlOpcode::Rfu.as_operation(), None);
    assert_eq!(AseControlOpcode::from_gatt(&[]), Err(DecodeError::InvalidLength));
    assert_eq!(AseControlOpcode::from_gatt(&[1, 2]), Err(DecodeError::InvalidLength));
}

#[test]
fn control_opcodes_map_to_operations() {
    assert_eq!(
        AseControlOpcode::ConfigCodec.as_operation(),
        Some(AseControlOperation::ConfigCodec)
    );
    assert_eq!(
        AseControlOpcode::Disable.as_operation(),
        Some(AseControlOperation::Disable)
    );
    assert_eq!(
        AseControlOpcode::Released.as_operation(),
        Some(AseControlOperation::Released)
    );
}

#[test]
fn pac_record_encodes_codec_id_and_ltv_lists() {
    let record = PACRecord {
        codec_id: CodecId(0x0D),
        codec_specific_capabilities: vec![CodecSpecificCapabilities::SupportedFrameDurations(
            SupportedFrameDurations::new(false, true, false, false),
        )],
        metadata: vec![Metadata::ParentalRating(ParentalRating::AnyAge)],
    };
    assert_eq!(
        record.as_gatt(),
        vec![
            0x0D, 0, 0, 0, 0, 0, 0, 0, // codec id
            1, 2, 2, 0x02, // one capability record
            1, 2, 6, 0x01, // one metadata record
        ]
    );
}

#[test]
fn pac_encodes_count_then_records() {
    let record = PACRecord {
        codec_id: CodecId(0x0D),
        codec_specific_capabilities: vec![CodecSpecificCapabilities::SupportedOctetsPerCodecFrame(
            OctetsPerCodecFrame::new(40, 120),
        )],
        metadata: vec![],
    };
    let pac = PAC::new(vec![record.clone(), record]);
    assert_eq!(pac.number_of_pac_records, 2);
    let encoded = pac.as_gatt();
    let one = vec![0x0D, 0, 0, 0, 0, 0, 0, 0, 1, 5, 4, 40, 0, 120, 0, 0];
    let mut expected = vec![2];
    expected.extend_from_slice(&one);
    expected.extend_from_slice(&one);
    assert_eq!(encoded, expected);
}

#[test]
fn empty_pac_encodes_to_count_zero() {
    assert_eq!(PAC::default().as_gatt(), vec![0]);
    assert_eq!(PAC::new(vec![]).number_of_pac_records, 0);
}

#[test]
fn codec_configured_with_blob_encodes_but_does_not_decode() {
    static BLOB: [u8; 3] = [0xAA, 0xBB, 0xCC];
    let ase = Ase {
        id: 5,
        direction: AseType::Sink,
        state: AseState::CodecConfigured(AseParamsCodecConfigured {
            codec_specific_configuration: Some(&BLOB),
            ..AseParamsCodecConfigured::default()
        }),
    };
    let encoded = ase.as_gatt();
    assert_eq!(encoded.len(), 35);
    assert_eq!(encoded[31], 3);
    assert_eq!(&encoded[32..], &BLOB);
    // A decoded endpoint owns no static configuration storage, so a
    // nonempty blob cannot be reconstructed from the wire.
    assert_eq!(
        Ase::from_gatt(AseType::Sink, &encoded),
        Err(DecodeError::InvalidValue)
    );
}

#[test]
fn pac_holds_up_to_five_records() {
    let record = PACRecord {
        codec_id: CodecId::default(),
        codec_specific_capabilities: vec![],
        metadata: vec![],
    };
    let pac = PAC::new(vec![record; 5]);
    assert_eq!(pac.number_of_pac_records, 5);
    let encoded = pac.as_gatt();
    // Count byte, then five records of eight id bytes and two counts.
    assert_eq!(encoded.len(), 1 + 5 * 10);
    assert_eq!(encoded[0], 5);
}

#[test]
fn codec_id_defaults_to_lc3() {
    assert_eq!(CodecId::default(), CodecId(0x0D));
}
