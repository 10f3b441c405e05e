use trouble_audio::ascs::Ase;
use trouble_audio::ascs::AseControlOperation;
use trouble_audio::ascs::AseParamsCodecConfigured;
use trouble_audio::ascs::AseParamsOther;
use trouble_audio::ascs::AseParamsQoSConfigured;
use trouble_audio::ascs::AseState;
use trouble_audio::ascs::AseType;
use trouble_audio::ascs::InitiatingDevice;
use trouble_audio::ascs::PhySet;

fn all_states() -> Vec<AseState> {
    vec![
        AseState::Idle,
        AseState::CodecConfigured(busy_codec_params()),
        AseState::QosConfigured(busy_qos_params()),
        AseState::Enabling(busy_other_params()),
        AseState::Streaming(busy_other_params()),
        AseState::Disabling(busy_other_params()),
        AseState::Releasing,
    ]
}

fn all_operations() -> Vec<AseControlOperation> {
    vec![
        AseControlOperation::ConfigCodec,
        AseControlOperation::ConfigQos,
        AseControlOperation::Enable,
        AseControlOperation::ReceiverStartReady,
        AseControlOperation::ReceiverStopReady,
        AseControlOperation::Disable,
        AseControlOperation::UpdateMetadata,
        AseControlOperation::Release,
        AseControlOperation::Released,
    ]
}

fn all_initiators() -> Vec<InitiatingDevice> {
    vec![
        InitiatingDevice::Client,
        InitiatingDevice::Server,
        InitiatingDevice::ClientOrServer,
    ]
}

fn all_directions() -> Vec<AseType> {
    vec![AseType::Source, AseType::Sink, AseType::All]
}

/// Parameter values distinct from every default, so a carried-over
/// value would be caught.
fn busy_codec_params() -> AseParamsCodecConfigured {
    AseParamsCodecConfigured {
        framing: 1,
        preferred_phy: PhySet::Coded,
        preferred_retransmission_number: 13,
        max_transport_latency: 95,
        presentation_delay_min: 5000,
        presentation_delay_max: 40000,
        preferred_presentation_delay_min: 10000,
        preferred_presentation_delay_max: 20000,
        codec_id: trouble_audio::CodecId(0x77),
        codec_specific_configuration: None,
    }
}

fn busy_qos_params() -> AseParamsQoSConfigured {
    AseParamsQoSConfigured {
        cig_id: 3,
        cis_id: 4,
        sdu_interval: 10000,
        framing: 1,
        phy: PhySet::M1,
        max_sdu: 120,
        retransmission_number: 13,
        max_transport_latency: 95,
        presentation_delay: 40000,
    }
}

fn busy_other_params() -> AseParamsOther {
    AseParamsOther {
        cig_id: 3,
        cis_id: 4,
        metadata: Some(0xDEAD),
    }
}

fn params_are_default(state: &AseState) -> bool {
    match state {
        AseState::Idle => true,
        AseState::CodecConfigured(p) => *p == AseParamsCodecConfigured::default(),
        AseState::QosConfigured(p) => *p == AseParamsQoSConfigured::default(),
        AseState::Enabling(p) => *p == AseParamsOther::default(),
        AseState::Streaming(p) => *p == AseParamsOther::default(),
        AseState::Disabling(p) => *p == AseParamsOther::default(),
        AseState::Releasing => true,
    }
}

#[test]
fn transition_is_total_over_every_input_tuple() {
    let mut count = 0;
    for state in all_states() {
        for op in all_operations() {
            for initiator in all_initiators() {
                for direction in all_directions() {
                    let next = state.clone().transition(op, initiator, direction);
                    // A defined state always comes back, and a state
                    // with parameters carries that state's defaults.
                    assert!(params_are_default(&next));
                    count += 1;
                }
            }
        }
    }
    assert_eq!(count, 7 * 9 * 3 * 3);
}

#[test]
fn transition_is_deterministic() {
    for state in all_states() {
        for op in all_operations() {
            for initiator in all_initiators() {
                for direction in all_directions() {
                    let a = state.clone().transition(op, initiator, direction);
                    let b = state.clone().transition(op, initiator, direction);
                    assert_eq!(a, b);
                }
            }
        }
    }
}

#[test]
fn transition_resets_parameters_to_defaults() {
    let next = AseState::QosConfigured(busy_qos_params()).transition(
        AseControlOperation::ConfigQos,
        InitiatingDevice::Client,
        AseType::All,
    );
    assert_eq!(next, AseState::QosConfigured(AseParamsQoSConfigured::default()));

    let next = AseState::Enabling(busy_other_params()).transition(
        AseControlOperation::UpdateMetadata,
        InitiatingDevice::ClientOrServer,
        AseType::Sink,
    );
    assert_eq!(next, AseState::Enabling(AseParamsOther::default()));
}

#[test]
fn establishment_scenario_reaches_streaming() {
    // Codec configuration is open to either initiator and direction.
    for initiator in all_initiators() {
        for direction in all_directions() {
            let s = AseState::Idle.transition(AseControlOperation::ConfigCodec, initiator, direction);
            assert_eq!(s, AseState::CodecConfigured(AseParamsCodecConfigured::default()));
        }
    }
    let s = AseState::Idle.transition(
        AseControlOperation::ConfigCodec,
        InitiatingDevice::Client,
        AseType::Source,
    );
    let s = s.transition(
        AseControlOperation::ConfigQos,
        InitiatingDevice::Client,
        AseType::Source,
    );
    assert_eq!(s, AseState::QosConfigured(AseParamsQoSConfigured::default()));
    let s = s.transition(
        AseControlOperation::Enable,
        InitiatingDevice::Client,
        AseType::Source,
    );
    assert_eq!(s, AseState::Enabling(AseParamsOther::default()));
    let s = s.transition(
        AseControlOperation::ReceiverStartReady,
        InitiatingDevice::Client,
        AseType::Source,
    );
    assert_eq!(s, AseState::Streaming(AseParamsOther::default()));
}

#[test]
fn disable_on_sink_returns_to_qos_configured() {
    for initiator in all_initiators() {
        let s = AseState::Streaming(busy_other_params()).transition(
            AseControlOperation::Disable,
            initiator,
            AseType::Sink,
        );
        assert_eq!(s, AseState::QosConfigured(AseParamsQoSConfigured::default()));
    }
}

#[test]
fn disable_on_source_goes_through_disabling() {
    let s = AseState::Streaming(busy_other_params()).transition(
        AseControlOperation::Disable,
        InitiatingDevice::Client,
        AseType::Source,
    );
    assert_eq!(s, AseState::Disabling(AseParamsOther::default()));
    let s = s.transition(
        AseControlOperation::ReceiverStopReady,
        InitiatingDevice::Client,
        AseType::Source,
    );
    assert_eq!(s, AseState::QosConfigured(AseParamsQoSConfigured::default()));
}

#[test]
fn release_and_released_cycle_back_to_idle() {
    let s = AseState::Streaming(busy_other_params()).transition(
        AseControlOperation::Release,
        InitiatingDevice::ClientOrServer,
        AseType::All,
    );
    assert_eq!(s, AseState::Releasing);
    // Only the server retires a released endpoint.
    let stuck = s.clone().transition(
        AseControlOperation::Released,
        InitiatingDevice::Client,
        AseType::All,
    );
    assert_eq!(stuck, AseState::Disabling(AseParamsOther::default()));
    let s = s.transition(
        AseControlOperation::Released,
        InitiatingDevice::Server,
        AseType::All,
    );
    assert_eq!(s, AseState::Idle);
}

#[test]
fn invalid_tuples_fall_back_to_disabling() {
    // Release from idle is not a rule of the table.
    let s = AseState::Idle.transition(
        AseControlOperation::Release,
        InitiatingDevice::Client,
        AseType::All,
    );
    assert_eq!(s, AseState::Disabling(AseParamsOther::default()));
    // QoS configuration is client-initiated only.
    let s = AseState::CodecConfigured(busy_codec_params()).transition(
        AseControlOperation::ConfigQos,
        InitiatingDevice::Server,
        AseType::All,
    );
    assert_eq!(s, AseState::Disabling(AseParamsOther::default()));
}

#[test]
fn new_endpoint_starts_idle() {
    let ase = Ase::new(7, AseType::Sink);
    assert_eq!(ase.id, 7);
    assert_eq!(ase.direction, AseType::Sink);
    assert_eq!(ase.state, AseState::Idle);
    assert_eq!(AseState::default(), AseState::Idle);
}
