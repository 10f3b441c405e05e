use trouble_audio::ascs::Ase;
use trouble_audio::ascs::AseParamsCodecConfigured;
use trouble_audio::ascs::AseParamsOther;
use trouble_audio::ascs::AseParamsQoSConfigured;
use trouble_audio::ascs::AseState;
use trouble_audio::ascs::AseType;
use trouble_audio::generic_audio::AudioLocation;
use trouble_audio::generic_audio::ContextType;
use trouble_audio::generic_audio::FRONT_LEFT;
use trouble_audio::generic_audio::FRONT_RIGHT;
use trouble_audio::pacs::AudioContexts;
use trouble_audio::pacs::PAC;
use trouble_audio::AttErrorCode;
use trouble_audio::BuildError;
use trouble_audio::EventResponse;
use trouble_audio::GattEvent;
use trouble_audio::ReadEvent;
use trouble_audio::Server;
use trouble_audio::ServerBuilder;
use trouble_audio::WriteEvent;
use trouble_audio::BASE_ATTRIBUTES;
use trouble_audio::MAX_SERVICES;
use trouble_audio::PACS_ATTRIBUTES;

fn stereo() -> AudioLocation {
    AudioLocation::Positions {
        bits: FRONT_LEFT | FRONT_RIGHT,
    }
}

fn contexts() -> AudioContexts {
    AudioContexts {
        sink_contexts: ContextType::Contexts { bits: 0x0004 },
        source_contexts: ContextType::Contexts { bits: 0x0000 },
    }
}

fn build_server() -> Server {
    let mut builder = ServerBuilder::new(40).unwrap();
    builder
        .add_pacs(
            Some(PAC::default()),
            Some(stereo()),
            None,
            None,
            contexts(),
            contexts(),
        )
        .unwrap();
    builder
        .add_ascs(vec![Ase::new(1, AseType::Sink), Ase::new(2, AseType::Source)], 1)
        .unwrap();
    builder.build().unwrap()
}

fn read(server: &mut Server, handle: u16) -> EventResponse {
    server.process(GattEvent::Read(ReadEvent { handle }))
}

fn write(server: &mut Server, handle: u16, data: &[u8]) -> EventResponse {
    server.process(GattEvent::Write(WriteEvent {
        handle,
        data: data.to_vec(),
    }))
}

#[test]
fn sink_pac_reads_accept_and_writes_are_not_permitted() {
    let mut server = build_server();
    let handle = server.pacs.sink_pac.as_ref().unwrap().handle;
    assert_eq!(read(&mut server, handle), EventResponse::Accept);
    assert_eq!(
        write(&mut server, handle, &[0, 0, 0, 0]),
        EventResponse::Reject(AttErrorCode::WriteNotPermitted)
    );
}

#[test]
fn context_characteristics_read_accept_write_not_permitted() {
    let mut server = build_server();
    for handle in [
        server.pacs.supported_audio_contexts.handle,
        server.pacs.available_audio_contexts.handle,
    ] {
        assert_eq!(read(&mut server, handle), EventResponse::Accept);
        assert_eq!(
            write(&mut server, handle, &[1, 2, 3, 4]),
            EventResponse::Reject(AttErrorCode::WriteNotPermitted)
        );
    }
}

#[test]
fn locations_write_of_subset_is_accepted_and_observable() {
    let mut server = build_server();
    let handle = server.pacs.sink_audio_locations.as_ref().unwrap().handle;
    assert_eq!(
        write(&mut server, handle, &[FRONT_LEFT as u8, 0, 0, 0]),
        EventResponse::Accept
    );
    let stored = server.pacs.sink_audio_locations.as_ref().unwrap();
    assert_eq!(stored.location, AudioLocation::Positions { bits: FRONT_LEFT });
    assert_eq!(read(&mut server, handle), EventResponse::Accept);
}

#[test]
fn locations_write_outside_supported_mask_is_rejected() {
    let mut server = build_server();
    let handle = server.pacs.sink_audio_locations.as_ref().unwrap().handle;
    let before = server.pacs.sink_audio_locations.clone().unwrap();
    // Front center is a defined location the server does not support.
    assert_eq!(
        write(&mut server, handle, &[0x04, 0, 0, 0]),
        EventResponse::Reject(AttErrorCode::WriteRequestRejected)
    );
    // A mask outside even the defined location set is rejected too.
    assert_eq!(
        write(&mut server, handle, &[0, 0, 0, 0xF0]),
        EventResponse::Reject(AttErrorCode::WriteRequestRejected)
    );
    assert_eq!(server.pacs.sink_audio_locations.clone().unwrap(), before);
}

#[test]
fn locations_write_of_wrong_length_is_invalid_length() {
    let mut server = build_server();
    let handle = server.pacs.sink_audio_locations.as_ref().unwrap().handle;
    for data in [&[][..], &[1u8][..], &[1u8, 0, 0][..], &[1u8, 0, 0, 0, 0][..]] {
        assert_eq!(
            write(&mut server, handle, data),
            EventResponse::Reject(AttErrorCode::InvalidLength)
        );
    }
}

#[test]
fn unrouted_handle_is_rejected_as_invalid_handle() {
    let mut server = build_server();
    assert_eq!(
        read(&mut server, 999),
        EventResponse::Reject(AttErrorCode::InvalidHandle)
    );
    assert_eq!(
        write(&mut server, 999, &[1]),
        EventResponse::Reject(AttErrorCode::InvalidHandle)
    );
}

#[test]
fn ase_characteristics_read_accept_write_reject() {
    let mut server = build_server();
    let ascs = server.ascs.clone().unwrap();
    for slot in &ascs.ases {
        assert_eq!(read(&mut server, slot.handle), EventResponse::Accept);
        assert_eq!(
            write(&mut server, slot.handle, &[1, 2]),
            EventResponse::Reject(AttErrorCode::WriteRequestRejected)
        );
    }
    // The control point itself is not readable.
    assert_eq!(
        read(&mut server, ascs.control_point_handle),
        EventResponse::Reject(AttErrorCode::WriteRequestRejected)
    );
}

#[test]
fn control_point_write_drives_the_state_machine() {
    let mut server = build_server();
    let cp = server.ascs.as_ref().unwrap().control_point_handle;
    // Configure the codec of endpoint 1 (a sink).
    assert_eq!(write(&mut server, cp, &[0x01, 1]), EventResponse::Accept);
    let slot = server.ascs.as_ref().unwrap().ases[0].clone();
    assert_eq!(slot.ase.id, 1);
    assert_eq!(
        slot.ase.state,
        AseState::CodecConfigured(AseParamsCodecConfigured::default())
    );
    // The other endpoint is untouched.
    assert_eq!(server.ascs.as_ref().unwrap().ases[1].ase.state, AseState::Idle);
    // Configure QoS, then enable.
    assert_eq!(write(&mut server, cp, &[0x02, 1]), EventResponse::Accept);
    assert_eq!(
        server.ascs.as_ref().unwrap().ases[0].ase.state,
        AseState::QosConfigured(AseParamsQoSConfigured::default())
    );
    assert_eq!(write(&mut server, cp, &[0x03, 1]), EventResponse::Accept);
    assert_eq!(
        server.ascs.as_ref().unwrap().ases[0].ase.state,
        AseState::Enabling(AseParamsOther::default())
    );
    // A client-written disable on a sink drops back to QoS-configured.
    assert_eq!(write(&mut server, cp, &[0x05, 1]), EventResponse::Accept);
    assert_eq!(
        server.ascs.as_ref().unwrap().ases[0].ase.state,
        AseState::QosConfigured(AseParamsQoSConfigured::default())
    );
}

#[test]
fn control_point_rejects_malformed_writes() {
    let mut server = build_server();
    let cp = server.ascs.as_ref().unwrap().control_point_handle;
    // No endpoint id.
    assert_eq!(
        write(&mut server, cp, &[0x01]),
        EventResponse::Reject(AttErrorCode::InvalidLength)
    );
    // Reserved opcode.
    assert_eq!(
        write(&mut server, cp, &[0x55, 1]),
        EventResponse::Reject(AttErrorCode::WriteRequestRejected)
    );
    // Unknown endpoint id.
    assert_eq!(
        write(&mut server, cp, &[0x01, 77]),
        EventResponse::Reject(AttErrorCode::WriteRequestRejected)
    );
    // Nothing changed.
    assert_eq!(server.ascs.as_ref().unwrap().ases[0].ase.state, AseState::Idle);
    assert_eq!(server.ascs.as_ref().unwrap().ases[1].ase.state, AseState::Idle);
}

#[test]
fn reads_do_not_change_the_server() {
    let mut server = build_server();
    let before = server.clone();
    let handle = server.pacs.sink_audio_locations.as_ref().unwrap().handle;
    let _ = read(&mut server, handle);
    let _ = read(&mut server, 999);
    assert_eq!(server, before);
}

#[test]
fn pac_without_its_locations_characteristic_fails_to_build() {
    let mut builder = ServerBuilder::new(40).unwrap();
    let r = builder.add_pacs(Some(PAC::default()), None, None, None, contexts(), contexts());
    assert_eq!(r, Err(BuildError::MissingAudioLocations));
    // Locations without the PAC characteristic is fine.
    let r = builder.add_pacs(None, Some(stereo()), None, None, contexts(), contexts());
    assert_eq!(r, Ok(()));
}

#[test]
fn too_many_endpoints_fail_at_construction_not_first_use() {
    // Room for the base services and a partial PACS, nothing more.
    let mut builder = ServerBuilder::new(MAX_SERVICES).unwrap();
    builder
        .add_pacs(None, Some(stereo()), None, None, contexts(), contexts())
        .unwrap();
    // The three endpoints need more attributes than what is left.
    let r = builder.add_ascs(
        vec![
            Ase::new(1, AseType::Sink),
            Ase::new(2, AseType::Sink),
            Ase::new(3, AseType::Source),
        ],
        2,
    );
    assert_eq!(r, Err(BuildError::CapacityExceeded));
    assert!(builder.ascs.is_none());
    // The builder is still usable: the failure happened at
    // construction and the server builds without the ASCS service.
    let server = builder.build().unwrap();
    assert!(server.ascs.is_none());
}

#[test]
fn pacs_is_mandatory() {
    let builder = ServerBuilder::new(40).unwrap();
    assert_eq!(builder.build(), Err(BuildError::MissingPacs));
}

#[test]
fn capacity_is_checked_for_every_registration() {
    assert_eq!(ServerBuilder::new(3), Err(BuildError::CapacityExceeded));
    let mut builder = ServerBuilder::new(BASE_ATTRIBUTES).unwrap();
    let r = builder.add_pacs(None, None, None, None, contexts(), contexts());
    assert_eq!(r, Err(BuildError::CapacityExceeded));
    assert_eq!(MAX_SERVICES, BASE_ATTRIBUTES + PACS_ATTRIBUTES);
}

#[test]
fn attribute_table_lays_services_out_in_order() {
    let server = build_server();
    // Base services first: GAP service, name, appearance, GATT service.
    assert_eq!(server.table.attributes[0].uuid, 0x1800);
    assert_eq!(server.table.attributes[5].uuid, 0x1801);
    assert_eq!(server.table.attributes[6].uuid, 0x1850);
    // Handles are consecutive from one.
    for (k, attribute) in server.table.attributes.iter().enumerate() {
        assert_eq!(attribute.handle as usize, k + 1);
    }
    // The PACS characteristics follow the service declaration.
    assert_eq!(server.pacs.sink_pac.as_ref().unwrap().handle, 9);
    assert_eq!(server.pacs.sink_audio_locations.as_ref().unwrap().handle, 11);
}
