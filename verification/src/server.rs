//! Service composition: a fixed-capacity attribute table laid out at
//! construction, and the dispatcher that routes inbound read and write
//! events to the owning service and turns the outcome into an
//! accept-or-reject answer for the transport.
use vstd::prelude::*;

use crate::ascs::Ase;
use crate::ascs::AscsServer;
use crate::generic_audio::AudioLocation;
use crate::pacs::spec_sink_locations_written;
use crate::pacs::spec_source_locations_written;
use crate::pacs::AudioContexts;
use crate::pacs::PacsServer;
use crate::pacs::PAC;
use crate::AttErrorCode;

verus! {

/// Sixteen-bit UUID of the Generic Access service.
pub const GAP_SERVICE: u16 = 0x1800;

/// Sixteen-bit UUID of the Generic Attribute service.
pub const GATT_SERVICE: u16 = 0x1801;

/// Sixteen-bit UUID of the Device Name characteristic.
pub const DEVICE_NAME: u16 = 0x2A00;

/// Sixteen-bit UUID of the Appearance characteristic.
pub const APPEARANCE: u16 = 0x2A01;

/// Sixteen-bit UUID marking a characteristic declaration attribute.
pub const CHARACTERISTIC_DECLARATION: u16 = 0x2803;

/// An inbound request to read the attribute with the given handle.
#[derive(Debug, Clone, PartialEq, Eq, Structural)]
pub struct ReadEvent {
    pub handle: u16,
}

/// An inbound request to write the given bytes to the attribute with
/// the given handle.
#[derive(Debug, Clone, PartialEq)]
pub struct WriteEvent {
    pub handle: u16,
    pub data: Vec<u8>,
}

/// One inbound attribute event from the transport.
#[derive(Debug, Clone, PartialEq)]
pub enum GattEvent {
    Read(ReadEvent),
    Write(WriteEvent),
}

/// The answer the dispatcher hands back to the transport: accept the
/// request, or reject it with an attribute-protocol error code.
#[derive(Debug, Clone, Copy, PartialEq, Eq, Structural)]
pub enum EventResponse {
    Accept,
    Reject(AttErrorCode),
}

/// A construction-time failure: these never occur at runtime and are
/// never exposed to a remote peer.
#[derive(Debug, Clone, Copy, PartialEq, Eq, Structural)]
pub enum BuildError {
    /// The attribute table cannot hold what was registered.
    CapacityExceeded,
    /// A PAC characteristic was registered without the audio-locations
    /// characteristic of its direction.
    MissingAudioLocations,
    /// The mandatory PACS service was never registered.
    MissingPacs,
}

/// One attribute of the table: its handle and the sixteen-bit UUID it
/// was declared with.
#[derive(Debug, Clone, Copy, PartialEq, Eq, Structural)]
pub struct Attribute {
    pub handle: u16,
    pub uuid: u16,
}

/// A fixed-capacity attribute table. Every service declaration takes
/// one attribute; every characteristic takes two, a declaration and a
/// value attribute. Handles are assigned in registration order,
/// starting at one; capacity is fixed at construction and exceeding it
/// fails the registration, never a later use.
#[derive(Debug, Clone, PartialEq)]
pub struct AttributeTable {
    pub capacity: usize,
    pub attributes: Vec<Attribute>,
}

impl AttributeTable {
    /// Handles are consecutive from one, in table order, and the table
    /// never outgrows its capacity.
    pub open spec fn wf(self) -> bool {
        &&& self.capacity <= 0xFFFE
        &&& self.attributes@.len() <= self.capacity
        &&& forall|k: int|
            0 <= k < self.attributes@.len() ==> (#[trigger] self.attributes@[k]).handle == k + 1
    }

    /// An empty table for at most `capacity` attributes. Handles are
    /// sixteen-bit values, which caps any table at 0xFFFE attributes.
    pub fn new(capacity: usize) -> (r: Self)
        requires
            capacity <= 0xFFFE,
        ensures
            r.capacity == capacity,
            r.attributes@ == Seq::<Attribute>::empty(),
            r.wf(),
    {
        let r = AttributeTable { capacity, attributes: Vec::new() };
        proof {
            assert(r.attributes@ =~= Seq::<Attribute>::empty());
        }
        r
    }

    /// Register a service declaration: one attribute, holding the
    /// service UUID. Returns its handle, or fails if and only if the
    /// table is full.
    pub fn add_service(&mut self, uuid: u16) -> (r: Result<u16, BuildError>)
        requires
            old(self).wf(),
        ensures
            final(self).capacity == old(self).capacity,
            final(self).wf(),
            r is Ok <==> old(self).attributes@.len() + 1 <= old(self).capacity,
            r matches Ok(h) ==> {
                &&& h == old(self).attributes@.len() + 1
                &&& final(self).attributes@ == old(self).attributes@.push(
                    Attribute { handle: h, uuid },
                )
            },
            r is Err ==> *final(self) == *old(self) && r == Err::<u16, BuildError>(
                BuildError::CapacityExceeded,
            ),
    {
        if self.attributes.len() < self.capacity {
            let h = (self.attributes.len() + 1) as u16;
            self.attributes.push(Attribute { handle: h, uuid });
            Ok(h)
        } else {
            Err(BuildError::CapacityExceeded)
        }
    }

    /// Register a characteristic: a declaration attribute and a value
    /// attribute holding the characteristic UUID. Returns the value
    /// attribute's handle — the one read and write events carry — or
    /// fails if and only if the two attributes do not fit.
    pub fn add_characteristic(&mut self, uuid: u16) -> (r: Result<u16, BuildError>)
        requires
            old(self).wf(),
        ensures
            final(self).capacity == old(self).capacity,
            final(self).wf(),
            r is Ok <==> old(self).attributes@.len() + 2 <= old(self).capacity,
            r matches Ok(h) ==> {
                &&& h == old(self).attributes@.len() + 2
                &&& final(self).attributes@ == old(self).attributes@.push(
                    Attribute { handle: (h - 1) as u16, uuid: CHARACTERISTIC_DECLARATION },
                ).push(Attribute { handle: h, uuid })
            },
            r is Err ==> *final(self) == *old(self) && r == Err::<u16, BuildError>(
                BuildError::CapacityExceeded,
            ),
    {
        if self.capacity - self.attributes.len() >= 2 {
            let decl = (self.attributes.len() + 1) as u16;
            let h = (self.attributes.len() + 2) as u16;
            self.attributes.push(Attribute { handle: decl, uuid: CHARACTERISTIC_DECLARATION });
            self.attributes.push(Attribute { handle: h, uuid });
            Ok(h)
        } else {
            Err(BuildError::CapacityExceeded)
        }
    }
}

/// A service that may own the handle an event addresses: it answers
/// with `Some` accept-or-error when the handle is its own, `None` when
/// the event is not for it. What each service answers is pinned by its
/// two spec functions.
pub trait LeAudioServerService: Sized {
    /// The answer this service gives a read of the given handle.
    spec fn spec_read_response(&self, handle: u16) -> Option<Result<(), AttErrorCode>>;

    /// The answer this service gives a write of the given bytes to the
    /// given handle.
    spec fn spec_write_response(&self, handle: u16, data: Seq<u8>) -> Option<
        Result<(), AttErrorCode>,
    >;

    fn handle_read_event(&self, event: &ReadEvent) -> (r: Option<Result<(), AttErrorCode>>)
        ensures
            r == self.spec_read_response(event.handle),
    ;

    fn handle_write_event(&mut self, event: &WriteEvent) -> (r: Option<Result<(), AttErrorCode>>)
        ensures
            r == old(self).spec_write_response(event.handle, event.data@),
    ;
}

/// Attributes of the two mandatory base services: the Generic Access
/// service with its device-name and appearance characteristics, and
/// the Generic Attribute service declaration.
pub const BASE_ATTRIBUTES: usize = 6;

/// Attributes of a fully populated PACS service.
pub const PACS_ATTRIBUTES: usize = 13;

/// Attributes of the mandatory services plus a fully populated PACS
/// service: the least capacity a complete server needs before any
/// ASCS endpoints.
pub const MAX_SERVICES: usize = BASE_ATTRIBUTES + PACS_ATTRIBUTES;

/// Builder for an LE Audio GATT server: starts from the two mandatory
/// base services, takes the PACS service and optionally the ASCS
/// service, and hands out the finished dispatcher.
#[derive(Debug, Clone, PartialEq)]
pub struct ServerBuilder {
    pub table: AttributeTable,
    pub pacs: Option<PacsServer>,
    pub ascs: Option<AscsServer>,
}

impl ServerBuilder {
    pub open spec fn wf(self) -> bool {
        self.table.wf()
    }

    /// A builder over a fresh table of the given capacity, holding the
    /// Generic Access service (device name and appearance) and the
    /// Generic Attribute service. Fails if and only if the capacity
    /// cannot hold even those.
    pub fn new(capacity: usize) -> (r: Result<ServerBuilder, BuildError>)
        requires
            capacity <= 0xFFFE,
        ensures
            r is Ok <==> capacity >= BASE_ATTRIBUTES,
            r matches Ok(b) ==> {
                &&& b.wf()
                &&& b.table.capacity == capacity
                &&& b.table.attributes@.len() == BASE_ATTRIBUTES
                &&& b.table.attributes@[0] == (Attribute { handle: 1u16, uuid: GAP_SERVICE })
                &&& b.table.attributes@[1] == (Attribute {
                    handle: 2u16,
                    uuid: CHARACTERISTIC_DECLARATION,
                })
                &&& b.table.attributes@[2] == (Attribute { handle: 3u16, uuid: DEVICE_NAME })
                &&& b.table.attributes@[3] == (Attribute {
                    handle: 4u16,
                    uuid: CHARACTERISTIC_DECLARATION,
                })
                &&& b.table.attributes@[4] == (Attribute { handle: 5u16, uuid: APPEARANCE })
                &&& b.table.attributes@[5] == (Attribute { handle: 6u16, uuid: GATT_SERVICE })
                &&& b.pacs is None
                &&& b.ascs is None
            },
            r is Err ==> r == Err::<ServerBuilder, BuildError>(BuildError::CapacityExceeded),
    {
        let mut table = AttributeTable::new(capacity);
        if capacity < 6 {
            return Err(BuildError::CapacityExceeded);
        }
        let _gap = match table.add_service(GAP_SERVICE) {
            Ok(h) => h,
            Err(e) => {
                proof {
                    assert(false);
                }
                return Err(e);
            },
        };
        let _name = match table.add_characteristic(DEVICE_NAME) {
            Ok(h) => h,
            Err(e) => {
                proof {
                    assert(false);
                }
                return Err(e);
            },
        };
        let _appearance = match table.add_characteristic(APPEARANCE) {
            Ok(h) => h,
            Err(e) => {
                proof {
                    assert(false);
                }
                return Err(e);
            },
        };
        let _gatt = match table.add_service(GATT_SERVICE) {
            Ok(h) => h,
            Err(e) => {
                proof {
                    assert(false);
                }
                return Err(e);
            },
        };
        Ok(ServerBuilder { table, pacs: None, ascs: None })
    }

    /// Register the PACS service, exactly as [`PacsServer::new`] lays
    /// it out; its failures leave the builder unchanged.
    pub fn add_pacs(
        &mut self,
        sink_pac: Option<PAC>,
        sink_audio_locations: Option<AudioLocation>,
        source_pac: Option<PAC>,
        source_audio_locations: Option<AudioLocation>,
        supported_audio_contexts: AudioContexts,
        available_audio_contexts: AudioContexts,
    ) -> (r: Result<(), BuildError>)
        requires
            old(self).wf(),
            sink_audio_locations matches Some(l) ==> l is Positions && l.wf(),
            source_audio_locations matches Some(l) ==> l is Positions && l.wf(),
            supported_audio_contexts.wf(),
            available_audio_contexts.wf(),
            sink_pac matches Some(p) ==> p.wf(),
            source_pac matches Some(p) ==> p.wf(),
        ensures
            final(self).wf(),
            final(self).table.capacity == old(self).table.capacity,
            final(self).ascs == old(self).ascs,
            ({
                let missing = (sink_pac is Some && sink_audio_locations is None) || (source_pac
                    is Some && source_audio_locations is None);
                let needed = crate::pacs::spec_pacs_attribute_count(
                    sink_pac is Some,
                    sink_audio_locations is Some,
                    source_pac is Some,
                    source_audio_locations is Some,
                );
                &&& missing ==> r == Err::<(), BuildError>(BuildError::MissingAudioLocations)
                    && *final(self) == *old(self)
                &&& !missing && old(self).table.attributes@.len() + needed > old(
                    self,
                ).table.capacity ==> r == Err::<(), BuildError>(BuildError::CapacityExceeded)
                    && *final(self) == *old(self)
                &&& !missing && old(self).table.attributes@.len() + needed <= old(
                    self,
                ).table.capacity ==> {
                    &&& r is Ok
                    &&& final(self).table.attributes@.len() == old(self).table.attributes@.len()
                        + needed
                    &&& final(self).pacs is Some
                }
            }),
            r is Ok ==> ({
                // The characteristics' value handles, in registration
                // order after the service declaration.
                let s = final(self).pacs->Some_0;
                let base = old(self).table.attributes@.len() as int;
                let n_sp: int = if sink_pac is Some { 1int } else { 0int };
                let n_sl: int = if sink_audio_locations is Some { 1int } else { 0int };
                let n_op: int = if source_pac is Some { 1int } else { 0int };
                let n_ol: int = if source_audio_locations is Some { 1int } else { 0int };
                &&& sink_pac is Some ==> s.sink_pac->Some_0.handle == base + 3
                &&& sink_audio_locations is Some ==> s.sink_audio_locations->Some_0.handle == base
                    + 1 + 2 * (n_sp + 1)
                &&& source_pac is Some ==> s.source_pac->Some_0.handle == base + 1 + 2 * (n_sp
                    + n_sl + 1)
                &&& source_audio_locations is Some ==> s.source_audio_locations->Some_0.handle
                    == base + 1 + 2 * (n_sp + n_sl + n_op + 1)
                &&& s.supported_audio_contexts.handle == base + 1 + 2 * (n_sp + n_sl + n_op + n_ol
                    + 1)
                &&& s.available_audio_contexts.handle == base + 1 + 2 * (n_sp + n_sl + n_op + n_ol
                    + 2)
            }),
            r is Ok ==> ({
                let s = final(self).pacs->Some_0;
                &&& (s.sink_pac is Some <==> sink_pac is Some)
                &&& (s.sink_audio_locations is Some <==> sink_audio_locations is Some)
                &&& (s.source_pac is Some <==> source_pac is Some)
                &&& (s.source_audio_locations is Some <==> source_audio_locations is Some)
                &&& sink_pac matches Some(p) ==> s.sink_pac->Some_0.pac == p
                &&& source_pac matches Some(p) ==> s.source_pac->Some_0.pac == p
                &&& sink_audio_locations matches Some(l) ==> s.sink_audio_locations->Some_0.location
                    == l && s.sink_audio_locations->Some_0.supported == l->bits
                &&& source_audio_locations matches Some(l)
                    ==> s.source_audio_locations->Some_0.location == l
                    && s.source_audio_locations->Some_0.supported == l->bits
                &&& s.supported_audio_contexts.contexts == supported_audio_contexts
                &&& s.available_audio_contexts.contexts == available_audio_contexts
                &&& s.wf()
            }),
    {
        match PacsServer::new(
            &mut self.table,
            sink_pac,
            sink_audio_locations,
            source_pac,
            source_audio_locations,
            supported_audio_contexts,
            available_audio_contexts,
        ) {
            Ok(pacs) => {
                self.pacs = Some(pacs);
                Ok(())
            },
            Err(e) => Err(e),
        }
    }

    /// Register the ASCS service for the given endpoints and
    /// connection-slot count, exactly as [`AscsServer::new`] lays it
    /// out; every endpoint must be a sink or a source. An endpoint
    /// load the table cannot hold fails here, at construction, never
    /// at first use, and leaves the builder unchanged.
    pub fn add_ascs(&mut self, ases: Vec<Ase>, max_connections: usize) -> (r: Result<
        (),
        BuildError,
    >)
        requires
            old(self).wf(),
            forall|j: int| 0 <= j < ases@.len() ==> !((#[trigger] ases@[j]).direction is All),
        ensures
            final(self).wf(),
            final(self).table.capacity == old(self).table.capacity,
            final(self).pacs == old(self).pacs,
            r is Ok <==> old(self).table.attributes@.len()
                + crate::ascs::spec_ascs_attribute_count(
                ases@.len() as int,
                max_connections as int,
            ) <= old(self).table.capacity,
            r is Err ==> *final(self) == *old(self) && r == Err::<(), BuildError>(
                BuildError::CapacityExceeded,
            ),
            r is Ok ==> ({
                let s = final(self).ascs->Some_0;
                &&& final(self).ascs is Some
                &&& s.ases@.len() == ases@.len() * max_connections
                &&& forall|k: int|
                    0 <= k < s.ases@.len() ==> (#[trigger] s.ases@[k]).ase == ases@[
                        k / (max_connections as int)
                    ]
                &&& final(self).table.attributes@.len() == old(self).table.attributes@.len()
                    + crate::ascs::spec_ascs_attribute_count(
                    ases@.len() as int,
                    max_connections as int,
                )
            }),
    {
        match AscsServer::new(&mut self.table, ases, max_connections) {
            Ok(ascs) => {
                self.ascs = Some(ascs);
                Ok(())
            },
            Err(e) => Err(e),
        }
    }

    /// Finish the server. The PACS service is mandatory; a builder
    /// without it fails with `MissingPacs`.
    pub fn build(self) -> (r: Result<Server, BuildError>)
        ensures
            self.pacs is None <==> r == Err::<Server, BuildError>(BuildError::MissingPacs),
            self.pacs matches Some(p) ==> r matches Ok(s) && s.table == self.table && s.pacs == p
                && s.ascs == self.ascs,
    {
        match self.pacs {
            Some(pacs) => Ok(Server { table: self.table, pacs, ascs: self.ascs }),
            None => Err(BuildError::MissingPacs),
        }
    }
}

/// The accept-or-reject answer for a routed component response: a
/// handled request is answered as the component said; a handle no
/// component owns is a routing failure, answered as `InvalidHandle`.
pub open spec fn spec_translate_response(r: Option<Result<(), AttErrorCode>>) -> EventResponse {
    match r {
        Some(Ok(())) => EventResponse::Accept,
        Some(Err(code)) => EventResponse::Reject(code),
        None => EventResponse::Reject(AttErrorCode::InvalidHandle),
    }
}

/// A finished LE Audio GATT server: the attribute table it laid out,
/// the mandatory PACS service and the optional ASCS service. It owns
/// all characteristic values for its whole lifetime; the transport
/// only delivers events and carries the answers back.
#[derive(Debug, Clone, PartialEq)]
pub struct Server {
    pub table: AttributeTable,
    pub pacs: PacsServer,
    pub ascs: Option<AscsServer>,
}

impl Server {
    /// The answer this server gives an event: the services are
    /// consulted in table order, PACS then ASCS, and the first that
    /// owns the handle answers; a handle neither owns is rejected as
    /// `InvalidHandle`.
    pub open spec fn spec_response(self, event: GattEvent) -> EventResponse {
        match event {
            GattEvent::Read(e) => spec_translate_response(
                match self.pacs.spec_read_response(e.handle) {
                    Some(r) => Some(r),
                    None => match self.ascs {
                        Some(a) => a.spec_read_response(e.handle),
                        None => None,
                    },
                },
            ),
            GattEvent::Write(e) => spec_translate_response(
                match self.pacs.spec_write_response(e.handle, e.data@) {
                    Some(r) => Some(r),
                    None => match self.ascs {
                        Some(a) => a.spec_write_response(e.handle, e.data@),
                        None => None,
                    },
                },
            ),
        }
    }

    /// Dispatch one inbound event and answer it: route by handle to
    /// the first service that owns it, let the owner validate and
    /// store, and translate the outcome. A read leaves the server
    /// unchanged; a write updates exactly what the owning service's
    /// contract says it stores — an accepted write is stored before
    /// the answer is returned, so a later read observes the new value.
    pub fn process(&mut self, event: GattEvent) -> (r: EventResponse)
        ensures
            r == old(self).spec_response(event),
            final(self).table == old(self).table,
            event matches GattEvent::Read(_) ==> *final(self) == *old(self),
            event matches GattEvent::Write(e) ==> {
                let h = e.handle;
                let data = e.data@;
                &&& final(self).pacs.sink_pac == old(self).pacs.sink_pac
                &&& final(self).pacs.source_pac == old(self).pacs.source_pac
                &&& final(self).pacs.supported_audio_contexts == old(
                    self,
                ).pacs.supported_audio_contexts
                &&& final(self).pacs.available_audio_contexts == old(
                    self,
                ).pacs.available_audio_contexts
                &&& final(self).pacs.sink_audio_locations == (if spec_sink_locations_written(
                    old(self).pacs,
                    h,
                ) {
                    Some(
                        PacsServer::spec_locations_after_write(
                            old(self).pacs.sink_audio_locations->Some_0,
                            data,
                        ),
                    )
                } else {
                    old(self).pacs.sink_audio_locations
                })
                &&& final(self).pacs.source_audio_locations == (if spec_source_locations_written(
                    old(self).pacs,
                    h,
                ) {
                    Some(
                        PacsServer::spec_locations_after_write(
                            old(self).pacs.source_audio_locations->Some_0,
                            data,
                        ),
                    )
                } else {
                    old(self).pacs.source_audio_locations
                })
                &&& (final(self).ascs is Some <==> old(self).ascs is Some)
                &&& old(self).ascs matches Some(a) ==> {
                    let fa = final(self).ascs->Some_0;
                    if old(self).pacs.spec_write_response(h, data) is None {
                        &&& fa.control_point_handle == a.control_point_handle
                        &&& fa.ases@.len() == a.ases@.len()
                        &&& forall|k: int|
                            0 <= k < a.ases@.len() ==> fa.ases@[k] == a.spec_slot_after_write(
                                h,
                                data,
                                k,
                            )
                    } else {
                        fa == a
                    }
                }
            },
    {
        match event {
            GattEvent::Read(e) => {
                let r = match self.pacs.handle_read_event(&e) {
                    Some(r) => Some(r),
                    None => match &self.ascs {
                        Some(a) => a.handle_read_event(&e),
                        None => None,
                    },
                };
                Self::translate_response(r)
            },
            GattEvent::Write(e) => {
                let r = match self.pacs.write_response(e.handle, e.data.as_slice()) {
                    Some(r) => Some(r),
                    None => match &mut self.ascs {
                        Some(a) => a.write_response(e.handle, e.data.as_slice()),
                        None => None,
                    },
                };
                Self::translate_response(r)
            },
        }
    }

    fn translate_response(r: Option<Result<(), AttErrorCode>>) -> (out: EventResponse)
        ensures
            out == spec_translate_response(r),
    {
        match r {
            Some(Ok(())) => EventResponse::Accept,
            Some(Err(code)) => EventResponse::Reject(code),
            None => EventResponse::Reject(AttErrorCode::InvalidHandle),
        }
    }
}

} // verus!
