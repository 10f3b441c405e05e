//! Published Audio Capabilities Service: the capability records a
//! server exposes, the audio-location and audio-context
//! characteristics, and the read/write policy over them.
use vstd::bytes::*;
use vstd::prelude::*;

use crate::generic_audio::spec_capability_ltv;
use crate::generic_audio::spec_metadata_ltv;
use crate::generic_audio::spec_metadata_wf;
use crate::generic_audio::AudioLocation;
use crate::generic_audio::CodecSpecificCapabilities;
use crate::generic_audio::ContextType;
use crate::generic_audio::Metadata;
use crate::generic_audio::AUDIO_LOCATION_MASK;
use crate::generic_audio::AUDIO_LOCATION_SIZE;
use crate::server::AttributeTable;
use crate::server::BuildError;
use crate::server::LeAudioServerService;
use crate::server::ReadEvent;
use crate::server::WriteEvent;
use crate::AttErrorCode;
use crate::CodecId;
use crate::DecodeError;

verus! {

/// Sixteen-bit UUID of the Published Audio Capabilities service.
pub const PUBLISHED_AUDIO_CAPABILITIES: u16 = 0x1850;

/// Sixteen-bit UUID of the Sink PAC characteristic.
pub const SINK_PAC: u16 = 0x2BC9;

/// Sixteen-bit UUID of the Sink Audio Locations characteristic.
pub const SINK_AUDIO_LOCATIONS: u16 = 0x2BCA;

/// Sixteen-bit UUID of the Source PAC characteristic.
pub const SOURCE_PAC: u16 = 0x2BCB;

/// Sixteen-bit UUID of the Source Audio Locations characteristic.
pub const SOURCE_AUDIO_LOCATIONS: u16 = 0x2BCC;

/// Sixteen-bit UUID of the Available Audio Contexts characteristic.
pub const AVAILABLE_AUDIO_CONTEXTS: u16 = 0x2BCD;

/// Sixteen-bit UUID of the Supported Audio Contexts characteristic.
pub const SUPPORTED_AUDIO_CONTEXTS: u16 = 0x2BCE;

/// Most capability entries one PAC record may carry.
pub const MAX_CODEC_SPECIFIC_CAPABILITIES: usize = 5;

/// Most metadata entries one PAC record may carry.
pub const MAX_METADATA: usize = 13;

/// Most records one PAC characteristic may carry.
pub const MAX_NUMBER_PAC_RECORDS: usize = 5;

/// One published capability record: a codec id, a bounded list of
/// codec-specific capabilities, and a bounded list of metadata.
#[derive(Debug, Clone, PartialEq)]
pub struct PACRecord {
    pub codec_id: CodecId,
    pub codec_specific_capabilities: Vec<CodecSpecificCapabilities>,
    pub metadata: Vec<Metadata>,
}

impl PACRecord {
    /// Bounded and encodable: the two lists respect the profile's
    /// structural limits and every metadata entry has a wire form.
    pub open spec fn wf(self) -> bool {
        &&& self.codec_specific_capabilities@.len() <= MAX_CODEC_SPECIFIC_CAPABILITIES
        &&& self.metadata@.len() <= MAX_METADATA
        &&& forall|k: int| 0 <= k < self.metadata@.len() ==> spec_metadata_wf(#[trigger] self.metadata@[k])
    }

    /// Encode for the wire, exactly as [`spec_pac_record_bytes`] lays
    /// the record out.
    pub fn as_gatt(&self) -> (r: Vec<u8>)
        requires
            self.wf(),
        ensures
            r@ == spec_pac_record_bytes(*self),
    {
        let mut out = u64_to_le_bytes(self.codec_id.0);
        out.push(self.codec_specific_capabilities.len() as u8);
        let ghost caps = self.codec_specific_capabilities@;
        for i in 0..self.codec_specific_capabilities.len()
            invariant
                caps == self.codec_specific_capabilities@,
                out@ == spec_u64_to_le_bytes(self.codec_id.0) + seq![caps.len() as u8]
                    + spec_capability_ltvs(caps.take(i as int)),
        {
            let mut piece = self.codec_specific_capabilities[i].as_ltv();
            out.append(&mut piece);
            proof {
                assert(caps.take(i + 1).drop_last() == caps.take(i as int));
                assert(caps.take(i + 1).last() == caps[i as int]);
            }
        }
        proof {
            assert(caps.take(caps.len() as int) == caps);
        }
        out.push(self.metadata.len() as u8);
        let ghost metas = self.metadata@;
        for i in 0..self.metadata.len()
            invariant
                caps == self.codec_specific_capabilities@,
                metas == self.metadata@,
                forall|k: int| 0 <= k < metas.len() ==> spec_metadata_wf(#[trigger] metas[k]),
                out@ == spec_u64_to_le_bytes(self.codec_id.0) + seq![caps.len() as u8]
                    + spec_capability_ltvs(caps) + seq![metas.len() as u8] + spec_metadata_ltvs(
                    metas.take(i as int),
                ),
        {
            let mut piece = self.metadata[i].as_ltv();
            out.append(&mut piece);
            proof {
                assert(metas.take(i + 1).drop_last() == metas.take(i as int));
                assert(metas.take(i + 1).last() == metas[i as int]);
            }
        }
        proof {
            assert(metas.take(metas.len() as int) == metas);
        }
        out
    }
}

/// The concatenated length-type-value records of a capability list, in
/// order.
pub open spec fn spec_capability_ltvs(s: Seq<CodecSpecificCapabilities>) -> Seq<u8>
    decreases s.len(),
{
    if s.len() == 0 {
        Seq::empty()
    } else {
        spec_capability_ltvs(s.drop_last()) + spec_capability_ltv(s.last())
    }
}

/// The concatenated length-type-value records of a metadata list, in
/// order.
pub open spec fn spec_metadata_ltvs(s: Seq<Metadata>) -> Seq<u8>
    decreases s.len(),
{
    if s.len() == 0 {
        Seq::empty()
    } else {
        spec_metadata_ltvs(s.drop_last()) + spec_metadata_ltv(s.last())
    }
}

/// The encoded form of one PAC record: the codec id as eight
/// little-endian bytes, the capability count and the capability
/// records, then the metadata count and the metadata records.
pub open spec fn spec_pac_record_bytes(r: PACRecord) -> Seq<u8>
    recommends
        r.wf(),
{
    spec_u64_to_le_bytes(r.codec_id.0) + seq![r.codec_specific_capabilities@.len() as u8]
        + spec_capability_ltvs(r.codec_specific_capabilities@) + seq![r.metadata@.len() as u8]
        + spec_metadata_ltvs(r.metadata@)
}

/// The concatenated encodings of a record list, in order.
pub open spec fn spec_pac_records_bytes(s: Seq<PACRecord>) -> Seq<u8>
    decreases s.len(),
{
    if s.len() == 0 {
        Seq::empty()
    } else {
        spec_pac_records_bytes(s.drop_last()) + spec_pac_record_bytes(s.last())
    }
}

/// The encoded form of a PAC characteristic value: the record count,
/// then the records.
pub open spec fn spec_pac_bytes(p: PAC) -> Seq<u8>
    recommends
        p.wf(),
{
    seq![p.number_of_pac_records] + spec_pac_records_bytes(p.pac_records@)
}

impl Default for PACRecord {
    /// The default codec id with no capabilities and no metadata.
    fn default() -> (r: Self)
        ensures
            r.codec_id == CodecId(0x0Du64),
            r.codec_specific_capabilities@.len() == 0,
            r.metadata@.len() == 0,
            r.wf(),
    {
        PACRecord {
            codec_id: CodecId(0x0D),
            codec_specific_capabilities: Vec::new(),
            metadata: Vec::new(),
        }
    }
}

/// The value of a PAC characteristic: a bounded list of PAC records
/// together with the record count, which is derived from the list and
/// always equals its length (see [`PAC::wf`]); it is never set on its
/// own.
#[derive(Debug, Clone, PartialEq)]
pub struct PAC {
    pub number_of_pac_records: u8,
    pub pac_records: Vec<PACRecord>,
}

impl PAC {
    pub open spec fn wf(self) -> bool {
        &&& self.number_of_pac_records == self.pac_records@.len()
        &&& self.pac_records@.len() <= MAX_NUMBER_PAC_RECORDS
        &&& forall|k: int| 0 <= k < self.pac_records@.len() ==> (#[trigger] self.pac_records@[k]).wf()
    }

    /// A PAC over the given records; the record count is derived from
    /// the list, never passed in.
    pub fn new(records: Vec<PACRecord>) -> (r: Self)
        requires
            records@.len() <= MAX_NUMBER_PAC_RECORDS,
            forall|k: int| 0 <= k < records@.len() ==> (#[trigger] records@[k]).wf(),
        ensures
            r.number_of_pac_records == records@.len(),
            r.pac_records == records,
            r.wf(),
    {
        let number_of_pac_records = records.len() as u8;
        PAC { number_of_pac_records, pac_records: records }
    }
}

impl PAC {
    /// Encode for the wire, exactly as [`spec_pac_bytes`] lays the
    /// value out: the record count byte, then each record in order.
    pub fn as_gatt(&self) -> (r: Vec<u8>)
        requires
            self.wf(),
        ensures
            r@ == spec_pac_bytes(*self),
    {
        let mut out: Vec<u8> = Vec::new();
        out.push(self.number_of_pac_records);
        let ghost records = self.pac_records@;
        for i in 0..self.pac_records.len()
            invariant
                records == self.pac_records@,
                self.wf(),
                out@ == seq![self.number_of_pac_records] + spec_pac_records_bytes(
                    records.take(i as int),
                ),
        {
            let mut piece = self.pac_records[i].as_gatt();
            out.append(&mut piece);
            proof {
                assert(records.take(i + 1).drop_last() == records.take(i as int));
                assert(records.take(i + 1).last() == records[i as int]);
            }
        }
        proof {
            assert(records.take(records.len() as int) == records);
        }
        out
    }
}

impl Default for PAC {
    /// No records published.
    fn default() -> (r: Self)
        ensures
            r.number_of_pac_records == 0,
            r.pac_records@.len() == 0,
            r.wf(),
    {
        PAC { number_of_pac_records: 0, pac_records: Vec::new() }
    }
}

/// Width in bytes of the encoded form of [`AudioContexts`].
pub const AUDIO_CONTEXTS_SIZE: usize = 4;

/// The pair of context bitmasks a context characteristic carries: one
/// for reception (sink), one for transmission (source).
#[derive(Debug, Clone, Copy, PartialEq, Eq, Structural)]
pub struct AudioContexts {
    /// Context bits for reception.
    pub sink_contexts: ContextType,
    /// Context bits for transmission.
    pub source_contexts: ContextType,
}

impl AudioContexts {
    pub open spec fn wf(self) -> bool {
        &&& self.sink_contexts is Contexts
        &&& self.sink_contexts.wf()
        &&& self.source_contexts is Contexts
        &&& self.source_contexts.wf()
    }

    /// Encoded wire form: the sink mask then the source mask, each two
    /// little-endian bytes.
    pub open spec fn spec_as_gatt(self) -> Seq<u8>
        recommends
            self.wf(),
    {
        spec_u16_to_le_bytes(self.sink_contexts->bits) + spec_u16_to_le_bytes(
            self.source_contexts->bits,
        )
    }

    /// Encode as 4 bytes: the sink mask, then the source mask.
    pub fn as_gatt(&self) -> (r: Vec<u8>)
        requires
            self.wf(),
        ensures
            r@ == self.spec_as_gatt(),
            r@.len() == AUDIO_CONTEXTS_SIZE,
    {
        proof {
            lemma_auto_spec_u16_to_from_le_bytes();
        }
        let mut out = self.sink_contexts.as_gatt();
        let mut source = self.source_contexts.as_gatt();
        out.append(&mut source);
        out
    }

    /// The value a 4-byte buffer decodes to.
    pub open spec fn spec_from_gatt(data: Seq<u8>) -> AudioContexts
        recommends
            data.len() == AUDIO_CONTEXTS_SIZE,
    {
        AudioContexts {
            sink_contexts: ContextType::spec_from_bits(spec_u16_from_le_bytes(data.subrange(0, 2))),
            source_contexts: ContextType::spec_from_bits(
                spec_u16_from_le_bytes(data.subrange(2, 4)),
            ),
        }
    }

    /// Decode from a wire buffer: exactly 4 bytes, any other length is
    /// `InvalidLength`. Each half decodes as a context mask, with
    /// out-of-range bits giving the `Undefined` sentinel, never an
    /// error.
    pub fn from_gatt(data: &[u8]) -> (r: Result<AudioContexts, DecodeError>)
        ensures
            data@.len() != AUDIO_CONTEXTS_SIZE ==> r == Err::<AudioContexts, DecodeError>(
                DecodeError::InvalidLength,
            ),
            data@.len() == AUDIO_CONTEXTS_SIZE ==> r == Ok::<AudioContexts, DecodeError>(
                Self::spec_from_gatt(data@),
            ),
    {
        if data.len() != AUDIO_CONTEXTS_SIZE {
            Err(DecodeError::InvalidLength)
        } else {
            let sink = u16_from_le_bytes(vstd::slice::slice_subrange(data, 0, 2));
            let source = u16_from_le_bytes(vstd::slice::slice_subrange(data, 2, 4));
            Ok(
                AudioContexts {
                    sink_contexts: ContextType::from_bits(sink),
                    source_contexts: ContextType::from_bits(source),
                },
            )
        }
    }
}

impl Default for AudioContexts {
    /// Both directions prohibited for every use case.
    fn default() -> (r: Self)
        ensures
            r == (AudioContexts {
                sink_contexts: ContextType::Contexts { bits: 0u16 },
                source_contexts: ContextType::Contexts { bits: 0u16 },
            }),
            r.wf(),
    {
        let r = AudioContexts {
            sink_contexts: ContextType::default(),
            source_contexts: ContextType::default(),
        };
        proof {
            assert(0u16 & !crate::generic_audio::CONTEXT_TYPE_MASK == 0) by (bit_vector);
        }
        r
    }
}

/// Every well-formed context pair survives the trip onto the wire and
/// back: encoding then decoding returns the value itself.
pub proof fn lemma_audio_contexts_round_trip(v: AudioContexts)
    requires
        v.wf(),
    ensures
        AudioContexts::spec_from_gatt(v.spec_as_gatt()) == v,
{
    lemma_auto_spec_u16_to_from_le_bytes();
    let data = v.spec_as_gatt();
    assert(data.subrange(0, 2) =~= spec_u16_to_le_bytes(v.sink_contexts->bits));
    assert(data.subrange(2, 4) =~= spec_u16_to_le_bytes(v.source_contexts->bits));
}

/// A published PAC characteristic: its handle and the records it
/// carries.
#[derive(Debug, Clone, PartialEq)]
pub struct PacCharacteristic {
    pub handle: u16,
    pub pac: PAC,
}

/// A published audio-locations characteristic: its handle, the mask of
/// locations the server supports (fixed at construction, the yardstick
/// for write validation), and the current location value.
#[derive(Debug, Clone, Copy, PartialEq)]
pub struct LocationsCharacteristic {
    pub handle: u16,
    /// Bits of every location the server supports in this direction.
    pub supported: u32,
    /// The stored audio-location value.
    pub location: AudioLocation,
}

/// A published audio-contexts characteristic: its handle and the
/// stored context pair.
#[derive(Debug, Clone, Copy, PartialEq)]
pub struct ContextsCharacteristic {
    pub handle: u16,
    pub contexts: AudioContexts,
}

/// The Published Audio Capabilities service. The sink and source
/// subtrees are each optional, but a PAC characteristic demands the
/// audio-locations characteristic of its direction; the two context
/// characteristics are always present. Only the two audio-locations
/// characteristics are writable, under validation against the
/// server-supported mask; everything else is read-only.
#[derive(Debug, Clone, PartialEq)]
pub struct PacsServer {
    pub sink_pac: Option<PacCharacteristic>,
    pub sink_audio_locations: Option<LocationsCharacteristic>,
    pub source_pac: Option<PacCharacteristic>,
    pub source_audio_locations: Option<LocationsCharacteristic>,
    pub supported_audio_contexts: ContextsCharacteristic,
    pub available_audio_contexts: ContextsCharacteristic,
}

/// The attributes the PACS service occupies: the service declaration
/// and two attributes per present characteristic.
pub open spec fn spec_pacs_attribute_count(
    sink_pac: bool,
    sink_loc: bool,
    source_pac: bool,
    source_loc: bool,
) -> int {
    1 + 2 * ((if sink_pac {
        1int
    } else {
        0int
    }) + (if sink_loc {
        1int
    } else {
        0int
    }) + (if source_pac {
        1int
    } else {
        0int
    }) + (if source_loc {
        1int
    } else {
        0int
    }) + 2)
}

impl PacsServer {
    /// A well-formed audio-locations characteristic: the supported
    /// mask names only defined positions and the stored value is a
    /// defined mask within it.
    pub open spec fn spec_loc_wf(c: LocationsCharacteristic) -> bool {
        &&& c.supported & !AUDIO_LOCATION_MASK == 0
        &&& c.location matches AudioLocation::Positions { bits } && bits & !c.supported == 0
    }

    pub open spec fn wf(self) -> bool {
        &&& self.sink_pac matches Some(c) ==> c.pac.wf()
        &&& self.source_pac matches Some(c) ==> c.pac.wf()
        &&& self.sink_audio_locations matches Some(c) ==> Self::spec_loc_wf(c)
        &&& self.source_audio_locations matches Some(c) ==> Self::spec_loc_wf(c)
        &&& self.supported_audio_contexts.contexts.wf()
        &&& self.available_audio_contexts.contexts.wf()
    }

    /// Register the service in the attribute table, in order: the
    /// service declaration, then sink PAC, sink locations, source PAC,
    /// source locations, supported contexts and available contexts,
    /// for those that are present. A PAC without the locations
    /// characteristic of its direction fails with
    /// `MissingAudioLocations`; a table that cannot hold the
    /// attributes fails with `CapacityExceeded`; either failure leaves
    /// the table unchanged. The audio-locations argument of each
    /// direction is the full mask of locations the server supports
    /// there, and is also stored as the characteristic's initial
    /// value.
    pub fn new(
        table: &mut AttributeTable,
        sink_pac: Option<PAC>,
        sink_audio_locations: Option<AudioLocation>,
        source_pac: Option<PAC>,
        source_audio_locations: Option<AudioLocation>,
        supported_audio_contexts: AudioContexts,
        available_audio_contexts: AudioContexts,
    ) -> (r: Result<PacsServer, BuildError>)
        requires
            old(table).wf(),
            sink_audio_locations matches Some(l) ==> l is Positions && l.wf(),
            source_audio_locations matches Some(l) ==> l is Positions && l.wf(),
            supported_audio_contexts.wf(),
            available_audio_contexts.wf(),
            sink_pac matches Some(p) ==> p.wf(),
            source_pac matches Some(p) ==> p.wf(),
        ensures
            final(table).capacity == old(table).capacity,
            final(table).wf(),
            ({
                let missing = (sink_pac is Some && sink_audio_locations is None) || (source_pac
                    is Some && source_audio_locations is None);
                let needed = spec_pacs_attribute_count(
                    sink_pac is Some,
                    sink_audio_locations is Some,
                    source_pac is Some,
                    source_audio_locations is Some,
                );
                &&& missing ==> r == Err::<PacsServer, BuildError>(
                    BuildError::MissingAudioLocations,
                ) && *final(table) == *old(table)
                &&& !missing && old(table).attributes@.len() + needed > old(table).capacity ==> r
                    == Err::<PacsServer, BuildError>(BuildError::CapacityExceeded) && *final(table)
                    == *old(table)
                &&& !missing && old(table).attributes@.len() + needed <= old(table).capacity ==> {
                    &&& r is Ok
                    &&& final(table).attributes@.len() == old(table).attributes@.len() + needed
                }
            }),
            r matches Ok(s) ==> {
                &&& (s.sink_pac is Some <==> sink_pac is Some)
                &&& (s.sink_audio_locations is Some <==> sink_audio_locations is Some)
                &&& (s.source_pac is Some <==> source_pac is Some)
                &&& (s.source_audio_locations is Some <==> source_audio_locations is Some)
                &&& sink_pac matches Some(p) ==> s.sink_pac->Some_0.pac == p
                &&& source_pac matches Some(p) ==> s.source_pac->Some_0.pac == p
                &&& sink_audio_locations matches Some(l) ==> s.sink_audio_locations->Some_0.location
                    == l && s.sink_audio_locations->Some_0.supported == l->bits
                &&& source_audio_locations matches Some(l)
                    ==> s.source_audio_locations->Some_0.location == l
                    && s.source_audio_locations->Some_0.supported == l->bits
                &&& s.supported_audio_contexts.contexts == supported_audio_contexts
                &&& s.available_audio_contexts.contexts == available_audio_contexts
                &&& s.wf()
            },
            r matches Ok(s) ==> ({
                // The characteristics' value handles, in registration
                // order after the service declaration.
                let base = old(table).attributes@.len() as int;
                let n_sp: int = if sink_pac is Some { 1int } else { 0int };
                let n_sl: int = if sink_audio_locations is Some { 1int } else { 0int };
                let n_op: int = if source_pac is Some { 1int } else { 0int };
                &&& sink_pac is Some ==> s.sink_pac->Some_0.handle == base + 3
                &&& sink_audio_locations is Some ==> s.sink_audio_locations->Some_0.handle == base
                    + 1 + 2 * (n_sp + 1)
                &&& source_pac is Some ==> s.source_pac->Some_0.handle == base + 1 + 2 * (n_sp
                    + n_sl + 1)
                &&& source_audio_locations is Some ==> s.source_audio_locations->Some_0.handle
                    == base + 1 + 2 * (n_sp + n_sl + n_op + 1)
                &&& s.supported_audio_contexts.handle == base + 1 + 2 * (n_sp + n_sl + n_op + (if
                    source_audio_locations is Some { 1int } else { 0int }) + 1)
                &&& s.available_audio_contexts.handle == base + 1 + 2 * (n_sp + n_sl + n_op + (if
                    source_audio_locations is Some { 1int } else { 0int }) + 2)
            }),
    {
        if (sink_pac.is_some() && sink_audio_locations.is_none()) || (source_pac.is_some()
            && source_audio_locations.is_none()) {
            return Err(BuildError::MissingAudioLocations);
        }
        let mut chars: usize = 2;
        if sink_pac.is_some() {
            chars = chars + 1;
        }
        if sink_audio_locations.is_some() {
            chars = chars + 1;
        }
        if source_pac.is_some() {
            chars = chars + 1;
        }
        if source_audio_locations.is_some() {
            chars = chars + 1;
        }
        let needed = 1 + 2 * chars;
        if needed > table.capacity - table.attributes.len() {
            return Err(BuildError::CapacityExceeded);
        }
        let _service_handle = match table.add_service(PUBLISHED_AUDIO_CAPABILITIES) {
            Ok(h) => h,
            Err(e) => {
                proof {
                    assert(false);
                }
                return Err(e);
            },
        };
        let sink_pac_char = match sink_pac {
            Some(pac) => {
                let h = match table.add_characteristic(SINK_PAC) {
                    Ok(h) => h,
                    Err(e) => {
                        proof {
                            assert(false);
                        }
                        return Err(e);
                    },
                };
                Some(PacCharacteristic { handle: h, pac })
            },
            None => None,
        };
        let sink_audio_locations_char = match sink_audio_locations {
            Some(location) => {
                let h = match table.add_characteristic(SINK_AUDIO_LOCATIONS) {
                    Ok(h) => h,
                    Err(e) => {
                        proof {
                            assert(false);
                        }
                        return Err(e);
                    },
                };
                Some(LocationsCharacteristic { handle: h, supported: location.bits(), location })
            },
            None => None,
        };
        let source_pac_char = match source_pac {
            Some(pac) => {
                let h = match table.add_characteristic(SOURCE_PAC) {
                    Ok(h) => h,
                    Err(e) => {
                        proof {
                            assert(false);
                        }
                        return Err(e);
                    },
                };
                Some(PacCharacteristic { handle: h, pac })
            },
            None => None,
        };
        let source_audio_locations_char = match source_audio_locations {
            Some(location) => {
                let h = match table.add_characteristic(SOURCE_AUDIO_LOCATIONS) {
                    Ok(h) => h,
                    Err(e) => {
                        proof {
                            assert(false);
                        }
                        return Err(e);
                    },
                };
                Some(LocationsCharacteristic { handle: h, supported: location.bits(), location })
            },
            None => None,
        };
        let supported_handle = match table.add_characteristic(SUPPORTED_AUDIO_CONTEXTS) {
            Ok(h) => h,
            Err(e) => {
                proof {
                    assert(false);
                }
                return Err(e);
            },
        };
        let available_handle = match table.add_characteristic(AVAILABLE_AUDIO_CONTEXTS) {
            Ok(h) => h,
            Err(e) => {
                proof {
                    assert(false);
                }
                return Err(e);
            },
        };
        proof {
            assert(forall|b: u32| #[trigger] (b & !b) == 0) by (bit_vector);
        }
        Ok(
            PacsServer {
                sink_pac: sink_pac_char,
                sink_audio_locations: sink_audio_locations_char,
                source_pac: source_pac_char,
                source_audio_locations: source_audio_locations_char,
                supported_audio_contexts: ContextsCharacteristic {
                    handle: supported_handle,
                    contexts: supported_audio_contexts,
                },
                available_audio_contexts: ContextsCharacteristic {
                    handle: available_handle,
                    contexts: available_audio_contexts,
                },
            },
        )
    }

    /// Whether the given handle is one of this service's
    /// characteristics.
    pub open spec fn spec_owns(self, handle: u16) -> bool {
        ||| self.sink_pac matches Some(c) && c.handle == handle
        ||| self.sink_audio_locations matches Some(c) && c.handle == handle
        ||| self.source_pac matches Some(c) && c.handle == handle
        ||| self.source_audio_locations matches Some(c) && c.handle == handle
        ||| self.supported_audio_contexts.handle == handle
        ||| self.available_audio_contexts.handle == handle
    }

    /// The outcome of writing `data` to an audio-locations
    /// characteristic: a buffer that is not exactly 4 bytes is
    /// `InvalidLength`; a mask with any bit outside the supported set
    /// is `WriteRequestRejected`; a subset of the supported set is
    /// accepted.
    pub open spec fn spec_locations_write(c: LocationsCharacteristic, data: Seq<u8>) -> Result<
        (),
        AttErrorCode,
    > {
        if data.len() != AUDIO_LOCATION_SIZE {
            Err(AttErrorCode::InvalidLength)
        } else if spec_u32_from_le_bytes(data) & !c.supported != 0 {
            Err(AttErrorCode::WriteRequestRejected)
        } else {
            Ok(())
        }
    }

    /// The audio-locations characteristic after writing `data` to it:
    /// an accepted write stores the decoded mask, anything else leaves
    /// the stored value alone.
    pub open spec fn spec_locations_after_write(c: LocationsCharacteristic, data: Seq<u8>)
        -> LocationsCharacteristic {
        if Self::spec_locations_write(c, data) is Ok {
            LocationsCharacteristic {
                handle: c.handle,
                supported: c.supported,
                location: AudioLocation::Positions { bits: spec_u32_from_le_bytes(data) },
            }
        } else {
            c
        }
    }

    /// Answer a write and store an accepted audio-locations value,
    /// exactly as [`LeAudioServerService::spec_write_response`] and
    /// [`PacsServer::spec_locations_after_write`] say. Only the two
    /// audio-locations characteristics are writable; a write to any
    /// other characteristic of this service is `WriteNotPermitted`.
    pub fn write_response(&mut self, handle: u16, data: &[u8]) -> (r: Option<
        Result<(), AttErrorCode>,
    >)
        ensures
            r == old(self).spec_write_response(handle, data@),
            final(self).sink_pac == old(self).sink_pac,
            final(self).source_pac == old(self).source_pac,
            final(self).supported_audio_contexts == old(self).supported_audio_contexts,
            final(self).available_audio_contexts == old(self).available_audio_contexts,
            final(self).sink_audio_locations == (if spec_sink_locations_written(
                *old(self),
                handle,
            ) {
                Some(
                    Self::spec_locations_after_write(
                        old(self).sink_audio_locations->Some_0,
                        data@,
                    ),
                )
            } else {
                old(self).sink_audio_locations
            }),
            final(self).source_audio_locations == (if spec_source_locations_written(
                *old(self),
                handle,
            ) {
                Some(
                    Self::spec_locations_after_write(
                        old(self).source_audio_locations->Some_0,
                        data@,
                    ),
                )
            } else {
                old(self).source_audio_locations
            }),
            old(self).wf() ==> final(self).wf(),
    {
        proof {
            lemma_auto_spec_u32_to_from_le_bytes();
        }
        if let Some(c) = &self.sink_pac {
            if c.handle == handle {
                return Some(Err(AttErrorCode::WriteNotPermitted));
            }
        }
        if let Some(c) = &self.sink_audio_locations {
            if c.handle == handle {
                let c = *c;
                let r = Self::locations_write(c, data);
                if r.is_ok() {
                    let bits = u32_from_le_bytes(data);
                    self.sink_audio_locations = Some(
                        LocationsCharacteristic {
                            handle: c.handle,
                            supported: c.supported,
                            location: AudioLocation::Positions { bits },
                        },
                    );
                    proof {
                        let b = spec_u32_from_le_bytes(data@);
                        let sup = c.supported;
                        assert(b & !sup == 0 && sup & !AUDIO_LOCATION_MASK == 0 ==> b
                            & !AUDIO_LOCATION_MASK == 0) by (bit_vector);
                    }
                }
                return Some(r);
            }
        }
        if let Some(c) = &self.source_pac {
            if c.handle == handle {
                return Some(Err(AttErrorCode::WriteNotPermitted));
            }
        }
        if let Some(c) = &self.source_audio_locations {
            if c.handle == handle {
                let c = *c;
                let r = Self::locations_write(c, data);
                if r.is_ok() {
                    let bits = u32_from_le_bytes(data);
                    self.source_audio_locations = Some(
                        LocationsCharacteristic {
                            handle: c.handle,
                            supported: c.supported,
                            location: AudioLocation::Positions { bits },
                        },
                    );
                    proof {
                        let b = spec_u32_from_le_bytes(data@);
                        let sup = c.supported;
                        assert(b & !sup == 0 && sup & !AUDIO_LOCATION_MASK == 0 ==> b
                            & !AUDIO_LOCATION_MASK == 0) by (bit_vector);
                    }
                }
                return Some(r);
            }
        }
        if self.supported_audio_contexts.handle == handle {
            return Some(Err(AttErrorCode::WriteNotPermitted));
        }
        if self.available_audio_contexts.handle == handle {
            return Some(Err(AttErrorCode::WriteNotPermitted));
        }
        None
    }

    fn locations_write(c: LocationsCharacteristic, data: &[u8]) -> (r: Result<(), AttErrorCode>)
        ensures
            r == Self::spec_locations_write(c, data@),
    {
        proof {
            lemma_auto_spec_u32_to_from_le_bytes();
        }
        if data.len() != AUDIO_LOCATION_SIZE {
            Err(AttErrorCode::InvalidLength)
        } else {
            let bits = u32_from_le_bytes(data);
            if bits & !c.supported != 0 {
                Err(AttErrorCode::WriteRequestRejected)
            } else {
                Ok(())
            }
        }
    }
}

/// Whether a write to `handle` reaches the sink audio-locations
/// characteristic: the characteristics are consulted in table order,
/// the sink PAC first.
pub open spec fn spec_sink_locations_written(s: PacsServer, handle: u16) -> bool {
    &&& !(s.sink_pac matches Some(c) && c.handle == handle)
    &&& s.sink_audio_locations matches Some(c) && c.handle == handle
}

/// Whether a write to `handle` reaches the source audio-locations
/// characteristic: every earlier characteristic in table order is
/// consulted first.
pub open spec fn spec_source_locations_written(s: PacsServer, handle: u16) -> bool {
    &&& !(s.sink_pac matches Some(c) && c.handle == handle)
    &&& !(s.sink_audio_locations matches Some(c) && c.handle == handle)
    &&& !(s.source_pac matches Some(c) && c.handle == handle)
    &&& s.source_audio_locations matches Some(c) && c.handle == handle
}

impl LeAudioServerService for PacsServer {
    /// Published capabilities are always consistent with what the
    /// server constructed, so a read of any characteristic of this
    /// service succeeds; any other handle is not this service's.
    open spec fn spec_read_response(&self, handle: u16) -> Option<Result<(), AttErrorCode>> {
        if self.spec_owns(handle) {
            Some(Ok(()))
        } else {
            None
        }
    }

    /// A write to an audio-locations characteristic is validated per
    /// [`PacsServer::spec_locations_write`]; a write to any other
    /// characteristic of this service is `WriteNotPermitted`; any
    /// other handle is not this service's.
    open spec fn spec_write_response(&self, handle: u16, data: Seq<u8>) -> Option<
        Result<(), AttErrorCode>,
    > {
        if self.sink_pac matches Some(c) && c.handle == handle {
            Some(Err(AttErrorCode::WriteNotPermitted))
        } else if self.sink_audio_locations matches Some(c) && c.handle == handle {
            Some(PacsServer::spec_locations_write(self.sink_audio_locations->Some_0, data))
        } else if self.source_pac matches Some(c) && c.handle == handle {
            Some(Err(AttErrorCode::WriteNotPermitted))
        } else if self.source_audio_locations matches Some(c) && c.handle == handle {
            Some(PacsServer::spec_locations_write(self.source_audio_locations->Some_0, data))
        } else if self.supported_audio_contexts.handle == handle {
            Some(Err(AttErrorCode::WriteNotPermitted))
        } else if self.available_audio_contexts.handle == handle {
            Some(Err(AttErrorCode::WriteNotPermitted))
        } else {
            None
        }
    }

    fn handle_read_event(&self, event: &ReadEvent) -> (r: Option<Result<(), AttErrorCode>>) {
        let handle = event.handle;
        if let Some(c) = &self.sink_pac {
            if c.handle == handle {
                return Some(Ok(()));
            }
        }
        if let Some(c) = &self.sink_audio_locations {
            if c.handle == handle {
                return Some(Ok(()));
            }
        }
        if let Some(c) = &self.source_pac {
            if c.handle == handle {
                return Some(Ok(()));
            }
        }
        if let Some(c) = &self.source_audio_locations {
            if c.handle == handle {
                return Some(Ok(()));
            }
        }
        if self.supported_audio_contexts.handle == handle {
            return Some(Ok(()));
        }
        if self.available_audio_contexts.handle == handle {
            return Some(Ok(()));
        }
        None
    }

    fn handle_write_event(&mut self, event: &WriteEvent) -> (r: Option<Result<(), AttErrorCode>>)
        ensures
            final(self).sink_pac == old(self).sink_pac,
            final(self).source_pac == old(self).source_pac,
            final(self).supported_audio_contexts == old(self).supported_audio_contexts,
            final(self).available_audio_contexts == old(self).available_audio_contexts,
            final(self).sink_audio_locations == (if spec_sink_locations_written(
                *old(self),
                event.handle,
            ) {
                Some(
                    PacsServer::spec_locations_after_write(
                        old(self).sink_audio_locations->Some_0,
                        event.data@,
                    ),
                )
            } else {
                old(self).sink_audio_locations
            }),
            final(self).source_audio_locations == (if spec_source_locations_written(
                *old(self),
                event.handle,
            ) {
                Some(
                    PacsServer::spec_locations_after_write(
                        old(self).source_audio_locations->Some_0,
                        event.data@,
                    ),
                )
            } else {
                old(self).source_audio_locations
            }),
            old(self).wf() ==> final(self).wf(),
    {
        self.write_response(event.handle, event.data.as_slice())
    }
}

/// Write validation of the audio-locations characteristics: a 4-byte
/// mask with any bit outside the server-supported set is rejected and
/// leaves the stored value alone; a subset of the supported set is
/// accepted and becomes the stored value, where a following read
/// observes it.
pub proof fn lemma_locations_write_validation(c: LocationsCharacteristic, data: Seq<u8>)
    requires
        data.len() == AUDIO_LOCATION_SIZE,
    ensures
        spec_u32_from_le_bytes(data) & !c.supported != 0 ==> {
            &&& PacsServer::spec_locations_write(c, data) == Err::<(), AttErrorCode>(
                AttErrorCode::WriteRequestRejected,
            )
            &&& PacsServer::spec_locations_after_write(c, data) == c
        },
        spec_u32_from_le_bytes(data) & !c.supported == 0 ==> {
            &&& PacsServer::spec_locations_write(c, data) == Ok::<(), AttErrorCode>(())
            &&& PacsServer::spec_locations_after_write(c, data).location == (
            AudioLocation::Positions { bits: spec_u32_from_le_bytes(data) })
            &&& PacsServer::spec_locations_after_write(c, data).handle == c.handle
            &&& PacsServer::spec_locations_after_write(c, data).supported == c.supported
        },
{
}

/// Access policy of a PAC characteristic: a read of its handle is
/// always accepted, and a write to it, whatever the bytes, is always
/// refused as not permitted.
pub proof fn lemma_pac_characteristic_policy(s: PacsServer, data: Seq<u8>)
    requires
        s.sink_pac is Some,
    ensures
        s.spec_read_response(s.sink_pac->Some_0.handle) == Some(Ok::<(), AttErrorCode>(())),
        s.spec_write_response(s.sink_pac->Some_0.handle, data) == Some(
            Err::<(), AttErrorCode>(AttErrorCode::WriteNotPermitted),
        ),
{
}

} // verus!
