//! Audio Stream Control Service: the per-endpoint state machine that
//! clients drive through the ASE Control Point, and the service that
//! routes control-point writes to the addressed endpoint.
use vstd::bytes::*;
use vstd::prelude::*;

use crate::server::AttributeTable;
use crate::server::BuildError;
use crate::server::LeAudioServerService;
use crate::server::ReadEvent;
use crate::server::WriteEvent;
use crate::AttErrorCode;
use crate::CodecId;
use crate::DecodeError;

verus! {

/// Physical-layer preference carried in ASE parameters.
#[derive(Debug, Clone, Copy, PartialEq, Eq, Structural)]
pub enum PhySet {
    M1,
    M2,
    Coded,
}

impl Default for PhySet {
    fn default() -> (r: Self)
        ensures
            r == PhySet::M2,
    {
        PhySet::M2
    }
}

/// The control operations of the ASE state machine.
#[derive(Debug, Clone, Copy, PartialEq, Eq, Structural)]
pub enum AseControlOperation {
    ConfigCodec,
    ConfigQos,
    Enable,
    ReceiverStartReady,
    ReceiverStopReady,
    Disable,
    UpdateMetadata,
    Release,
    Released,
}

/// The device initiating an operation. `ClientOrServer` is an input
/// that leaves the initiator open; a transition rule that demands a
/// specific initiator does not accept it.
#[derive(Debug, Clone, Copy, PartialEq, Eq, Structural)]
pub enum InitiatingDevice {
    Client,
    Server,
    ClientOrServer,
}

/// The direction of an endpoint: a Sink receives audio, a Source sends
/// it. `All` is a transition input that leaves the direction open; a
/// rule that demands a specific direction does not accept it, and an
/// endpoint itself is never `All`.
#[derive(Debug, Clone, Copy, PartialEq, Eq, Structural)]
pub enum AseType {
    Source,
    Sink,
    All,
}

/// Parameters an endpoint carries while codec-configured.
#[derive(Debug, Clone, Copy, PartialEq)]
pub struct AseParamsCodecConfigured {
    /// Server support for unframed ISOAL PDUs.
    pub framing: u8,
    /// Server preferred value for the PHY parameter.
    pub preferred_phy: PhySet,
    /// Server preferred value for the retransmission-number parameter.
    pub preferred_retransmission_number: u8,
    /// Maximum supported transport latency, in milliseconds.
    pub max_transport_latency: u16,
    /// Minimum supported presentation delay, in microseconds.
    pub presentation_delay_min: u32,
    /// Maximum supported presentation delay, in microseconds.
    pub presentation_delay_max: u32,
    /// Preferred minimum presentation delay, in microseconds.
    pub preferred_presentation_delay_min: u32,
    /// Preferred maximum presentation delay, in microseconds.
    pub preferred_presentation_delay_max: u32,
    /// Codec id the endpoint is configured for.
    pub codec_id: CodecId,
    /// Codec-specific configuration, aliasing configuration storage
    /// that outlives the endpoint; its length on the wire is one byte,
    /// so a well-formed value holds at most 255 bytes.
    pub codec_specific_configuration: Option<&'static [u8]>,
}

/// The codec-configured parameters a fresh transition hands out.
pub open spec fn spec_default_codec_configured() -> AseParamsCodecConfigured {
    AseParamsCodecConfigured {
        framing: 0,
        preferred_phy: PhySet::M2,
        preferred_retransmission_number: 0,
        max_transport_latency: 0,
        presentation_delay_min: 0,
        presentation_delay_max: 0,
        preferred_presentation_delay_min: 0,
        preferred_presentation_delay_max: 0,
        codec_id: CodecId(0x0Du64),
        codec_specific_configuration: None,
    }
}

impl AseParamsCodecConfigured {
    pub open spec fn wf(self) -> bool {
        self.codec_specific_configuration matches Some(b) ==> b@.len() <= 255
    }
}

impl Default for AseParamsCodecConfigured {
    fn default() -> (r: Self)
        ensures
            r == spec_default_codec_configured(),
    {
        let r = AseParamsCodecConfigured {
            framing: 0,
            preferred_phy: PhySet::M2,
            preferred_retransmission_number: 0,
            max_transport_latency: 0,
            presentation_delay_min: 0,
            presentation_delay_max: 0,
            preferred_presentation_delay_min: 0,
            preferred_presentation_delay_max: 0,
            codec_id: CodecId(0x0D),
            codec_specific_configuration: None,
        };
        r
    }
}

/// Parameters an endpoint carries while QoS-configured. The two
/// three-byte wire fields (SDU interval and presentation delay) are
/// held as integers below 2^24.
#[derive(Debug, Clone, Copy, PartialEq, Eq, Structural)]
pub struct AseParamsQoSConfigured {
    pub cig_id: u8,
    pub cis_id: u8,
    /// SDU interval in microseconds, a three-byte wire field.
    pub sdu_interval: u32,
    pub framing: u8,
    pub phy: PhySet,
    pub max_sdu: u16,
    pub retransmission_number: u8,
    pub max_transport_latency: u16,
    /// Presentation delay in microseconds, a three-byte wire field.
    pub presentation_delay: u32,
}

/// The QoS parameters a fresh transition hands out.
pub open spec fn spec_default_qos_configured() -> AseParamsQoSConfigured {
    AseParamsQoSConfigured {
        cig_id: 0,
        cis_id: 0,
        sdu_interval: 0,
        framing: 0,
        phy: PhySet::M2,
        max_sdu: 0,
        retransmission_number: 0,
        max_transport_latency: 0,
        presentation_delay: 0,
    }
}

impl AseParamsQoSConfigured {
    pub open spec fn wf(self) -> bool {
        self.sdu_interval < 0x100_0000 && self.presentation_delay < 0x100_0000
    }
}

impl Default for AseParamsQoSConfigured {
    fn default() -> (r: Self)
        ensures
            r == spec_default_qos_configured(),
    {
        AseParamsQoSConfigured {
            cig_id: 0,
            cis_id: 0,
            sdu_interval: 0,
            framing: 0,
            phy: PhySet::M2,
            max_sdu: 0,
            retransmission_number: 0,
            max_transport_latency: 0,
            presentation_delay: 0,
        }
    }
}

/// Parameters an endpoint carries while enabling, streaming or
/// disabling.
#[derive(Debug, Clone, Copy, PartialEq, Eq, Structural)]
pub struct AseParamsOther {
    pub cig_id: u8,
    pub cis_id: u8,
    pub metadata: Option<u64>,
}

/// The parameters a fresh transition into enabling, streaming or
/// disabling hands out.
pub open spec fn spec_default_other() -> AseParamsOther {
    AseParamsOther { cig_id: 0, cis_id: 0, metadata: None }
}

impl Default for AseParamsOther {
    fn default() -> (r: Self)
        ensures
            r == spec_default_other(),
    {
        AseParamsOther { cig_id: 0, cis_id: 0, metadata: None }
    }
}

/// State of an endpoint in the ASE state machine. Each state that
/// needs parameters embeds them; they live exactly as long as the
/// state and every transition replaces them with defaults.
#[derive(Debug, Clone, Copy, PartialEq)]
pub enum AseState {
    Idle,
    CodecConfigured(AseParamsCodecConfigured),
    QosConfigured(AseParamsQoSConfigured),
    Enabling(AseParamsOther),
    Streaming(AseParamsOther),
    Disabling(AseParamsOther),
    Releasing,
}

impl Default for AseState {
    /// An endpoint is created idle.
    fn default() -> (r: Self)
        ensures
            r == AseState::Idle,
    {
        AseState::Idle
    }
}

impl AseState {
    pub open spec fn wf(self) -> bool {
        match self {
            AseState::CodecConfigured(p) => p.wf(),
            AseState::QosConfigured(p) => p.wf(),
            _ => true,
        }
    }

    /// The transition table of the machine, total over every input
    /// tuple. A rule whose initiator is a specific device accepts only
    /// that device; a rule open to either accepts any initiator input.
    /// Directions work the same way. An input tuple no rule accepts
    /// falls back to `Disabling` with default parameters.
    pub open spec fn spec_transition(
        self,
        operation: AseControlOperation,
        initiator: InitiatingDevice,
        ase_type: AseType,
    ) -> AseState {
        match (self, operation) {
            // Codec configuration is open to both devices from idle and
            // reconfiguration from the two configured states.
            (AseState::Idle, AseControlOperation::ConfigCodec) => AseState::CodecConfigured(
                spec_default_codec_configured(),
            ),
            (AseState::CodecConfigured(_), AseControlOperation::ConfigCodec) =>
                AseState::CodecConfigured(spec_default_codec_configured()),
            (AseState::QosConfigured(_), AseControlOperation::ConfigCodec) =>
                AseState::CodecConfigured(spec_default_codec_configured()),
            // Only the client configures QoS.
            (AseState::CodecConfigured(_), AseControlOperation::ConfigQos) => if initiator
                is Client {
                AseState::QosConfigured(spec_default_qos_configured())
            } else {
                AseState::Disabling(spec_default_other())
            },
            (AseState::QosConfigured(_), AseControlOperation::ConfigQos) => if initiator
                is Client {
                AseState::QosConfigured(spec_default_qos_configured())
            } else {
                AseState::Disabling(spec_default_other())
            },
            // Only the client enables an endpoint.
            (AseState::QosConfigured(_), AseControlOperation::Enable) => if initiator is Client {
                AseState::Enabling(spec_default_other())
            } else {
                AseState::Disabling(spec_default_other())
            },
            // Streaming starts when the receiving side is ready: the
            // client receives from a source, the server from a sink.
            (AseState::Enabling(_), AseControlOperation::ReceiverStartReady) => if (initiator
                is Client && ase_type is Source) || (initiator is Server && ase_type is Sink) {
                AseState::Streaming(spec_default_other())
            } else {
                AseState::Disabling(spec_default_other())
            },
            // Metadata updates keep the state shape.
            (AseState::Enabling(_), AseControlOperation::UpdateMetadata) => AseState::Enabling(
                spec_default_other(),
            ),
            (AseState::Streaming(_), AseControlOperation::UpdateMetadata) => AseState::Streaming(
                spec_default_other(),
            ),
            // Disabling branches on direction: a source decouples
            // through Disabling, a sink drops straight back to QoS.
            (AseState::Enabling(_), AseControlOperation::Disable) => if ase_type is Sink {
                AseState::QosConfigured(spec_default_qos_configured())
            } else {
                AseState::Disabling(spec_default_other())
            },
            (AseState::Streaming(_), AseControlOperation::Disable) => if ase_type is Sink {
                AseState::QosConfigured(spec_default_qos_configured())
            } else {
                AseState::Disabling(spec_default_other())
            },
            // Only the client, on a source, confirms the stop.
            (AseState::Disabling(_), AseControlOperation::ReceiverStopReady) => if initiator
                is Client && ase_type is Source {
                AseState::QosConfigured(spec_default_qos_configured())
            } else {
                AseState::Disabling(spec_default_other())
            },
            // Release is open to both devices from any non-idle state.
            (AseState::CodecConfigured(_), AseControlOperation::Release) => AseState::Releasing,
            (AseState::QosConfigured(_), AseControlOperation::Release) => AseState::Releasing,
            (AseState::Enabling(_), AseControlOperation::Release) => AseState::Releasing,
            (AseState::Streaming(_), AseControlOperation::Release) => AseState::Releasing,
            (AseState::Disabling(_), AseControlOperation::Release) => AseState::Releasing,
            (AseState::Releasing, AseControlOperation::Release) => AseState::Releasing,
            // Only the server retires a released endpoint to idle.
            (AseState::Releasing, AseControlOperation::Released) => if initiator is Server {
                AseState::Idle
            } else {
                AseState::Disabling(spec_default_other())
            },
            // No rule accepts the tuple: fall back to Disabling.
            _ => AseState::Disabling(spec_default_other()),
        }
    }

    /// Step the machine: pure in its four inputs and total, per
    /// [`AseState::spec_transition`]. Whatever parameters the old
    /// state carried are discarded; the new state starts from
    /// defaults.
    pub fn transition(
        self,
        operation: AseControlOperation,
        initiator: InitiatingDevice,
        ase_type: AseType,
    ) -> (r: AseState)
        ensures
            r == self.spec_transition(operation, initiator, ase_type),
    {
        match (self, operation) {
            (AseState::Idle, AseControlOperation::ConfigCodec) => AseState::CodecConfigured(
                AseParamsCodecConfigured::default(),
            ),
            (AseState::CodecConfigured(_), AseControlOperation::ConfigCodec) =>
                AseState::CodecConfigured(AseParamsCodecConfigured::default()),
            (AseState::QosConfigured(_), AseControlOperation::ConfigCodec) =>
                AseState::CodecConfigured(AseParamsCodecConfigured::default()),
            (AseState::CodecConfigured(_), AseControlOperation::ConfigQos) => if matches!(
                initiator,
                InitiatingDevice::Client,
            ) {
                AseState::QosConfigured(AseParamsQoSConfigured::default())
            } else {
                AseState::Disabling(AseParamsOther::default())
            },
            (AseState::QosConfigured(_), AseControlOperation::ConfigQos) => if matches!(
                initiator,
                InitiatingDevice::Client,
            ) {
                AseState::QosConfigured(AseParamsQoSConfigured::default())
            } else {
                AseState::Disabling(AseParamsOther::default())
            },
            (AseState::QosConfigured(_), AseControlOperation::Enable) => if matches!(
                initiator,
                InitiatingDevice::Client,
            ) {
                AseState::Enabling(AseParamsOther::default())
            } else {
                AseState::Disabling(AseParamsOther::default())
            },
            (AseState::Enabling(_), AseControlOperation::ReceiverStartReady) => {
                let client_source = matches!(initiator, InitiatingDevice::Client) && matches!(
                    ase_type,
                    AseType::Source,
                );
                let server_sink = matches!(initiator, InitiatingDevice::Server) && matches!(
                    ase_type,
                    AseType::Sink,
                );
                if client_source || server_sink {
                    AseState::Streaming(AseParamsOther::default())
                } else {
                    AseState::Disabling(AseParamsOther::default())
                }
            },
            (AseState::Enabling(_), AseControlOperation::UpdateMetadata) => AseState::Enabling(
                AseParamsOther::default(),
            ),
            (AseState::Streaming(_), AseControlOperation::UpdateMetadata) => AseState::Streaming(
                AseParamsOther::default(),
            ),
            (AseState::Enabling(_), AseControlOperation::Disable) => if matches!(
                ase_type,
                AseType::Sink,
            ) {
                AseState::QosConfigured(AseParamsQoSConfigured::default())
            } else {
                AseState::Disabling(AseParamsOther::default())
            },
            (AseState::Streaming(_), AseControlOperation::Disable) => if matches!(
                ase_type,
                AseType::Sink,
            ) {
                AseState::QosConfigured(AseParamsQoSConfigured::default())
            } else {
                AseState::Disabling(AseParamsOther::default())
            },
            (AseState::Disabling(_), AseControlOperation::ReceiverStopReady) => if matches!(
                initiator,
                InitiatingDevice::Client,
            ) && matches!(ase_type, AseType::Source) {
                AseState::QosConfigured(AseParamsQoSConfigured::default())
            } else {
                AseState::Disabling(AseParamsOther::default())
            },
            (AseState::CodecConfigured(_), AseControlOperation::Release) => AseState::Releasing,
            (AseState::QosConfigured(_), AseControlOperation::Release) => AseState::Releasing,
            (AseState::Enabling(_), AseControlOperation::Release) => AseState::Releasing,
            (AseState::Streaming(_), AseControlOperation::Release) => AseState::Releasing,
            (AseState::Disabling(_), AseControlOperation::Release) => AseState::Releasing,
            (AseState::Releasing, AseControlOperation::Release) => AseState::Releasing,
            (AseState::Releasing, AseControlOperation::Released) => if matches!(
                initiator,
                InitiatingDevice::Server,
            ) {
                AseState::Idle
            } else {
                AseState::Disabling(AseParamsOther::default())
            },
            _ => AseState::Disabling(AseParamsOther::default()),
        }
    }
}

/// Totality of the transition table: every tuple of state, operation,
/// initiator and direction maps to a defined state of the machine,
/// and a state that carries parameters carries that state's defaults.
pub proof fn lemma_transition_total(
    s: AseState,
    operation: AseControlOperation,
    initiator: InitiatingDevice,
    ase_type: AseType,
)
    ensures
        ({
            let r = s.spec_transition(operation, initiator, ase_type);
            ||| r == AseState::Idle
            ||| r == AseState::Releasing
            ||| r == AseState::CodecConfigured(spec_default_codec_configured())
            ||| r == AseState::QosConfigured(spec_default_qos_configured())
            ||| r == AseState::Enabling(spec_default_other())
            ||| r == AseState::Streaming(spec_default_other())
            ||| r == AseState::Disabling(spec_default_other())
        }),
{
}

/// Determinism of the machine: the next state is a function of the
/// four inputs alone, so two steps from equal inputs end equal.
pub proof fn lemma_transition_deterministic(
    s: AseState,
    operation: AseControlOperation,
    initiator: InitiatingDevice,
    ase_type: AseType,
    r1: AseState,
    r2: AseState,
)
    requires
        r1 == s.spec_transition(operation, initiator, ase_type),
        r2 == s.spec_transition(operation, initiator, ase_type),
    ensures
        r1 == r2,
{
}

/// Parameter reset: whatever parameters the old state carried, the
/// state after any transition carries its own defaults, never a value
/// brought over from before.
pub proof fn lemma_transition_resets_params(
    s: AseState,
    operation: AseControlOperation,
    initiator: InitiatingDevice,
    ase_type: AseType,
)
    ensures
        match s.spec_transition(operation, initiator, ase_type) {
            AseState::Idle => true,
            AseState::CodecConfigured(p) => p == spec_default_codec_configured(),
            AseState::QosConfigured(p) => p == spec_default_qos_configured(),
            AseState::Enabling(p) => p == spec_default_other(),
            AseState::Streaming(p) => p == spec_default_other(),
            AseState::Disabling(p) => p == spec_default_other(),
            AseState::Releasing => true,
        },
{
}

/// One audio stream endpoint: a stable server-assigned id, a fixed
/// direction, and the machine state it is in.
#[derive(Debug, Clone, Copy, PartialEq)]
pub struct Ase {
    /// Identifier of this ASE, assigned by the server.
    pub id: u8,
    /// Direction of the endpoint, fixed at creation: never `All`.
    pub direction: AseType,
    /// State of the ASE with respect to the ASE state machine.
    pub state: AseState,
}

impl Ase {
    pub open spec fn wf(self) -> bool {
        !(self.direction is All) && self.state.wf()
    }

    /// A fresh endpoint starts idle.
    pub fn new(id: u8, direction: AseType) -> (r: Self)
        requires
            !(direction is All),
        ensures
            r == (Ase { id, direction, state: AseState::Idle }),
            r.wf(),
    {
        Ase { id, direction, state: AseState::Idle }
    }
}

/// The one-byte state tag that opens an encoded endpoint's payload.
pub open spec fn spec_state_tag(s: AseState) -> u8 {
    match s {
        AseState::Idle => 0,
        AseState::CodecConfigured(_) => 1,
        AseState::QosConfigured(_) => 2,
        AseState::Enabling(_) => 3,
        AseState::Streaming(_) => 4,
        AseState::Disabling(_) => 5,
        AseState::Releasing => 6,
    }
}

/// The one-byte wire form of a PHY preference.
pub open spec fn spec_phy_byte(p: PhySet) -> u8 {
    match p {
        PhySet::M1 => 1,
        PhySet::M2 => 2,
        PhySet::Coded => 3,
    }
}

/// The PHY preference a byte decodes to, if any.
pub open spec fn spec_phy_from_byte(b: u8) -> Option<PhySet> {
    match b {
        1u8 => Some(PhySet::M1),
        2u8 => Some(PhySet::M2),
        3u8 => Some(PhySet::Coded),
        _ => None,
    }
}

fn phy_byte(p: PhySet) -> (r: u8)
    ensures
        r == spec_phy_byte(p),
{
    match p {
        PhySet::M1 => 1,
        PhySet::M2 => 2,
        PhySet::Coded => 3,
    }
}

fn phy_from_byte(b: u8) -> (r: Option<PhySet>)
    ensures
        r == spec_phy_from_byte(b),
{
    match b {
        1 => Some(PhySet::M1),
        2 => Some(PhySet::M2),
        3 => Some(PhySet::Coded),
        _ => None,
    }
}

/// A 24-bit value as three little-endian bytes.
pub open spec fn spec_u24_to_le_bytes(x: u32) -> Seq<u8> {
    seq![(x & 0xFF) as u8, ((x >> 8) & 0xFF) as u8, ((x >> 16) & 0xFF) as u8]
}

/// The 24-bit value three little-endian bytes denote.
pub open spec fn spec_u24_from_le_bytes(s: Seq<u8>) -> u32
    recommends
        s.len() == 3,
{
    (s[0] as u32) | ((s[1] as u32) << 8) | ((s[2] as u32) << 16)
}

/// Three-byte little-endian fields survive the trip onto the wire and
/// back for every value below 2^24.
pub proof fn lemma_u24_round_trip(x: u32)
    requires
        x < 0x100_0000,
    ensures
        spec_u24_from_le_bytes(spec_u24_to_le_bytes(x)) == x,
{
    assert((((x & 0xFF) as u8) as u32) | (((((x >> 8) & 0xFF) as u8) as u32) << 8) | (((((x >> 16)
        & 0xFF) as u8) as u32) << 16) == x) by (bit_vector)
        requires
            x < 0x100_0000,
    ;
}

fn u24_to_le_bytes(x: u32) -> (r: Vec<u8>)
    ensures
        r@ == spec_u24_to_le_bytes(x),
        r@.len() == 3,
{
    let mut r: Vec<u8> = Vec::new();
    r.push((x & 0xFF) as u8);
    r.push(((x >> 8) & 0xFF) as u8);
    r.push(((x >> 16) & 0xFF) as u8);
    proof {
        assert(r@ =~= spec_u24_to_le_bytes(x));
    }
    r
}

fn u24_from_le_bytes(s: &[u8]) -> (r: u32)
    requires
        s@.len() == 3,
    ensures
        r == spec_u24_from_le_bytes(s@),
        r < 0x100_0000,
{
    let b0 = *vstd::slice::slice_index_get(s, 0);
    let b1 = *vstd::slice::slice_index_get(s, 1);
    let b2 = *vstd::slice::slice_index_get(s, 2);
    proof {
        assert((b0 as u32) | ((b1 as u32) << 8) | ((b2 as u32) << 16) < 0x100_0000)
            by (bit_vector);
    }
    (b0 as u32) | ((b1 as u32) << 8) | ((b2 as u32) << 16)
}

/// The encoded payload of the codec-configured parameters: the server
/// preferences, the codec id, then the codec-specific configuration as
/// a one-byte length and its bytes.
pub open spec fn spec_codec_configured_bytes(p: AseParamsCodecConfigured) -> Seq<u8>
    recommends
        p.wf(),
{
    seq![p.framing, spec_phy_byte(p.preferred_phy), p.preferred_retransmission_number]
        + spec_u16_to_le_bytes(p.max_transport_latency) + spec_u32_to_le_bytes(
        p.presentation_delay_min,
    ) + spec_u32_to_le_bytes(p.presentation_delay_max) + spec_u32_to_le_bytes(
        p.preferred_presentation_delay_min,
    ) + spec_u32_to_le_bytes(p.preferred_presentation_delay_max) + spec_u64_to_le_bytes(
        p.codec_id.0,
    ) + (match p.codec_specific_configuration {
        None => seq![0u8],
        Some(b) => seq![b@.len() as u8] + b@,
    })
}

/// The encoded payload of the QoS-configured parameters.
pub open spec fn spec_qos_configured_bytes(p: AseParamsQoSConfigured) -> Seq<u8>
    recommends
        p.wf(),
{
    seq![p.cig_id, p.cis_id] + spec_u24_to_le_bytes(p.sdu_interval) + seq![
        p.framing,
        spec_phy_byte(p.phy),
    ] + spec_u16_to_le_bytes(p.max_sdu) + seq![p.retransmission_number] + spec_u16_to_le_bytes(
        p.max_transport_latency,
    ) + spec_u24_to_le_bytes(p.presentation_delay)
}

/// The encoded payload of the enabling, streaming and disabling
/// parameters: the CIG and CIS ids, then the metadata as a presence
/// byte and eight little-endian bytes, zero when absent.
pub open spec fn spec_other_bytes(p: AseParamsOther) -> Seq<u8> {
    seq![p.cig_id, p.cis_id] + (match p.metadata {
        None => seq![0u8] + spec_u64_to_le_bytes(0u64),
        Some(m) => seq![1u8] + spec_u64_to_le_bytes(m),
    })
}

/// The encoded form of an endpoint: its id, the state tag, then the
/// state's payload. Idle and releasing states carry no payload.
pub open spec fn spec_ase_as_gatt(a: Ase) -> Seq<u8>
    recommends
        a.wf(),
{
    seq![a.id, spec_state_tag(a.state)] + (match a.state {
        AseState::Idle => Seq::empty(),
        AseState::CodecConfigured(p) => spec_codec_configured_bytes(p),
        AseState::QosConfigured(p) => spec_qos_configured_bytes(p),
        AseState::Enabling(p) => spec_other_bytes(p),
        AseState::Streaming(p) => spec_other_bytes(p),
        AseState::Disabling(p) => spec_other_bytes(p),
        AseState::Releasing => Seq::empty(),
    })
}

impl Ase {
    /// Encode for the wire: `{id, state tag, state payload}` with the
    /// exact layout of [`spec_ase_as_gatt`].
    pub fn as_gatt(&self) -> (r: Vec<u8>)
        requires
            self.wf(),
        ensures
            r@ == spec_ase_as_gatt(*self),
    {
        let mut out: Vec<u8> = Vec::new();
        out.push(self.id);
        match &self.state {
            AseState::Idle => {
                out.push(0);
                proof {
                    assert(out@ =~= spec_ase_as_gatt(*self));
                }
            },
            AseState::CodecConfigured(p) => {
                out.push(1);
                out.push(p.framing);
                out.push(phy_byte(p.preferred_phy));
                out.push(p.preferred_retransmission_number);
                let mut piece = u16_to_le_bytes(p.max_transport_latency);
                out.append(&mut piece);
                let mut piece = u32_to_le_bytes(p.presentation_delay_min);
                out.append(&mut piece);
                let mut piece = u32_to_le_bytes(p.presentation_delay_max);
                out.append(&mut piece);
                let mut piece = u32_to_le_bytes(p.preferred_presentation_delay_min);
                out.append(&mut piece);
                let mut piece = u32_to_le_bytes(p.preferred_presentation_delay_max);
                out.append(&mut piece);
                let mut piece = u64_to_le_bytes(p.codec_id.0);
                out.append(&mut piece);
                match p.codec_specific_configuration {
                    None => out.push(0),
                    Some(b) => {
                        out.push(b.len() as u8);
                        let mut piece = vstd::slice::slice_to_vec(b);
                        out.append(&mut piece);
                    },
                }
                proof {
                    assert(out@ =~= spec_ase_as_gatt(*self));
                }
            },
            AseState::QosConfigured(p) => {
                out.push(2);
                out.push(p.cig_id);
                out.push(p.cis_id);
                let mut piece = u24_to_le_bytes(p.sdu_interval);
                out.append(&mut piece);
                out.push(p.framing);
                out.push(phy_byte(p.phy));
                let mut piece = u16_to_le_bytes(p.max_sdu);
                out.append(&mut piece);
                out.push(p.retransmission_number);
                let mut piece = u16_to_le_bytes(p.max_transport_latency);
                out.append(&mut piece);
                let mut piece = u24_to_le_bytes(p.presentation_delay);
                out.append(&mut piece);
                proof {
                    assert(out@ =~= spec_ase_as_gatt(*self));
                }
            },
            AseState::Enabling(p) => {
                out.push(3);
                Self::push_other(&mut out, p);
                proof {
                    assert(out@ =~= spec_ase_as_gatt(*self));
                }
            },
            AseState::Streaming(p) => {
                out.push(4);
                Self::push_other(&mut out, p);
                proof {
                    assert(out@ =~= spec_ase_as_gatt(*self));
                }
            },
            AseState::Disabling(p) => {
                out.push(5);
                Self::push_other(&mut out, p);
                proof {
                    assert(out@ =~= spec_ase_as_gatt(*self));
                }
            },
            AseState::Releasing => {
                out.push(6);
                proof {
                    assert(out@ =~= spec_ase_as_gatt(*self));
                }
            },
        }
        out
    }

    fn push_other(out: &mut Vec<u8>, p: &AseParamsOther)
        ensures
            final(out)@ == old(out)@ + spec_other_bytes(*p),
    {
        out.push(p.cig_id);
        out.push(p.cis_id);
        match p.metadata {
            None => {
                out.push(0);
                let mut piece = u64_to_le_bytes(0);
                out.append(&mut piece);
            },
            Some(m) => {
                out.push(1);
                let mut piece = u64_to_le_bytes(m);
                out.append(&mut piece);
            },
        }
        proof {
            assert(out@ =~= old(out)@ + spec_other_bytes(*p));
        }
    }
}

/// The endpoint a wire buffer decodes to, for an endpoint of the given
/// direction (the direction is carried by which characteristic was
/// read, not by the bytes). Wrong total length for the state tag is
/// `InvalidLength`; an unknown state tag, PHY byte or metadata
/// presence byte is `InvalidValue`. A decoded endpoint owns no static
/// configuration storage, so a codec-configured payload announcing a
/// nonempty configuration blob is refused as `InvalidValue`.
pub open spec fn spec_ase_from_gatt(direction: AseType, data: Seq<u8>) -> Result<
    Ase,
    DecodeError,
> {
    if data.len() < 2 {
        Err(DecodeError::InvalidLength)
    } else {
        let id = data[0];
        if data[1] == 0 {
            if data.len() == 2 {
                Ok(Ase { id, direction, state: AseState::Idle })
            } else {
                Err(DecodeError::InvalidLength)
            }
        } else if data[1] == 1 {
            if data.len() < 32 || data.len() != 32 + data[31] {
                Err(DecodeError::InvalidLength)
            } else {
                match spec_phy_from_byte(data[3]) {
                    None => Err(DecodeError::InvalidValue),
                    Some(phy) => if data[31] != 0 {
                        Err(DecodeError::InvalidValue)
                    } else {
                        Ok(
                            Ase {
                                id,
                                direction,
                                state: AseState::CodecConfigured(
                                    AseParamsCodecConfigured {
                                        framing: data[2],
                                        preferred_phy: phy,
                                        preferred_retransmission_number: data[4],
                                        max_transport_latency: spec_u16_from_le_bytes(
                                            data.subrange(5, 7),
                                        ),
                                        presentation_delay_min: spec_u32_from_le_bytes(
                                            data.subrange(7, 11),
                                        ),
                                        presentation_delay_max: spec_u32_from_le_bytes(
                                            data.subrange(11, 15),
                                        ),
                                        preferred_presentation_delay_min: spec_u32_from_le_bytes(
                                            data.subrange(15, 19),
                                        ),
                                        preferred_presentation_delay_max: spec_u32_from_le_bytes(
                                            data.subrange(19, 23),
                                        ),
                                        codec_id: CodecId(
                                            spec_u64_from_le_bytes(data.subrange(23, 31)),
                                        ),
                                        codec_specific_configuration: None,
                                    },
                                ),
                            },
                        )
                    },
                }
            }
        } else if data[1] == 2 {
            if data.len() != 17 {
                Err(DecodeError::InvalidLength)
            } else {
                match spec_phy_from_byte(data[8]) {
                    None => Err(DecodeError::InvalidValue),
                    Some(phy) => Ok(
                        Ase {
                            id,
                            direction,
                            state: AseState::QosConfigured(
                                AseParamsQoSConfigured {
                                    cig_id: data[2],
                                    cis_id: data[3],
                                    sdu_interval: spec_u24_from_le_bytes(data.subrange(4, 7)),
                                    framing: data[7],
                                    phy,
                                    max_sdu: spec_u16_from_le_bytes(data.subrange(9, 11)),
                                    retransmission_number: data[11],
                                    max_transport_latency: spec_u16_from_le_bytes(
                                        data.subrange(12, 14),
                                    ),
                                    presentation_delay: spec_u24_from_le_bytes(
                                        data.subrange(14, 17),
                                    ),
                                },
                            ),
                        },
                    ),
                }
            }
        } else if data[1] == 3 || data[1] == 4 || data[1] == 5 {
            if data.len() != 13 {
                Err(DecodeError::InvalidLength)
            } else if data[4] != 0 && data[4] != 1 {
                Err(DecodeError::InvalidValue)
            } else {
                let p = AseParamsOther {
                    cig_id: data[2],
                    cis_id: data[3],
                    metadata: if data[4] == 1 {
                        Some(spec_u64_from_le_bytes(data.subrange(5, 13)))
                    } else {
                        None
                    },
                };
                let state = if data[1] == 3 {
                    AseState::Enabling(p)
                } else if data[1] == 4 {
                    AseState::Streaming(p)
                } else {
                    AseState::Disabling(p)
                };
                Ok(Ase { id, direction, state })
            }
        } else if data[1] == 6 {
            if data.len() == 2 {
                Ok(Ase { id, direction, state: AseState::Releasing })
            } else {
                Err(DecodeError::InvalidLength)
            }
        } else {
            Err(DecodeError::InvalidValue)
        }
    }
}

impl Ase {
    /// Decode an endpoint of the given direction from its wire form,
    /// exactly as [`spec_ase_from_gatt`] reads it.
    pub fn from_gatt(direction: AseType, data: &[u8]) -> (r: Result<Ase, DecodeError>)
        requires
            !(direction is All),
        ensures
            r == spec_ase_from_gatt(direction, data@),
            r matches Ok(a) ==> a.wf(),
    {
        proof {
            lemma_auto_spec_u16_to_from_le_bytes();
            lemma_auto_spec_u32_to_from_le_bytes();
            lemma_auto_spec_u64_to_from_le_bytes();
        }
        if data.len() < 2 {
            return Err(DecodeError::InvalidLength);
        }
        let id = *vstd::slice::slice_index_get(data, 0);
        let tag = *vstd::slice::slice_index_get(data, 1);
        if tag == 0 {
            if data.len() == 2 {
                Ok(Ase { id, direction, state: AseState::Idle })
            } else {
                Err(DecodeError::InvalidLength)
            }
        } else if tag == 1 {
            if data.len() < 32 {
                return Err(DecodeError::InvalidLength);
            }
            let cfg_len = *vstd::slice::slice_index_get(data, 31);
            if data.len() != 32 + (cfg_len as usize) {
                return Err(DecodeError::InvalidLength);
            }
            let phy = match phy_from_byte(*vstd::slice::slice_index_get(data, 3)) {
                None => {
                    return Err(DecodeError::InvalidValue);
                },
                Some(phy) => phy,
            };
            if cfg_len != 0 {
                return Err(DecodeError::InvalidValue);
            }
            Ok(
                Ase {
                    id,
                    direction,
                    state: AseState::CodecConfigured(
                        AseParamsCodecConfigured {
                            framing: *vstd::slice::slice_index_get(data, 2),
                            preferred_phy: phy,
                            preferred_retransmission_number: *vstd::slice::slice_index_get(
                                data,
                                4,
                            ),
                            max_transport_latency: u16_from_le_bytes(
                                vstd::slice::slice_subrange(data, 5, 7),
                            ),
                            presentation_delay_min: u32_from_le_bytes(
                                vstd::slice::slice_subrange(data, 7, 11),
                            ),
                            presentation_delay_max: u32_from_le_bytes(
                                vstd::slice::slice_subrange(data, 11, 15),
                            ),
                            preferred_presentation_delay_min: u32_from_le_bytes(
                                vstd::slice::slice_subrange(data, 15, 19),
                            ),
                            preferred_presentation_delay_max: u32_from_le_bytes(
                                vstd::slice::slice_subrange(data, 19, 23),
                            ),
                            codec_id: CodecId(
                                u64_from_le_bytes(vstd::slice::slice_subrange(data, 23, 31)),
                            ),
                            codec_specific_configuration: None,
                        },
                    ),
                },
            )
        } else if tag == 2 {
            if data.len() != 17 {
                return Err(DecodeError::InvalidLength);
            }
            let phy = match phy_from_byte(*vstd::slice::slice_index_get(data, 8)) {
                None => {
                    return Err(DecodeError::InvalidValue);
                },
                Some(phy) => phy,
            };
            Ok(
                Ase {
                    id,
                    direction,
                    state: AseState::QosConfigured(
                        AseParamsQoSConfigured {
                            cig_id: *vstd::slice::slice_index_get(data, 2),
                            cis_id: *vstd::slice::slice_index_get(data, 3),
                            sdu_interval: u24_from_le_bytes(
                                vstd::slice::slice_subrange(data, 4, 7),
                            ),
                            framing: *vstd::slice::slice_index_get(data, 7),
                            phy,
                            max_sdu: u16_from_le_bytes(vstd::slice::slice_subrange(data, 9, 11)),
                            retransmission_number: *vstd::slice::slice_index_get(data, 11),
                            max_transport_latency: u16_from_le_bytes(
                                vstd::slice::slice_subrange(data, 12, 14),
                            ),
                            presentation_delay: u24_from_le_bytes(
                                vstd::slice::slice_subrange(data, 14, 17),
                            ),
                        },
                    ),
                },
            )
        } else if tag == 3 || tag == 4 || tag == 5 {
            if data.len() != 13 {
                return Err(DecodeError::InvalidLength);
            }
            let flag = *vstd::slice::slice_index_get(data, 4);
            if flag != 0 && flag != 1 {
                return Err(DecodeError::InvalidValue);
            }
            let metadata = if flag == 1 {
                Some(u64_from_le_bytes(vstd::slice::slice_subrange(data, 5, 13)))
            } else {
                None
            };
            let p = AseParamsOther {
                cig_id: *vstd::slice::slice_index_get(data, 2),
                cis_id: *vstd::slice::slice_index_get(data, 3),
                metadata,
            };
            let state = if tag == 3 {
                AseState::Enabling(p)
            } else if tag == 4 {
                AseState::Streaming(p)
            } else {
                AseState::Disabling(p)
            };
            Ok(Ase { id, direction, state })
        } else if tag == 6 {
            if data.len() == 2 {
                Ok(Ase { id, direction, state: AseState::Releasing })
            } else {
                Err(DecodeError::InvalidLength)
            }
        } else {
            Err(DecodeError::InvalidValue)
        }
    }
}

/// Every well-formed endpoint that owns no configuration blob survives
/// the trip onto the wire and back: decoding its encoding, for its own
/// direction, returns the endpoint itself. (An endpoint whose
/// codec-configured state aliases a static configuration blob encodes
/// faithfully but cannot be rebuilt from bytes alone, so it is outside
/// this law.)
pub proof fn lemma_ase_round_trip(a: Ase)
    requires
        a.wf(),
        a.state matches AseState::CodecConfigured(p) ==> p.codec_specific_configuration is None,
    ensures
        spec_ase_from_gatt(a.direction, spec_ase_as_gatt(a)) == Ok::<Ase, DecodeError>(a),
{
    lemma_auto_spec_u16_to_from_le_bytes();
    lemma_auto_spec_u32_to_from_le_bytes();
    lemma_auto_spec_u64_to_from_le_bytes();
    let data = spec_ase_as_gatt(a);
    match a.state {
        AseState::Idle => {
            assert(data =~= seq![a.id, 0u8]);
        },
        AseState::CodecConfigured(p) => {
            assert(data.len() == 32);
            assert(data[1] == 1 && data[31] == 0);
            assert(data.subrange(5, 7) =~= spec_u16_to_le_bytes(p.max_transport_latency));
            assert(data.subrange(7, 11) =~= spec_u32_to_le_bytes(p.presentation_delay_min));
            assert(data.subrange(11, 15) =~= spec_u32_to_le_bytes(p.presentation_delay_max));
            assert(data.subrange(15, 19) =~= spec_u32_to_le_bytes(
                p.preferred_presentation_delay_min,
            ));
            assert(data.subrange(19, 23) =~= spec_u32_to_le_bytes(
                p.preferred_presentation_delay_max,
            ));
            assert(data.subrange(23, 31) =~= spec_u64_to_le_bytes(p.codec_id.0));
        },
        AseState::QosConfigured(p) => {
            assert(data.len() == 17);
            assert(data[1] == 2);
            assert(data.subrange(4, 7) =~= spec_u24_to_le_bytes(p.sdu_interval));
            assert(data.subrange(9, 11) =~= spec_u16_to_le_bytes(p.max_sdu));
            assert(data.subrange(12, 14) =~= spec_u16_to_le_bytes(p.max_transport_latency));
            assert(data.subrange(14, 17) =~= spec_u24_to_le_bytes(p.presentation_delay));
            lemma_u24_round_trip(p.sdu_interval);
            lemma_u24_round_trip(p.presentation_delay);
        },
        AseState::Enabling(p) => {
            lemma_other_round_trip(a, p);
        },
        AseState::Streaming(p) => {
            lemma_other_round_trip(a, p);
        },
        AseState::Disabling(p) => {
            lemma_other_round_trip(a, p);
        },
        AseState::Releasing => {
            assert(data =~= seq![a.id, 6u8]);
        },
    }
}

proof fn lemma_other_round_trip(a: Ase, p: AseParamsOther)
    requires
        a.wf(),
        a.state == AseState::Enabling(p) || a.state == AseState::Streaming(p) || a.state
            == AseState::Disabling(p),
    ensures
        spec_ase_from_gatt(a.direction, spec_ase_as_gatt(a)) == Ok::<Ase, DecodeError>(a),
{
    lemma_auto_spec_u64_to_from_le_bytes();
    let data = spec_ase_as_gatt(a);
    assert(data.len() == 13);
    match p.metadata {
        None => {
            assert(data[4] == 0);
        },
        Some(m) => {
            assert(data[4] == 1);
            assert(data.subrange(5, 13) =~= spec_u64_to_le_bytes(m));
        },
    }
}

/// Sixteen-bit UUID of the Audio Stream Control service.
pub const AUDIO_STREAM_CONTROL: u16 = 0x184E;

/// Sixteen-bit UUID of the Sink ASE characteristic.
pub const SINK_ASE: u16 = 0x2BC4;

/// Sixteen-bit UUID of the Source ASE characteristic.
pub const SOURCE_ASE: u16 = 0x2BC5;

/// Sixteen-bit UUID of the ASE Control Point characteristic.
pub const ASE_CONTROL_POINT: u16 = 0x2BC6;

/// Opcodes a client writes to the ASE Control Point. `Rfu` stands for
/// every reserved byte value.
#[derive(Debug, Clone, Copy, PartialEq, Eq, Structural)]
pub enum AseControlOpcode {
    ConfigCodec,
    ConfigQoS,
    Enable,
    ReceiverStartReady,
    Disable,
    ReceiverStopReady,
    UpdateMetadata,
    Release,
    Released,
    Rfu,
}

/// The one-byte wire form of a control-point opcode.
pub open spec fn spec_opcode_byte(op: AseControlOpcode) -> u8 {
    match op {
        AseControlOpcode::ConfigCodec => 0x01,
        AseControlOpcode::ConfigQoS => 0x02,
        AseControlOpcode::Enable => 0x03,
        AseControlOpcode::ReceiverStartReady => 0x04,
        AseControlOpcode::Disable => 0x05,
        AseControlOpcode::ReceiverStopReady => 0x06,
        AseControlOpcode::UpdateMetadata => 0x07,
        AseControlOpcode::Release => 0x08,
        AseControlOpcode::Released => 0x09,
        AseControlOpcode::Rfu => 0xFF,
    }
}

/// The opcode a byte decodes to; every byte outside the nine defined
/// opcodes is reserved.
pub open spec fn spec_opcode_from_byte(b: u8) -> AseControlOpcode {
    match b {
        0x01u8 => AseControlOpcode::ConfigCodec,
        0x02u8 => AseControlOpcode::ConfigQoS,
        0x03u8 => AseControlOpcode::Enable,
        0x04u8 => AseControlOpcode::ReceiverStartReady,
        0x05u8 => AseControlOpcode::Disable,
        0x06u8 => AseControlOpcode::ReceiverStopReady,
        0x07u8 => AseControlOpcode::UpdateMetadata,
        0x08u8 => AseControlOpcode::Release,
        0x09u8 => AseControlOpcode::Released,
        _ => AseControlOpcode::Rfu,
    }
}

/// The state-machine operation an opcode requests; a reserved opcode
/// requests none.
pub open spec fn spec_opcode_operation(op: AseControlOpcode) -> Option<AseControlOperation> {
    match op {
        AseControlOpcode::ConfigCodec => Some(AseControlOperation::ConfigCodec),
        AseControlOpcode::ConfigQoS => Some(AseControlOperation::ConfigQos),
        AseControlOpcode::Enable => Some(AseControlOperation::Enable),
        AseControlOpcode::ReceiverStartReady => Some(AseControlOperation::ReceiverStartReady),
        AseControlOpcode::Disable => Some(AseControlOperation::Disable),
        AseControlOpcode::ReceiverStopReady => Some(AseControlOperation::ReceiverStopReady),
        AseControlOpcode::UpdateMetadata => Some(AseControlOperation::UpdateMetadata),
        AseControlOpcode::Release => Some(AseControlOperation::Release),
        AseControlOpcode::Released => Some(AseControlOperation::Released),
        AseControlOpcode::Rfu => None,
    }
}

impl AseControlOpcode {
    /// Encode as the single opcode byte.
    pub fn as_gatt(&self) -> (r: Vec<u8>)
        ensures
            r@ == seq![spec_opcode_byte(*self)],
    {
        let mut out: Vec<u8> = Vec::new();
        let b: u8 = match self {
            AseControlOpcode::ConfigCodec => 0x01,
            AseControlOpcode::ConfigQoS => 0x02,
            AseControlOpcode::Enable => 0x03,
            AseControlOpcode::ReceiverStartReady => 0x04,
            AseControlOpcode::Disable => 0x05,
            AseControlOpcode::ReceiverStopReady => 0x06,
            AseControlOpcode::UpdateMetadata => 0x07,
            AseControlOpcode::Release => 0x08,
            AseControlOpcode::Released => 0x09,
            AseControlOpcode::Rfu => 0xFF,
        };
        out.push(b);
        proof {
            assert(out@ =~= seq![spec_opcode_byte(*self)]);
        }
        out
    }

    /// Decode from a wire buffer: exactly one byte, any other length
    /// is `InvalidLength`; a reserved byte decodes to `Rfu`, never to
    /// an error.
    pub fn from_gatt(data: &[u8]) -> (r: Result<AseControlOpcode, DecodeError>)
        ensures
            data@.len() != 1 ==> r == Err::<AseControlOpcode, DecodeError>(
                DecodeError::InvalidLength,
            ),
            data@.len() == 1 ==> r == Ok::<AseControlOpcode, DecodeError>(
                spec_opcode_from_byte(data@[0]),
            ),
    {
        if data.len() != 1 {
            Err(DecodeError::InvalidLength)
        } else {
            Ok(Self::of_byte(*vstd::slice::slice_index_get(data, 0)))
        }
    }

    fn of_byte(b: u8) -> (r: AseControlOpcode)
        ensures
            r == spec_opcode_from_byte(b),
    {
        match b {
            0x01 => AseControlOpcode::ConfigCodec,
            0x02 => AseControlOpcode::ConfigQoS,
            0x03 => AseControlOpcode::Enable,
            0x04 => AseControlOpcode::ReceiverStartReady,
            0x05 => AseControlOpcode::Disable,
            0x06 => AseControlOpcode::ReceiverStopReady,
            0x07 => AseControlOpcode::UpdateMetadata,
            0x08 => AseControlOpcode::Release,
            0x09 => AseControlOpcode::Released,
            _ => AseControlOpcode::Rfu,
        }
    }

    /// The state-machine operation this opcode requests.
    pub fn as_operation(&self) -> (r: Option<AseControlOperation>)
        ensures
            r == spec_opcode_operation(*self),
    {
        match self {
            AseControlOpcode::ConfigCodec => Some(AseControlOperation::ConfigCodec),
            AseControlOpcode::ConfigQoS => Some(AseControlOperation::ConfigQos),
            AseControlOpcode::Enable => Some(AseControlOperation::Enable),
            AseControlOpcode::ReceiverStartReady => Some(AseControlOperation::ReceiverStartReady),
            AseControlOpcode::Disable => Some(AseControlOperation::Disable),
            AseControlOpcode::ReceiverStopReady => Some(AseControlOperation::ReceiverStopReady),
            AseControlOpcode::UpdateMetadata => Some(AseControlOperation::UpdateMetadata),
            AseControlOpcode::Release => Some(AseControlOperation::Release),
            AseControlOpcode::Released => Some(AseControlOperation::Released),
            AseControlOpcode::Rfu => None,
        }
    }
}

/// One published ASE characteristic: the attribute handle it answers
/// to, and the endpoint value it stores.
#[derive(Debug, Clone, Copy, PartialEq)]
pub struct AseCharacteristic {
    pub handle: u16,
    pub ase: Ase,
}

/// The attributes the ASCS service occupies for `n` endpoints with `m`
/// connection slots each: the service declaration, the control point,
/// and one characteristic per endpoint and slot.
pub open spec fn spec_ascs_attribute_count(n: int, m: int) -> int {
    1 + 2 + 2 * (n * m)
}

/// The Audio Stream Control service: the ASE Control Point that
/// clients drive the state machines through, and one characteristic
/// per endpoint and connection slot that publishes the endpoint's
/// encoded state.
#[derive(Debug, Clone, PartialEq)]
pub struct AscsServer {
    /// Handle of the ASE Control Point characteristic.
    pub control_point_handle: u16,
    /// The published endpoints, one per endpoint and connection slot;
    /// the slots of endpoint `i` are consecutive.
    pub ases: Vec<AseCharacteristic>,
}

impl AscsServer {
    /// Register the service in the attribute table: the service
    /// declaration, the control point, then `max_connections` ASE
    /// characteristics for each endpoint, sink or source per the
    /// endpoint's direction — so every registered endpoint must be a
    /// sink or a source. Fails, leaving the table unchanged, if and
    /// only if the table cannot hold them all.
    pub fn new(table: &mut AttributeTable, ases: Vec<Ase>, max_connections: usize) -> (r: Result<
        AscsServer,
        BuildError,
    >)
        requires
            old(table).wf(),
            forall|j: int| 0 <= j < ases@.len() ==> !((#[trigger] ases@[j]).direction is All),
        ensures
            final(table).capacity == old(table).capacity,
            final(table).wf(),
            r is Ok <==> old(table).attributes@.len() + spec_ascs_attribute_count(
                ases@.len() as int,
                max_connections as int,
            ) <= old(table).capacity,
            r matches Ok(s) ==> {
                &&& s.control_point_handle == old(table).attributes@.len() + 3
                &&& s.ases@.len() == ases@.len() * max_connections
                &&& forall|k: int|
                    0 <= k < s.ases@.len() ==> (#[trigger] s.ases@[k]).ase == ases@[
                        k / (max_connections as int)
                    ]
                &&& forall|k: int|
                    0 <= k < s.ases@.len() ==> (#[trigger] s.ases@[k]).handle == old(
                        table,
                    ).attributes@.len() + 5 + 2 * k
                &&& final(table).attributes@.len() == old(table).attributes@.len()
                    + spec_ascs_attribute_count(ases@.len() as int, max_connections as int)
            },
            r is Err ==> *final(table) == *old(table) && r == Err::<AscsServer, BuildError>(
                BuildError::CapacityExceeded,
            ),
    {
        let n = ases.len();
        let ghost prod = (n as int) * (max_connections as int);
        proof {
            assert(usize::MAX as int >= 0xFFFE);
        }
        let total: usize = match n.checked_mul(max_connections) {
            Some(t) => t,
            None => {
                return Err(BuildError::CapacityExceeded);
            },
        };
        let slots_attrs: usize = match total.checked_mul(2) {
            Some(t) => t,
            None => {
                return Err(BuildError::CapacityExceeded);
            },
        };
        let needed: usize = match slots_attrs.checked_add(3) {
            Some(t) => t,
            None => {
                return Err(BuildError::CapacityExceeded);
            },
        };
        if needed > table.capacity - table.attributes.len() {
            return Err(BuildError::CapacityExceeded);
        }
        let ghost base = table.attributes@.len() as int;
        let _service_handle = match table.add_service(AUDIO_STREAM_CONTROL) {
            Ok(h) => h,
            Err(e) => {
                proof {
                    assert(false);
                }
                return Err(e);
            },
        };
        let control_point_handle = match table.add_characteristic(ASE_CONTROL_POINT) {
            Ok(h) => h,
            Err(e) => {
                proof {
                    assert(false);
                }
                return Err(e);
            },
        };
        let mut slots: Vec<AseCharacteristic> = Vec::new();
        for k in 0..total
            invariant
                total == n * max_connections,
                n == ases@.len(),
                forall|j: int| 0 <= j < ases@.len() ==> !((#[trigger] ases@[j]).direction is All),
                table.wf(),
                table.capacity == old(table).capacity,
                table.attributes@.len() == base + 3 + 2 * k,
                base + 3 + 2 * total <= table.capacity,
                control_point_handle == base + 3,
                slots@.len() == k,
                forall|j: int|
                    0 <= j < k ==> (#[trigger] slots@[j]).ase == ases@[j / (
                    max_connections as int)],
                forall|j: int| 0 <= j < k ==> (#[trigger] slots@[j]).handle == base + 5 + 2 * j,
        {
            proof {
                assert(0 < max_connections && k / max_connections < n) by (nonlinear_arith)
                    requires
                        0 <= k < n * max_connections,
                ;
            }
            let ase = ases[k / max_connections];
            let uuid = match ase.direction {
                AseType::Sink => SINK_ASE,
                AseType::Source => SOURCE_ASE,
                AseType::All => {
                    // Unreachable: every registered endpoint is a sink
                    // or a source.
                    proof {
                        assert(!(ases@[(k / max_connections) as int].direction is All));
                        assert(false);
                    }
                    SINK_ASE
                },
            };
            let h = match table.add_characteristic(uuid) {
                Ok(h) => h,
                Err(e) => {
                    proof {
                        assert(false);
                    }
                    return Err(e);
                },
            };
            slots.push(AseCharacteristic { handle: h, ase });
        }
        Ok(AscsServer { control_point_handle, ases: slots })
    }

    /// Whether some published ASE characteristic answers to the handle.
    pub open spec fn spec_owns_slot(self, handle: u16) -> bool {
        exists|k: int| 0 <= k < self.ases@.len() && (#[trigger] self.ases@[k]).handle == handle
    }

    /// Whether some endpoint carries the addressed id.
    pub open spec fn spec_has_ase(self, id: u8) -> bool {
        exists|k: int| 0 <= k < self.ases@.len() && (#[trigger] self.ases@[k]).ase.id == id
    }

    /// The slot `k` after a write event is handled: a control-point
    /// write of a defined opcode steps every slot whose endpoint id is
    /// addressed, with the client as initiator and the endpoint's own
    /// direction; every other slot, and every slot on any other write,
    /// stays as it was.
    pub open spec fn spec_slot_after_write(self, handle: u16, data: Seq<u8>, k: int)
        -> AseCharacteristic
        recommends
            0 <= k < self.ases@.len(),
    {
        let slot = self.ases@[k];
        if handle == self.control_point_handle && data.len() >= 2 {
            match spec_opcode_operation(spec_opcode_from_byte(data[0])) {
                Some(op) => if slot.ase.id == data[1] {
                    AseCharacteristic {
                        handle: slot.handle,
                        ase: Ase {
                            id: slot.ase.id,
                            direction: slot.ase.direction,
                            state: slot.ase.state.spec_transition(
                                op,
                                InitiatingDevice::Client,
                                slot.ase.direction,
                            ),
                        },
                    }
                } else {
                    slot
                },
                None => slot,
            }
        } else {
            slot
        }
    }

    /// Answer a write and step the addressed endpoints, exactly as
    /// [`LeAudioServerService::spec_write_response`] and
    /// [`AscsServer::spec_slot_after_write`] say. A control-point
    /// write must hold at least an opcode and an endpoint id
    /// (`InvalidLength` otherwise); a reserved opcode or an unknown
    /// endpoint id is rejected as `WriteRequestRejected`; writes to
    /// the read-only ASE characteristics are always rejected.
    pub fn write_response(&mut self, handle: u16, data: &[u8]) -> (r: Option<
        Result<(), AttErrorCode>,
    >)
        ensures
            r == old(self).spec_write_response(handle, data@),
            final(self).control_point_handle == old(self).control_point_handle,
            final(self).ases@.len() == old(self).ases@.len(),
            forall|k: int|
                0 <= k < old(self).ases@.len() ==> final(self).ases@[k] == old(
                    self,
                ).spec_slot_after_write(handle, data@, k),
    {
        if handle == self.control_point_handle {
            if data.len() < 2 {
                return Some(Err(AttErrorCode::InvalidLength));
            }
            let opcode = AseControlOpcode::of_byte(*vstd::slice::slice_index_get(data, 0));
            let op = match opcode.as_operation() {
                None => {
                    return Some(Err(AttErrorCode::WriteRequestRejected));
                },
                Some(op) => op,
            };
            let id = *vstd::slice::slice_index_get(data, 1);
            let mut found = false;
            let n = self.ases.len();
            for k in 0..n
                invariant
                    n == old(self).ases@.len(),
                    self.ases@.len() == n,
                    self.control_point_handle == old(self).control_point_handle,
                    handle == old(self).control_point_handle,
                    data@.len() >= 2,
                    Some(op) == spec_opcode_operation(spec_opcode_from_byte(data@[0])),
                    id == data@[1],
                    forall|j: int|
                        0 <= j < k ==> self.ases@[j] == old(self).spec_slot_after_write(
                            handle,
                            data@,
                            j,
                        ),
                    forall|j: int| k <= j < n ==> self.ases@[j] == old(self).ases@[j],
                    found <==> exists|j: int|
                        0 <= j < k && (#[trigger] old(self).ases@[j]).ase.id == id,
            {
                let slot = self.ases[k];
                if slot.ase.id == id {
                    found = true;
                    let state = slot.ase.state.transition(
                        op,
                        InitiatingDevice::Client,
                        slot.ase.direction,
                    );
                    self.ases[k] = AseCharacteristic {
                        handle: slot.handle,
                        ase: Ase { id: slot.ase.id, direction: slot.ase.direction, state },
                    };
                }
            }
            if found {
                Some(Ok(()))
            } else {
                Some(Err(AttErrorCode::WriteRequestRejected))
            }
        } else {
            let n = self.ases.len();
            for k in 0..n
                invariant
                    n == self.ases@.len(),
                    *self == *old(self),
                    handle != self.control_point_handle,
                    forall|j: int| 0 <= j < k ==> (#[trigger] self.ases@[j]).handle != handle,
            {
                if self.ases[k].handle == handle {
                    return Some(Err(AttErrorCode::WriteRequestRejected));
                }
            }
            None
        }
    }
}

impl LeAudioServerService for AscsServer {
    /// A read of the control point is refused; a read of a published
    /// ASE characteristic succeeds (it reports the encoded state);
    /// any other handle is not this service's.
    open spec fn spec_read_response(&self, handle: u16) -> Option<Result<(), AttErrorCode>> {
        if handle == self.control_point_handle {
            Some(Err(AttErrorCode::WriteRequestRejected))
        } else if self.spec_owns_slot(handle) {
            Some(Ok(()))
        } else {
            None
        }
    }

    /// A control-point write without opcode and endpoint id is
    /// `InvalidLength`; one with a reserved opcode or an endpoint id
    /// no endpoint carries is rejected; one addressing a known
    /// endpoint is accepted (and steps that endpoint's machine).
    /// Writes to ASE characteristics are rejected; any other handle is
    /// not this service's.
    open spec fn spec_write_response(&self, handle: u16, data: Seq<u8>) -> Option<
        Result<(), AttErrorCode>,
    > {
        if handle == self.control_point_handle {
            if data.len() < 2 {
                Some(Err(AttErrorCode::InvalidLength))
            } else {
                match spec_opcode_operation(spec_opcode_from_byte(data[0])) {
                    None => Some(Err(AttErrorCode::WriteRequestRejected)),
                    Some(op) => if self.spec_has_ase(data[1]) {
                        Some(Ok(()))
                    } else {
                        Some(Err(AttErrorCode::WriteRequestRejected))
                    },
                }
            }
        } else if self.spec_owns_slot(handle) {
            Some(Err(AttErrorCode::WriteRequestRejected))
        } else {
            None
        }
    }

    fn handle_read_event(&self, event: &ReadEvent) -> (r: Option<Result<(), AttErrorCode>>) {
        if event.handle == self.control_point_handle {
            return Some(Err(AttErrorCode::WriteRequestRejected));
        }
        let n = self.ases.len();
        for k in 0..n
            invariant
                n == self.ases@.len(),
                event.handle != self.control_point_handle,
                forall|j: int| 0 <= j < k ==> (#[trigger] self.ases@[j]).handle != event.handle,
        {
            if self.ases[k].handle == event.handle {
                return Some(Ok(()));
            }
        }
        None
    }

    fn handle_write_event(&mut self, event: &WriteEvent) -> (r: Option<Result<(), AttErrorCode>>)
        ensures
            final(self).control_point_handle == old(self).control_point_handle,
            final(self).ases@.len() == old(self).ases@.len(),
            forall|k: int|
                0 <= k < old(self).ases@.len() ==> final(self).ases@[k] == old(
                    self,
                ).spec_slot_after_write(event.handle, event.data@, k),
    {
        self.write_response(event.handle, event.data.as_slice())
    }
}

} // verus!
