//! Data model, wire encoding and control-flow state machine for the
//! Bluetooth LE Audio profile layer: the Published Audio Capabilities
//! (PACS) model and the Audio Stream Endpoint (ASE) control protocol,
//! exposed as attributes of a GATT server.
//!
//! The transport (advertising, connections, attribute delivery) is a
//! collaborator outside this crate; it hands in read and write requests
//! as plain values and carries the answers back.
use vstd::prelude::*;

pub mod ascs;
mod client;
pub mod generic_audio;
pub mod pacs;
mod server;

pub use client::LeAudioClientService;
pub use server::Attribute;
pub use server::APPEARANCE;
pub use server::CHARACTERISTIC_DECLARATION;
pub use server::DEVICE_NAME;
pub use server::GAP_SERVICE;
pub use server::GATT_SERVICE;
pub use server::AttributeTable;
pub use server::BuildError;
pub use server::EventResponse;
pub use server::GattEvent;
pub use server::LeAudioServerService;
pub use server::ReadEvent;
pub use server::Server;
pub use server::ServerBuilder;
pub use server::WriteEvent;
pub use server::BASE_ATTRIBUTES;
pub use server::MAX_SERVICES;
pub use server::PACS_ATTRIBUTES;

verus! {

/// Identifier of a content-control service instance, carried in metadata.
pub type ContentControlID = u8;

/// Codec identifier: coding format, company id and vendor-specific id
/// packed into one value. The default is LC3 (coding format 0x0D).
#[derive(Debug, Clone, Copy, PartialEq, Eq, Structural)]
pub struct CodecId(pub u64);

impl Default for CodecId {
    /// The LC3 codec id.
    fn default() -> (r: Self)
        ensures
            r == CodecId(0x0Du64),
    {
        CodecId(0x0D)
    }
}

/// Failure of a wire decode: the buffer has the wrong length, or its
/// content does not denote any value of the target type.
#[derive(Debug, Clone, Copy, PartialEq, Eq, Structural)]
pub enum DecodeError {
    InvalidLength,
    InvalidValue,
}

/// Attribute-protocol error codes with which this layer answers a
/// request it does not accept.
#[derive(Debug, Clone, Copy, PartialEq, Eq, Structural)]
pub enum AttErrorCode {
    InvalidLength,
    WriteRequestRejected,
    WriteNotPermitted,
    InvalidHandle,
}

} // verus!
