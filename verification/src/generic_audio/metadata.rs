//! Metadata entries carried in PAC records and stream configurations,
//! each keyed by a one-byte type tag.
use vstd::bytes::*;
use vstd::prelude::*;
use vstd::string::StringSliceAdditionalSpecFns;

use super::ContextType;
use crate::ContentControlID;

verus! {

/// One metadata entry, keyed on the wire by a one-byte type tag (see
/// [`Metadata::as_type`]). A PAC record carries at most thirteen of
/// these.
#[derive(Debug, Clone, Copy, PartialEq)]
pub enum Metadata {
    PreferredAudioContexts(ContextType),
    StreamingAudioContexts(ContextType),
    /// Title and/or summary of the stream content, UTF-8.
    ProgramInfo(&'static str),
    /// Three-byte, lower-case language code as defined in ISO 639-3.
    Language([u8; 3]),
    CCIDList(&'static [ContentControlID]),
    ParentalRating(ParentalRating),
    ProgramInfoURI(&'static str),
    ExtendedMetadata(),
    VenderSpecific(),
}

impl Metadata {
    pub open spec fn spec_as_type(self) -> u8 {
        match self {
            Metadata::PreferredAudioContexts(_) => 1,
            Metadata::StreamingAudioContexts(_) => 2,
            Metadata::ProgramInfo(_) => 3,
            Metadata::Language(_) => 4,
            Metadata::CCIDList(_) => 5,
            Metadata::ParentalRating(_) => 6,
            Metadata::ProgramInfoURI(_) => 7,
            Metadata::ExtendedMetadata() => 8,
            Metadata::VenderSpecific() => 9,
        }
    }

    /// The one-byte type tag that keys this entry on the wire.
    pub fn as_type(&self) -> (r: u8)
        ensures
            r == self.spec_as_type(),
    {
        match self {
            Metadata::PreferredAudioContexts(_) => 1,
            Metadata::StreamingAudioContexts(_) => 2,
            Metadata::ProgramInfo(_) => 3,
            Metadata::Language(_) => 4,
            Metadata::CCIDList(_) => 5,
            Metadata::ParentalRating(_) => 6,
            Metadata::ProgramInfoURI(_) => 7,
            Metadata::ExtendedMetadata() => 8,
            Metadata::VenderSpecific() => 9,
        }
    }
}

/// Recommended minimum listener age for the stream content.
#[derive(Debug, Clone, Copy, PartialEq, Eq, Structural)]
pub enum ParentalRating {
    NoRating,
    AnyAge,
    Age5orOlder,
    Age6orOlder,
    Age7orOlder,
    Age8orOlder,
    Age9orOlder,
    Age10orOlder,
    Age11orOlder,
    Age12orOlder,
    Age13orOlder,
    Age14orOlder,
    Age15orOlder,
    Age16orOlder,
    Age17orOlder,
    Age18orOlder,
    Undefined,
}

impl ParentalRating {
    pub open spec fn spec_from_u8(value: u8) -> ParentalRating {
        match value {
            0x00u8 => ParentalRating::NoRating,
            0x01u8 => ParentalRating::AnyAge,
            0x02u8 => ParentalRating::Age5orOlder,
            0x03u8 => ParentalRating::Age6orOlder,
            0x04u8 => ParentalRating::Age7orOlder,
            0x05u8 => ParentalRating::Age8orOlder,
            0x06u8 => ParentalRating::Age9orOlder,
            0x07u8 => ParentalRating::Age10orOlder,
            0x08u8 => ParentalRating::Age11orOlder,
            0x09u8 => ParentalRating::Age12orOlder,
            0x0Au8 => ParentalRating::Age13orOlder,
            0x0Bu8 => ParentalRating::Age14orOlder,
            0x0Cu8 => ParentalRating::Age15orOlder,
            0x0Du8 => ParentalRating::Age16orOlder,
            0x0Eu8 => ParentalRating::Age17orOlder,
            0x0Fu8 => ParentalRating::Age18orOlder,
            _ => ParentalRating::Undefined,
        }
    }

    pub open spec fn spec_as_u8(self) -> u8 {
        match self {
            ParentalRating::NoRating => 0x00,
            ParentalRating::AnyAge => 0x01,
            ParentalRating::Age5orOlder => 0x02,
            ParentalRating::Age6orOlder => 0x03,
            ParentalRating::Age7orOlder => 0x04,
            ParentalRating::Age8orOlder => 0x05,
            ParentalRating::Age9orOlder => 0x06,
            ParentalRating::Age10orOlder => 0x07,
            ParentalRating::Age11orOlder => 0x08,
            ParentalRating::Age12orOlder => 0x09,
            ParentalRating::Age13orOlder => 0x0A,
            ParentalRating::Age14orOlder => 0x0B,
            ParentalRating::Age15orOlder => 0x0C,
            ParentalRating::Age16orOlder => 0x0D,
            ParentalRating::Age17orOlder => 0x0E,
            ParentalRating::Age18orOlder => 0x0F,
            ParentalRating::Undefined => 0x10,
        }
    }

    /// The one-byte wire value of this rating.
    pub fn as_u8(&self) -> (r: u8)
        ensures
            r == self.spec_as_u8(),
    {
        match self {
            ParentalRating::NoRating => 0x00,
            ParentalRating::AnyAge => 0x01,
            ParentalRating::Age5orOlder => 0x02,
            ParentalRating::Age6orOlder => 0x03,
            ParentalRating::Age7orOlder => 0x04,
            ParentalRating::Age8orOlder => 0x05,
            ParentalRating::Age9orOlder => 0x06,
            ParentalRating::Age10orOlder => 0x07,
            ParentalRating::Age11orOlder => 0x08,
            ParentalRating::Age12orOlder => 0x09,
            ParentalRating::Age13orOlder => 0x0A,
            ParentalRating::Age14orOlder => 0x0B,
            ParentalRating::Age15orOlder => 0x0C,
            ParentalRating::Age16orOlder => 0x0D,
            ParentalRating::Age17orOlder => 0x0E,
            ParentalRating::Age18orOlder => 0x0F,
            ParentalRating::Undefined => 0x10,
        }
    }
}

impl From<u8> for ParentalRating {
    /// Every defined wire value maps to its rating; anything above
    /// 0x0F is the `Undefined` sentinel.
    fn from(value: u8) -> (r: Self) {
        match value {
            0x00 => ParentalRating::NoRating,
            0x01 => ParentalRating::AnyAge,
            0x02 => ParentalRating::Age5orOlder,
            0x03 => ParentalRating::Age6orOlder,
            0x04 => ParentalRating::Age7orOlder,
            0x05 => ParentalRating::Age8orOlder,
            0x06 => ParentalRating::Age9orOlder,
            0x07 => ParentalRating::Age10orOlder,
            0x08 => ParentalRating::Age11orOlder,
            0x09 => ParentalRating::Age12orOlder,
            0x0A => ParentalRating::Age13orOlder,
            0x0B => ParentalRating::Age14orOlder,
            0x0C => ParentalRating::Age15orOlder,
            0x0D => ParentalRating::Age16orOlder,
            0x0E => ParentalRating::Age17orOlder,
            0x0F => ParentalRating::Age18orOlder,
            _ => ParentalRating::Undefined,
        }
    }
}

impl vstd::std_specs::convert::FromSpecImpl<u8> for ParentalRating {
    open spec fn obeys_from_spec() -> bool {
        true
    }

    open spec fn from_spec(value: u8) -> Self {
        ParentalRating::spec_from_u8(value)
    }
}

/// Extended metadata, a reserved tag under which no concrete type is
/// defined; the sentinel stands for any such entry.
#[derive(Debug, Clone, Copy, PartialEq, Eq, Structural)]
pub enum ExtendedMetadata {
    Undefined,
}

impl ExtendedMetadata {
    /// The one-byte type tag; no extended type is defined yet, so
    /// every value answers zero.
    pub fn as_type(&self) -> (r: u8)
        ensures
            r == 0,
    {
        0
    }
}

/// A vendor-specific metadata blob; the profile leaves its content to
/// the vendor.
#[derive(Debug, Clone, Copy, PartialEq, Eq, Structural)]
pub struct VenderSpecific {}

/// The value bytes of a metadata entry, without the length and type
/// prefix.
pub open spec fn spec_metadata_value(m: Metadata) -> Seq<u8> {
    match m {
        Metadata::PreferredAudioContexts(c) => spec_u16_to_le_bytes(c->bits),
        Metadata::StreamingAudioContexts(c) => spec_u16_to_le_bytes(c->bits),
        Metadata::ProgramInfo(s) => s.spec_bytes(),
        Metadata::Language(code) => code@,
        Metadata::CCIDList(l) => l@,
        Metadata::ParentalRating(p) => seq![p.spec_as_u8()],
        Metadata::ProgramInfoURI(s) => s.spec_bytes(),
        Metadata::ExtendedMetadata() => Seq::empty(),
        Metadata::VenderSpecific() => Seq::empty(),
    }
}

/// A metadata entry with an encodable wire form: its length fits the
/// one-byte length field (which also counts the type byte), and a
/// context mask is a defined mask, not the sentinel.
pub open spec fn spec_metadata_wf(m: Metadata) -> bool {
    match m {
        Metadata::PreferredAudioContexts(c) => c is Contexts,
        Metadata::StreamingAudioContexts(c) => c is Contexts,
        Metadata::ProgramInfo(s) => s.spec_bytes().len() <= 254,
        Metadata::CCIDList(l) => l@.len() <= 254,
        Metadata::ProgramInfoURI(s) => s.spec_bytes().len() <= 254,
        _ => true,
    }
}

/// The length-type-value wire form of a metadata entry: a length byte
/// counting the type byte and the value, the type tag, then the value.
pub open spec fn spec_metadata_ltv(m: Metadata) -> Seq<u8> {
    seq![(spec_metadata_value(m).len() + 1) as u8, m.spec_as_type()] + spec_metadata_value(m)
}

impl Metadata {
    /// Encode as one length-type-value record.
    pub fn as_ltv(&self) -> (r: Vec<u8>)
        requires
            spec_metadata_wf(*self),
        ensures
            r@ == spec_metadata_ltv(*self),
    {
        let mut out: Vec<u8> = Vec::new();
        match self {
            Metadata::PreferredAudioContexts(c) => {
                out.push(3);
                out.push(1);
                let mut value = c.as_gatt();
                out.append(&mut value);
                proof {
                    lemma_auto_spec_u16_to_from_le_bytes();
                    assert(out@ =~= spec_metadata_ltv(*self));
                }
            },
            Metadata::StreamingAudioContexts(c) => {
                out.push(3);
                out.push(2);
                let mut value = c.as_gatt();
                out.append(&mut value);
                proof {
                    lemma_auto_spec_u16_to_from_le_bytes();
                    assert(out@ =~= spec_metadata_ltv(*self));
                }
            },
            Metadata::ProgramInfo(s) => {
                out.push((s.len() + 1) as u8);
                out.push(3);
                out.extend_from_slice(s.as_bytes());
                proof {
                    assert(out@ =~= spec_metadata_ltv(*self));
                }
            },
            Metadata::Language(code) => {
                out.push(4);
                out.push(4);
                out.push(code[0]);
                out.push(code[1]);
                out.push(code[2]);
                proof {
                    assert(out@ =~= spec_metadata_ltv(*self));
                }
            },
            Metadata::CCIDList(l) => {
                out.push((l.len() + 1) as u8);
                out.push(5);
                out.extend_from_slice(l);
                proof {
                    assert(out@ =~= spec_metadata_ltv(*self));
                }
            },
            Metadata::ParentalRating(p) => {
                out.push(2);
                out.push(6);
                out.push(p.as_u8());
                proof {
                    assert(out@ =~= spec_metadata_ltv(*self));
                }
            },
            Metadata::ProgramInfoURI(s) => {
                out.push((s.len() + 1) as u8);
                out.push(7);
                out.extend_from_slice(s.as_bytes());
                proof {
                    assert(out@ =~= spec_metadata_ltv(*self));
                }
            },
            Metadata::ExtendedMetadata() => {
                out.push(1);
                out.push(8);
                proof {
                    assert(out@ =~= spec_metadata_ltv(*self));
                }
            },
            Metadata::VenderSpecific() => {
                out.push(1);
                out.push(9);
                proof {
                    assert(out@ =~= spec_metadata_ltv(*self));
                }
            },
        }
        out
    }
}

} // verus!
