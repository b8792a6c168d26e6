// SPDX-License-Identifier: MIT

//! The types of management frames.

use vstd::prelude::*;

use crate::attr::NL80211_ATTR_FRAME_TYPE;
use crate::bytes::{decode_u16, push_u16};
use crate::codec::{
    all_canonical, all_lossless, emit_list, lemma_records_of_conform, list_encoded_len,
    list_len, parse_list, records_of, Nl80211Nla,
};
use crate::error::Nl80211ErrorKind;
use crate::iface::Nl80211InterfaceType;
use crate::nla::NLA_TYPE_MASK;
use crate::schema::Namespace;
use crate::wire::Value;

verus! {

pub const IEEE80211_STYPE_ASSOC_REQUEST: u16 = 0x00;
pub const IEEE80211_STYPE_ASSOC_RESPONSE: u16 = 0x10;
pub const IEEE80211_STYPE_REASSOC_REQUEST: u16 = 0x20;
pub const IEEE80211_STYPE_REASSOC_RESPONSE: u16 = 0x30;
pub const IEEE80211_STYPE_PROBE_REQUEST: u16 = 0x40;
pub const IEEE80211_STYPE_PROBE_RESPONSE: u16 = 0x50;
pub const IEEE80211_STYPE_TIMING_ADVERTISEMENT: u16 = 0x60;
pub const IEEE80211_STYPE_BEACON: u16 = 0x80;
pub const IEEE80211_STYPE_ATIM: u16 = 0x90;
pub const IEEE80211_STYPE_DISASSOC: u16 = 0xA0;
pub const IEEE80211_STYPE_AUTH: u16 = 0xB0;
pub const IEEE80211_STYPE_DEAUTH: u16 = 0xC0;
pub const IEEE80211_STYPE_ACTION: u16 = 0xD0;
pub const IEEE80211_STYPE_ACTION_NO_ACK: u16 = 0xE0;

/// The type and subtype of a management frame, as the frame control field holds them.
#[derive(Debug, PartialEq, Eq, Clone, Copy)]
pub enum Nl80211FrameType {
    AssocRequest,
    AssocResponse,
    ReassocRequest,
    ReassocResponse,
    ProbeRequest,
    ProbeResponse,
    TimingAdvertisement,
    Beacon,
    Atim,
    Disassoc,
    Auth,
    Deauth,
    Action,
    ActionNoAck,
    /// A number without a name
    Other(u16),
}

impl Nl80211FrameType {
    /// The value that a number stands for.
    pub open spec fn spec_from_u16(d: u16) -> Nl80211FrameType {
        match d {
            IEEE80211_STYPE_ASSOC_REQUEST => Nl80211FrameType::AssocRequest,
            IEEE80211_STYPE_ASSOC_RESPONSE => Nl80211FrameType::AssocResponse,
            IEEE80211_STYPE_REASSOC_REQUEST => Nl80211FrameType::ReassocRequest,
            IEEE80211_STYPE_REASSOC_RESPONSE => Nl80211FrameType::ReassocResponse,
            IEEE80211_STYPE_PROBE_REQUEST => Nl80211FrameType::ProbeRequest,
            IEEE80211_STYPE_PROBE_RESPONSE => Nl80211FrameType::ProbeResponse,
            IEEE80211_STYPE_TIMING_ADVERTISEMENT => Nl80211FrameType::TimingAdvertisement,
            IEEE80211_STYPE_BEACON => Nl80211FrameType::Beacon,
            IEEE80211_STYPE_ATIM => Nl80211FrameType::Atim,
            IEEE80211_STYPE_DISASSOC => Nl80211FrameType::Disassoc,
            IEEE80211_STYPE_AUTH => Nl80211FrameType::Auth,
            IEEE80211_STYPE_DEAUTH => Nl80211FrameType::Deauth,
            IEEE80211_STYPE_ACTION => Nl80211FrameType::Action,
            IEEE80211_STYPE_ACTION_NO_ACK => Nl80211FrameType::ActionNoAck,
            _ => Nl80211FrameType::Other(d),
        }
    }

    /// The number that stands for a value.
    pub open spec fn spec_to_u16(self) -> u16 {
        match self {
            Nl80211FrameType::AssocRequest => IEEE80211_STYPE_ASSOC_REQUEST,
            Nl80211FrameType::AssocResponse => IEEE80211_STYPE_ASSOC_RESPONSE,
            Nl80211FrameType::ReassocRequest => IEEE80211_STYPE_REASSOC_REQUEST,
            Nl80211FrameType::ReassocResponse => IEEE80211_STYPE_REASSOC_RESPONSE,
            Nl80211FrameType::ProbeRequest => IEEE80211_STYPE_PROBE_REQUEST,
            Nl80211FrameType::ProbeResponse => IEEE80211_STYPE_PROBE_RESPONSE,
            Nl80211FrameType::TimingAdvertisement => IEEE80211_STYPE_TIMING_ADVERTISEMENT,
            Nl80211FrameType::Beacon => IEEE80211_STYPE_BEACON,
            Nl80211FrameType::Atim => IEEE80211_STYPE_ATIM,
            Nl80211FrameType::Disassoc => IEEE80211_STYPE_DISASSOC,
            Nl80211FrameType::Auth => IEEE80211_STYPE_AUTH,
            Nl80211FrameType::Deauth => IEEE80211_STYPE_DEAUTH,
            Nl80211FrameType::Action => IEEE80211_STYPE_ACTION,
            Nl80211FrameType::ActionNoAck => IEEE80211_STYPE_ACTION_NO_ACK,
            Nl80211FrameType::Other(d) => d,
        }
    }

    /// Whether the value is the one that its number is read as: a number
    /// that has a name does not stand in `Other`.
    pub open spec fn canonical(self) -> bool {
        Nl80211FrameType::spec_from_u16(self.spec_to_u16()) == self
    }

    /// Every number stands for a value in canonical form, and that value
    /// stands for the number.
    pub proof fn lemma_from_to(d: u16)
        ensures
            Nl80211FrameType::spec_from_u16(d).spec_to_u16() == d,
            Nl80211FrameType::spec_from_u16(d).canonical(),
    {
    }

    /// The value that a number stands for.
    pub fn from_u16(d: u16) -> (r: Self)
        ensures
            r == Nl80211FrameType::spec_from_u16(d),
    {
        match d {
            IEEE80211_STYPE_ASSOC_REQUEST => Self::AssocRequest,
            IEEE80211_STYPE_ASSOC_RESPONSE => Self::AssocResponse,
            IEEE80211_STYPE_REASSOC_REQUEST => Self::ReassocRequest,
            IEEE80211_STYPE_REASSOC_RESPONSE => Self::ReassocResponse,
            IEEE80211_STYPE_PROBE_REQUEST => Self::ProbeRequest,
            IEEE80211_STYPE_PROBE_RESPONSE => Self::ProbeResponse,
            IEEE80211_STYPE_TIMING_ADVERTISEMENT => Self::TimingAdvertisement,
            IEEE80211_STYPE_BEACON => Self::Beacon,
            IEEE80211_STYPE_ATIM => Self::Atim,
            IEEE80211_STYPE_DISASSOC => Self::Disassoc,
            IEEE80211_STYPE_AUTH => Self::Auth,
            IEEE80211_STYPE_DEAUTH => Self::Deauth,
            IEEE80211_STYPE_ACTION => Self::Action,
            IEEE80211_STYPE_ACTION_NO_ACK => Self::ActionNoAck,
            _ => Self::Other(d),
        }
    }

    /// The number that stands for the value.
    pub fn to_u16(self) -> (r: u16)
        ensures
            r == self.spec_to_u16(),
    {
        match self {
            Nl80211FrameType::AssocRequest => IEEE80211_STYPE_ASSOC_REQUEST,
            Nl80211FrameType::AssocResponse => IEEE80211_STYPE_ASSOC_RESPONSE,
            Nl80211FrameType::ReassocRequest => IEEE80211_STYPE_REASSOC_REQUEST,
            Nl80211FrameType::ReassocResponse => IEEE80211_STYPE_REASSOC_RESPONSE,
            Nl80211FrameType::ProbeRequest => IEEE80211_STYPE_PROBE_REQUEST,
            Nl80211FrameType::ProbeResponse => IEEE80211_STYPE_PROBE_RESPONSE,
            Nl80211FrameType::TimingAdvertisement => IEEE80211_STYPE_TIMING_ADVERTISEMENT,
            Nl80211FrameType::Beacon => IEEE80211_STYPE_BEACON,
            Nl80211FrameType::Atim => IEEE80211_STYPE_ATIM,
            Nl80211FrameType::Disassoc => IEEE80211_STYPE_DISASSOC,
            Nl80211FrameType::Auth => IEEE80211_STYPE_AUTH,
            Nl80211FrameType::Deauth => IEEE80211_STYPE_DEAUTH,
            Nl80211FrameType::Action => IEEE80211_STYPE_ACTION,
            Nl80211FrameType::ActionNoAck => IEEE80211_STYPE_ACTION_NO_ACK,
            Nl80211FrameType::Other(d) => d,
        }
    }
}

impl Nl80211FrameType {
    /// Number of bytes of a frame type.
    pub const LENGTH: usize = 2;

    /// Appends the two bytes of the frame type to `out`.
    pub fn emit(&self, out: &mut Vec<u8>)
        ensures
            final(out)@ == old(out)@ + crate::bytes::host_u16_bytes(self.spec_to_u16()),
    {
        push_u16(out, self.to_u16());
    }
}

/// In the list of the frame types of an interface type each record has the
/// kind of the frame type attribute, whatever its type field says, and holds
/// one frame type.
impl Nl80211Nla for Nl80211FrameType {
    open spec fn namespace() -> Namespace {
        Namespace::FrameTypes
    }

    open spec fn spec_kind(&self, index: nat) -> u16 {
        NL80211_ATTR_FRAME_TYPE
    }

    open spec fn spec_value(&self) -> Value {
        Value::U16(self.spec_to_u16())
    }

    open spec fn canonical(&self, index: nat) -> bool {
        Nl80211FrameType::canonical(*self)
    }

    open spec fn lossless(&self) -> bool {
        true
    }

    proof fn lemma_conforms(&self, index: nat) {
        crate::nla::lemma_plain_kind(NL80211_ATTR_FRAME_TYPE);
        crate::nla::lemma_emitted_type_kind(NL80211_ATTR_FRAME_TYPE);
    }

    fn nla_kind(&self, index: usize) -> (k: u16) {
        NL80211_ATTR_FRAME_TYPE
    }

    fn nla_value_len(&self) -> (n: usize) {
        2
    }

    fn nla_encoded_len(&self) -> (r: Option<usize>) {
        Some(2)
    }

    fn nla_emit_value(&self, out: &mut Vec<u8>) {
        push_u16(out, self.to_u16());
    }

    fn nla_parse(index: usize, kind: u16, payload: &[u8]) -> (r: Result<Self, Nl80211ErrorKind>) {
        Ok(Self::from_u16(decode_u16(payload)?))
    }
}

/// The frame types that an interface type can send or receive.
#[derive(Debug, PartialEq, Eq, Clone)]
pub struct Nl80211IfaceFrameType {
    pub iface_type: Nl80211InterfaceType,
    pub attributes: Vec<Nl80211FrameType>,
}

/// In a list of frame types by interface type the kind of a record is the
/// interface type, and its value is the list of the frame types.
impl Nl80211Nla for Nl80211IfaceFrameType {
    open spec fn namespace() -> Namespace {
        Namespace::IfaceFrameTypes
    }

    open spec fn spec_kind(&self, index: nat) -> u16 {
        (self.iface_type.spec_to_u32() % 0x1_0000) as u16
    }

    open spec fn spec_value(&self) -> Value {
        Value::List(records_of(self.attributes@, 0))
    }

    open spec fn canonical(&self, index: nat) -> bool {
        &&& self.iface_type.spec_to_u32() <= NLA_TYPE_MASK
        &&& Nl80211InterfaceType::canonical(self.iface_type)
        &&& all_canonical(self.attributes@, 0)
    }

    open spec fn lossless(&self) -> bool {
        all_lossless(self.attributes@)
    }

    proof fn lemma_conforms(&self, index: nat) {
        crate::nla::lemma_plain_kind(self.spec_kind(index));
        lemma_records_of_conform::<Nl80211FrameType>(self.attributes@, 0);
    }

    fn nla_kind(&self, index: usize) -> (k: u16) {
        (self.iface_type.to_u32() % 0x1_0000) as u16
    }

    fn nla_value_len(&self) -> (n: usize) {
        list_len(&self.attributes)
    }

    fn nla_encoded_len(&self) -> (r: Option<usize>) {
        list_encoded_len(&self.attributes)
    }

    fn nla_emit_value(&self, out: &mut Vec<u8>) {
        emit_list(&self.attributes, out);
    }

    fn nla_parse(index: usize, kind: u16, payload: &[u8]) -> (r: Result<Self, Nl80211ErrorKind>) {
        proof {
            crate::nla::lemma_nla_type_bound(kind);
        }
        let iface_type = Nl80211InterfaceType::from_u32((kind & NLA_TYPE_MASK) as u32);
        match parse_list::<Nl80211FrameType>(payload) {
            Ok(attributes) => Ok(Nl80211IfaceFrameType { iface_type, attributes }),
            Err(e) => Err(e.kind),
        }
    }
}

} // verus!
