// SPDX-License-Identifier: MIT

//! The combinations of interfaces that a device supports at the same time.

use vstd::prelude::*;
use vstd::slice::slice_to_vec;

use crate::bytes::{decode_u32, push_bytes, push_u32};
use crate::codec::{
    all_canonical, all_lossless, emit_list, items_of, lemma_records_of_conform, list_encoded_len,
    list_len, Nl80211Nla, parse_list, records_of,
};
use crate::error::Nl80211ErrorKind;
use crate::iface::Nl80211InterfaceType;
use crate::nla::{nla_type, nla_type_is_stable, RawNla, NLA_TYPE_MASK};
use crate::schema::Namespace;
use crate::wire::Value;

verus! {

pub const NL80211_IFACE_COMB_LIMITS: u16 = 1;
pub const NL80211_IFACE_COMB_MAXNUM: u16 = 2;
pub const NL80211_IFACE_COMB_STA_AP_BI_MATCH: u16 = 3;
pub const NL80211_IFACE_COMB_NUM_CHANNELS: u16 = 4;
pub const NL80211_IFACE_COMB_RADAR_DETECT_WIDTHS: u16 = 5;
pub const NL80211_IFACE_COMB_RADAR_DETECT_REGIONS: u16 = 6;
pub const NL80211_IFACE_COMB_BI_MIN_GCD: u16 = 7;

pub const NL80211_IFACE_LIMIT_MAX: u16 = 1;
pub const NL80211_IFACE_LIMIT_TYPES: u16 = 2;

/// A combination of interfaces that a device supports at the same time.
#[derive(Debug, PartialEq, Eq, Clone)]
pub struct Nl80211IfaceComb {
    /// Position in the list
    pub index: u16,
    pub attributes: Vec<Nl80211IfaceCombAttribute>,
}

/// The combinations of a device are numbered by their position in the list.
impl Nl80211Nla for Nl80211IfaceComb {
    open spec fn namespace() -> Namespace {
        Namespace::IfaceCombs
    }

    open spec fn spec_kind(&self, index: nat) -> u16 {
        (index % 0x1_0000) as u16
    }

    open spec fn spec_value(&self) -> Value {
        Value::List(records_of(self.attributes@, 0))
    }

    open spec fn canonical(&self, index: nat) -> bool {
        &&& self.index == index % 0x1_0000
        &&& all_canonical(self.attributes@, 0)
    }

    open spec fn lossless(&self) -> bool {
        all_lossless(self.attributes@)
    }

    proof fn lemma_conforms(&self, index: nat) {
        lemma_records_of_conform::<Nl80211IfaceCombAttribute>(self.attributes@, 0);
    }

    fn nla_kind(&self, index: usize) -> (k: u16) {
        (index % 0x1_0000) as u16
    }

    fn nla_value_len(&self) -> (n: usize) {
        list_len(&self.attributes)
    }

    fn nla_encoded_len(&self) -> (r: Option<usize>) {
        list_encoded_len(&self.attributes)
    }

    fn nla_emit_value(&self, out: &mut Vec<u8>) {
        emit_list(&self.attributes, out);
    }

    fn nla_parse(index: usize, kind: u16, payload: &[u8]) -> (r: Result<Self, Nl80211ErrorKind>) {
        let attributes: Vec<Nl80211IfaceCombAttribute> = items_of(
            parse_list::<Nl80211IfaceCombAttribute>(payload),
        )?;
        Ok(Nl80211IfaceComb { index: (index % 0x1_0000) as u16, attributes })
    }
}

/// One attribute of an interface combination.
#[derive(Debug, PartialEq, Eq, Clone)]
#[non_exhaustive]
pub enum Nl80211IfaceCombAttribute {
    /// The limits of the combination, one for each set of interface types
    Limits(Vec<Nl80211IfaceCombLimit>),
    /// How many interfaces can be created in total
    Maxnum(u32),
    /// The beacon intervals of the station and of the access points that are in
    /// use must match
    StaApBiMatch,
    /// How many different channels may be used
    NumChannels(u32),
    /// Bitmap of the channel widths on which radar detection is supported
    RadarDetectWidths(u32),
    /// Bitmap of the regions in which radar detection is supported
    RadarDetectRegions(u32),
    /// The least that the greatest common divisor of all beacon intervals may
    /// be
    BiMinGcd(u32),
    /// A record of a kind that has no variant: its type field and its bytes
    Other(RawNla),
}

impl Nl80211Nla for Nl80211IfaceCombAttribute {
    open spec fn namespace() -> Namespace {
        Namespace::IfaceCombAttrs
    }

    open spec fn spec_kind(&self, index: nat) -> u16 {
        match self {
            Self::Limits(_) => NL80211_IFACE_COMB_LIMITS,
            Self::Maxnum(_) => NL80211_IFACE_COMB_MAXNUM,
            Self::StaApBiMatch => NL80211_IFACE_COMB_STA_AP_BI_MATCH,
            Self::NumChannels(_) => NL80211_IFACE_COMB_NUM_CHANNELS,
            Self::RadarDetectWidths(_) => NL80211_IFACE_COMB_RADAR_DETECT_WIDTHS,
            Self::RadarDetectRegions(_) => NL80211_IFACE_COMB_RADAR_DETECT_REGIONS,
            Self::BiMinGcd(_) => NL80211_IFACE_COMB_BI_MIN_GCD,
            Self::Other(nla) => nla.kind,
        }
    }

    open spec fn spec_value(&self) -> Value {
        match self {
            Self::Limits(d) => Value::List(records_of(d@, 0)),
            Self::Maxnum(d)
            | Self::NumChannels(d)
            | Self::RadarDetectWidths(d)
            | Self::RadarDetectRegions(d)
            | Self::BiMinGcd(d) => Value::U32(*d),
            Self::StaApBiMatch => Value::Flag,
            Self::Other(nla) => Value::Bytes(nla.value@),
        }
    }

    open spec fn canonical(&self, index: nat) -> bool {
        match self {
            Self::Limits(d) => all_canonical(d@, 0),
            Self::Other(nla) => Namespace::IfaceCombAttrs.shape(nla_type(nla.kind)) is None,
            _ => true,
        }
    }

    open spec fn lossless(&self) -> bool {
        match self {
            Self::Limits(d) => all_lossless(d@),
            Self::Other(nla) => nla_type_is_stable(nla.kind),
            _ => true,
        }
    }

    proof fn lemma_conforms(&self, index: nat) {
        match self {
            Self::Limits(d) => {
                crate::nla::lemma_plain_kind(NL80211_IFACE_COMB_LIMITS);
                lemma_records_of_conform::<Nl80211IfaceCombLimit>(d@, 0);
            },
            Self::Other(nla) => {},
            _ => crate::nla::lemma_plain_kind(self.spec_kind(index)),
        }
    }

    fn nla_kind(&self, index: usize) -> (k: u16) {
        match self {
            Self::Limits(_) => NL80211_IFACE_COMB_LIMITS,
            Self::Maxnum(_) => NL80211_IFACE_COMB_MAXNUM,
            Self::StaApBiMatch => NL80211_IFACE_COMB_STA_AP_BI_MATCH,
            Self::NumChannels(_) => NL80211_IFACE_COMB_NUM_CHANNELS,
            Self::RadarDetectWidths(_) => NL80211_IFACE_COMB_RADAR_DETECT_WIDTHS,
            Self::RadarDetectRegions(_) => NL80211_IFACE_COMB_RADAR_DETECT_REGIONS,
            Self::BiMinGcd(_) => NL80211_IFACE_COMB_BI_MIN_GCD,
            Self::Other(nla) => nla.kind,
        }
    }

    fn nla_value_len(&self) -> (n: usize) {
        match self {
            Self::Limits(d) => list_len(d),
            Self::Maxnum(_)
            | Self::NumChannels(_)
            | Self::RadarDetectWidths(_)
            | Self::RadarDetectRegions(_)
            | Self::BiMinGcd(_) => 4,
            Self::StaApBiMatch => 0,
            Self::Other(nla) => nla.value.len(),
        }
    }

    fn nla_encoded_len(&self) -> (r: Option<usize>) {
        match self {
            Self::Limits(d) => list_encoded_len(d),
            Self::Maxnum(_)
            | Self::NumChannels(_)
            | Self::RadarDetectWidths(_)
            | Self::RadarDetectRegions(_)
            | Self::BiMinGcd(_) => Some(4),
            Self::StaApBiMatch => Some(0),
            Self::Other(nla) => Some(nla.value.len()),
        }
    }

    fn nla_emit_value(&self, out: &mut Vec<u8>) {
        match self {
            Self::Limits(d) => emit_list(d, out),
            Self::Maxnum(d)
            | Self::NumChannels(d)
            | Self::RadarDetectWidths(d)
            | Self::RadarDetectRegions(d)
            | Self::BiMinGcd(d) => push_u32(out, *d),
            Self::StaApBiMatch => {
                assert(out@ + Seq::<u8>::empty() =~= out@);
            },
            Self::Other(nla) => push_bytes(out, nla.value.as_slice()),
        }
    }

    fn nla_parse(index: usize, kind: u16, payload: &[u8]) -> (r: Result<Self, Nl80211ErrorKind>) {
        Ok(
            match kind & NLA_TYPE_MASK {
                NL80211_IFACE_COMB_LIMITS =>
                    Self::Limits(items_of(parse_list::<Nl80211IfaceCombLimit>(payload))?),
                NL80211_IFACE_COMB_MAXNUM => Self::Maxnum(decode_u32(payload)?),
                NL80211_IFACE_COMB_STA_AP_BI_MATCH => Self::StaApBiMatch,
                NL80211_IFACE_COMB_NUM_CHANNELS => Self::NumChannels(decode_u32(payload)?),
                NL80211_IFACE_COMB_RADAR_DETECT_WIDTHS =>
                    Self::RadarDetectWidths(decode_u32(payload)?),
                NL80211_IFACE_COMB_RADAR_DETECT_REGIONS =>
                    Self::RadarDetectRegions(decode_u32(payload)?),
                NL80211_IFACE_COMB_BI_MIN_GCD => Self::BiMinGcd(decode_u32(payload)?),
                _ => Self::Other(RawNla::new(kind, slice_to_vec(payload))),
            },
        )
    }
}

/// A limit of an interface combination: how many interfaces of some types may exist.
#[derive(Debug, PartialEq, Eq, Clone)]
pub struct Nl80211IfaceCombLimit {
    /// Position in the list
    pub index: u16,
    pub attributes: Vec<Nl80211IfaceCombLimitAttribute>,
}

/// The limits of a combination are numbered by their position in the list.
impl Nl80211Nla for Nl80211IfaceCombLimit {
    open spec fn namespace() -> Namespace {
        Namespace::IfaceLimits
    }

    open spec fn spec_kind(&self, index: nat) -> u16 {
        (index % 0x1_0000) as u16
    }

    open spec fn spec_value(&self) -> Value {
        Value::List(records_of(self.attributes@, 0))
    }

    open spec fn canonical(&self, index: nat) -> bool {
        &&& self.index == index % 0x1_0000
        &&& all_canonical(self.attributes@, 0)
    }

    open spec fn lossless(&self) -> bool {
        all_lossless(self.attributes@)
    }

    proof fn lemma_conforms(&self, index: nat) {
        lemma_records_of_conform::<Nl80211IfaceCombLimitAttribute>(self.attributes@, 0);
    }

    fn nla_kind(&self, index: usize) -> (k: u16) {
        (index % 0x1_0000) as u16
    }

    fn nla_value_len(&self) -> (n: usize) {
        list_len(&self.attributes)
    }

    fn nla_encoded_len(&self) -> (r: Option<usize>) {
        list_encoded_len(&self.attributes)
    }

    fn nla_emit_value(&self, out: &mut Vec<u8>) {
        emit_list(&self.attributes, out);
    }

    fn nla_parse(index: usize, kind: u16, payload: &[u8]) -> (r: Result<Self, Nl80211ErrorKind>) {
        let attributes: Vec<Nl80211IfaceCombLimitAttribute> = items_of(
            parse_list::<Nl80211IfaceCombLimitAttribute>(payload),
        )?;
        Ok(Nl80211IfaceCombLimit { index: (index % 0x1_0000) as u16, attributes })
    }
}

/// One attribute of a limit of an interface combination.
#[derive(Debug, PartialEq, Eq, Clone)]
#[non_exhaustive]
pub enum Nl80211IfaceCombLimitAttribute {
    /// How many interfaces of the given types may exist
    Max(u32),
    /// The interface types that the limit is about
    Iftypes(Vec<Nl80211InterfaceType>),
    /// A record of a kind that has no variant: its type field and its bytes
    Other(RawNla),
}

impl Nl80211Nla for Nl80211IfaceCombLimitAttribute {
    open spec fn namespace() -> Namespace {
        Namespace::IfaceLimitAttrs
    }

    open spec fn spec_kind(&self, index: nat) -> u16 {
        match self {
            Self::Max(_) => NL80211_IFACE_LIMIT_MAX,
            Self::Iftypes(_) => NL80211_IFACE_LIMIT_TYPES,
            Self::Other(nla) => nla.kind,
        }
    }

    open spec fn spec_value(&self) -> Value {
        match self {
            Self::Max(d) => Value::U32(*d),
            Self::Iftypes(d) => Value::List(records_of(d@, 0)),
            Self::Other(nla) => Value::Bytes(nla.value@),
        }
    }

    open spec fn canonical(&self, index: nat) -> bool {
        match self {
            Self::Iftypes(d) => all_canonical(d@, 0),
            Self::Other(nla) => Namespace::IfaceLimitAttrs.shape(nla_type(nla.kind)) is None,
            _ => true,
        }
    }

    open spec fn lossless(&self) -> bool {
        match self {
            Self::Iftypes(d) => all_lossless(d@),
            Self::Other(nla) => nla_type_is_stable(nla.kind),
            _ => true,
        }
    }

    proof fn lemma_conforms(&self, index: nat) {
        match self {
            Self::Iftypes(d) => {
                crate::nla::lemma_plain_kind(NL80211_IFACE_LIMIT_TYPES);
                lemma_records_of_conform::<Nl80211InterfaceType>(d@, 0);
            },
            Self::Other(nla) => {},
            _ => crate::nla::lemma_plain_kind(self.spec_kind(index)),
        }
    }

    fn nla_kind(&self, index: usize) -> (k: u16) {
        match self {
            Self::Max(_) => NL80211_IFACE_LIMIT_MAX,
            Self::Iftypes(_) => NL80211_IFACE_LIMIT_TYPES,
            Self::Other(nla) => nla.kind,
        }
    }

    fn nla_value_len(&self) -> (n: usize) {
        match self {
            Self::Max(_) => 4,
            Self::Iftypes(d) => list_len(d),
            Self::Other(nla) => nla.value.len(),
        }
    }

    fn nla_encoded_len(&self) -> (r: Option<usize>) {
        match self {
            Self::Max(_) => Some(4),
            Self::Iftypes(d) => list_encoded_len(d),
            Self::Other(nla) => Some(nla.value.len()),
        }
    }

    fn nla_emit_value(&self, out: &mut Vec<u8>) {
        match self {
            Self::Max(d) => push_u32(out, *d),
            Self::Iftypes(d) => emit_list(d, out),
            Self::Other(nla) => push_bytes(out, nla.value.as_slice()),
        }
    }

    fn nla_parse(index: usize, kind: u16, payload: &[u8]) -> (r: Result<Self, Nl80211ErrorKind>) {
        Ok(
            match kind & NLA_TYPE_MASK {
                NL80211_IFACE_LIMIT_MAX => Self::Max(decode_u32(payload)?),
                NL80211_IFACE_LIMIT_TYPES =>
                    Self::Iftypes(items_of(parse_list::<Nl80211InterfaceType>(payload))?),
                _ => Self::Other(RawNla::new(kind, slice_to_vec(payload))),
            },
        )
    }
}

} // verus!
