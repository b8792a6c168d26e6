// SPDX-License-Identifier: MIT

//! What a scan has found: basic service sets and what is known of each.

use vstd::prelude::*;
use vstd::slice::slice_to_vec;

use crate::bytes::{
    decode_mac, decode_u16, decode_u32, decode_u64, decode_u8, ETH_ALEN, i32_from_word,
    i32_to_word, push_bytes, push_u16, push_u32, push_u64, push_u8, word_of_i32,
};
use crate::codec::Nl80211Nla;
use crate::error::Nl80211ErrorKind;
use crate::nla::{nla_type, nla_type_is_stable, RawNla, NLA_TYPE_MASK};
use crate::schema::Namespace;
use crate::wire::Value;

verus! {

pub const NL80211_BSS_BSSID: u16 = 1;
pub const NL80211_BSS_FREQUENCY: u16 = 2;
pub const NL80211_BSS_TSF: u16 = 3;
pub const NL80211_BSS_BEACON_INTERVAL: u16 = 4;
pub const NL80211_BSS_CAPABILITY: u16 = 5;
pub const NL80211_BSS_INFORMATION_ELEMENTS: u16 = 6;
pub const NL80211_BSS_SIGNAL_MBM: u16 = 7;
pub const NL80211_BSS_SIGNAL_UNSPEC: u16 = 8;
pub const NL80211_BSS_STATUS: u16 = 9;
pub const NL80211_BSS_SEEN_MS_AGO: u16 = 10;
pub const NL80211_BSS_BEACON_IES: u16 = 11;
pub const NL80211_BSS_CHAN_WIDTH: u16 = 12;
pub const NL80211_BSS_BEACON_TSF: u16 = 13;
pub const NL80211_BSS_PRESP_DATA: u16 = 14;
pub const NL80211_BSS_LAST_SEEN_BOOTTIME: u16 = 15;
pub const NL80211_BSS_PARENT_TSF: u16 = 17;
pub const NL80211_BSS_PARENT_BSSID: u16 = 18;
pub const NL80211_BSS_FREQUENCY_OFFSET: u16 = 20;
pub const NL80211_BSS_MLO_LINK_ID: u16 = 21;
pub const NL80211_BSS_MLD_ADDR: u16 = 22;

pub const WLAN_CAPABILITY_ESS: u16 = 0x0001;
pub const WLAN_CAPABILITY_IBSS: u16 = 0x0002;
pub const WLAN_CAPABILITY_PRIVACY: u16 = 0x0010;
pub const WLAN_CAPABILITY_SHORT_PREAMBLE: u16 = 0x0020;
pub const WLAN_CAPABILITY_SHORT_SLOT_TIME: u16 = 0x0400;

/// The capability field of a beacon or of a probe response: a set of bits.
#[derive(Debug, PartialEq, Eq, Clone, Copy)]
pub struct Nl80211BssCapabilities {
    bits: u16,
}

impl View for Nl80211BssCapabilities {
    type V = u16;

    closed spec fn view(&self) -> u16 {
        self.bits
    }
}

impl Nl80211BssCapabilities {
    /// The set that has exactly the given bits, named or not.
    pub fn from_bits_retain(bits: u16) -> (r: Self)
        ensures
            r@ == bits,
    {
        Nl80211BssCapabilities { bits }
    }

    /// The bits of the set.
    pub fn bits(&self) -> (r: u16)
        ensures
            r == self@,
    {
        self.bits
    }

    /// Whether all the given bits are in the set.
    pub fn contains(&self, bits: u16) -> (b: bool)
        ensures
            b == (self@ & bits == bits),
    {
        self.bits & bits == bits
    }
}

/// One piece of information about a basic service set that a scan has found.
#[derive(Debug, PartialEq, Eq, Clone)]
#[non_exhaustive]
pub enum Nl80211BssInfo {
    /// Identifier of the BSS
    Bssid([u8; ETH_ALEN]),
    /// Frequency in MHz
    Frequency(u32),
    /// Timing synchronisation function of the received probe response or beacon
    Tsf(u64),
    /// Beacon interval of the BSS, in time units
    BeaconInterval(u16),
    /// Capability field
    Capability(u16),
    /// Information elements of the last probe response or beacon, as they were
    /// received
    InformationElements(Vec<u8>),
    /// Signal strength of the probe response or beacon, in hundredths of dBm
    SignalMbm(i32),
    /// Signal strength of the probe response or beacon, from 0 to 100
    SignalUnspecified(u8),
    /// Status of the connection to this BSS
    Status(u32),
    /// Age of this entry, in milliseconds
    SeenMsAgo(u32),
    /// Information elements of the last beacon, as they were received
    BeaconInformationElements(Vec<u8>),
    /// Width of the control channel
    ChannelWidth(u32),
    /// Timing synchronisation function of the last received beacon
    BeaconTsf(u64),
    /// The information elements and the timing come from a probe response
    ProbeResponseData,
    /// Time at which this entry was last updated, in nanoseconds since boot
    LastSeenBootTime(u64),
    /// Time at the start of reception of the first byte of the timestamp field,
    /// in the timing of the BSS named as parent
    ParentTsf(u64),
    /// The BSS whose timing `ParentTsf` uses
    ParentBssid([u8; ETH_ALEN]),
    /// Offset of the frequency, in kHz
    FrequencyOffset(u32),
    /// Link id of the BSS within its multi-link device
    MloLinkId(u8),
    /// Address of the multi-link device that the BSS belongs to
    MldAddress([u8; ETH_ALEN]),
    /// A record of a kind that has no variant: its type field and its bytes
    Other(RawNla),
}

impl Nl80211Nla for Nl80211BssInfo {
    open spec fn namespace() -> Namespace {
        Namespace::Bss
    }

    open spec fn spec_kind(&self, index: nat) -> u16 {
        match self {
            Self::Bssid(_) => NL80211_BSS_BSSID,
            Self::Frequency(_) => NL80211_BSS_FREQUENCY,
            Self::Tsf(_) => NL80211_BSS_TSF,
            Self::BeaconInterval(_) => NL80211_BSS_BEACON_INTERVAL,
            Self::Capability(_) => NL80211_BSS_CAPABILITY,
            Self::InformationElements(_) => NL80211_BSS_INFORMATION_ELEMENTS,
            Self::SignalMbm(_) => NL80211_BSS_SIGNAL_MBM,
            Self::SignalUnspecified(_) => NL80211_BSS_SIGNAL_UNSPEC,
            Self::Status(_) => NL80211_BSS_STATUS,
            Self::SeenMsAgo(_) => NL80211_BSS_SEEN_MS_AGO,
            Self::BeaconInformationElements(_) => NL80211_BSS_BEACON_IES,
            Self::ChannelWidth(_) => NL80211_BSS_CHAN_WIDTH,
            Self::BeaconTsf(_) => NL80211_BSS_BEACON_TSF,
            Self::ProbeResponseData => NL80211_BSS_PRESP_DATA,
            Self::LastSeenBootTime(_) => NL80211_BSS_LAST_SEEN_BOOTTIME,
            Self::ParentTsf(_) => NL80211_BSS_PARENT_TSF,
            Self::ParentBssid(_) => NL80211_BSS_PARENT_BSSID,
            Self::FrequencyOffset(_) => NL80211_BSS_FREQUENCY_OFFSET,
            Self::MloLinkId(_) => NL80211_BSS_MLO_LINK_ID,
            Self::MldAddress(_) => NL80211_BSS_MLD_ADDR,
            Self::Other(nla) => nla.kind,
        }
    }

    open spec fn spec_value(&self) -> Value {
        match self {
            Self::Bssid(d)
            | Self::ParentBssid(d)
            | Self::MldAddress(d) => Value::Bytes(d@),
            Self::Frequency(d)
            | Self::Status(d)
            | Self::SeenMsAgo(d)
            | Self::ChannelWidth(d)
            | Self::FrequencyOffset(d) => Value::U32(*d),
            Self::Tsf(d)
            | Self::BeaconTsf(d)
            | Self::LastSeenBootTime(d)
            | Self::ParentTsf(d) => Value::U64(*d),
            Self::BeaconInterval(d)
            | Self::Capability(d) => Value::U16(*d),
            Self::InformationElements(d)
            | Self::BeaconInformationElements(d) => Value::Bytes(d@),
            Self::SignalMbm(d) => Value::U32(word_of_i32(*d)),
            Self::SignalUnspecified(d)
            | Self::MloLinkId(d) => Value::U8(*d),
            Self::ProbeResponseData => Value::Flag,
            Self::Other(nla) => Value::Bytes(nla.value@),
        }
    }

    open spec fn canonical(&self, index: nat) -> bool {
        match self {
            Self::Other(nla) => Namespace::Bss.shape(nla_type(nla.kind)) is None,
            _ => true,
        }
    }

    open spec fn lossless(&self) -> bool {
        match self {
            Self::Other(nla) => nla_type_is_stable(nla.kind),
            _ => true,
        }
    }

    proof fn lemma_conforms(&self, index: nat) {
        match self {
            Self::Other(nla) => {},
            _ => crate::nla::lemma_plain_kind(self.spec_kind(index)),
        }
    }

    fn nla_kind(&self, index: usize) -> (k: u16) {
        match self {
            Self::Bssid(_) => NL80211_BSS_BSSID,
            Self::Frequency(_) => NL80211_BSS_FREQUENCY,
            Self::Tsf(_) => NL80211_BSS_TSF,
            Self::BeaconInterval(_) => NL80211_BSS_BEACON_INTERVAL,
            Self::Capability(_) => NL80211_BSS_CAPABILITY,
            Self::InformationElements(_) => NL80211_BSS_INFORMATION_ELEMENTS,
            Self::SignalMbm(_) => NL80211_BSS_SIGNAL_MBM,
            Self::SignalUnspecified(_) => NL80211_BSS_SIGNAL_UNSPEC,
            Self::Status(_) => NL80211_BSS_STATUS,
            Self::SeenMsAgo(_) => NL80211_BSS_SEEN_MS_AGO,
            Self::BeaconInformationElements(_) => NL80211_BSS_BEACON_IES,
            Self::ChannelWidth(_) => NL80211_BSS_CHAN_WIDTH,
            Self::BeaconTsf(_) => NL80211_BSS_BEACON_TSF,
            Self::ProbeResponseData => NL80211_BSS_PRESP_DATA,
            Self::LastSeenBootTime(_) => NL80211_BSS_LAST_SEEN_BOOTTIME,
            Self::ParentTsf(_) => NL80211_BSS_PARENT_TSF,
            Self::ParentBssid(_) => NL80211_BSS_PARENT_BSSID,
            Self::FrequencyOffset(_) => NL80211_BSS_FREQUENCY_OFFSET,
            Self::MloLinkId(_) => NL80211_BSS_MLO_LINK_ID,
            Self::MldAddress(_) => NL80211_BSS_MLD_ADDR,
            Self::Other(nla) => nla.kind,
        }
    }

    fn nla_value_len(&self) -> (n: usize) {
        match self {
            Self::Bssid(_)
            | Self::ParentBssid(_)
            | Self::MldAddress(_) => ETH_ALEN,
            Self::Frequency(_)
            | Self::SignalMbm(_)
            | Self::Status(_)
            | Self::SeenMsAgo(_)
            | Self::ChannelWidth(_)
            | Self::FrequencyOffset(_) => 4,
            Self::Tsf(_)
            | Self::BeaconTsf(_)
            | Self::LastSeenBootTime(_)
            | Self::ParentTsf(_) => 8,
            Self::BeaconInterval(_)
            | Self::Capability(_) => 2,
            Self::InformationElements(d)
            | Self::BeaconInformationElements(d) => d.len(),
            Self::SignalUnspecified(_)
            | Self::MloLinkId(_) => 1,
            Self::ProbeResponseData => 0,
            Self::Other(nla) => nla.value.len(),
        }
    }

    fn nla_encoded_len(&self) -> (r: Option<usize>) {
        match self {
            Self::Bssid(_)
            | Self::ParentBssid(_)
            | Self::MldAddress(_) => Some(ETH_ALEN),
            Self::Frequency(_)
            | Self::SignalMbm(_)
            | Self::Status(_)
            | Self::SeenMsAgo(_)
            | Self::ChannelWidth(_)
            | Self::FrequencyOffset(_) => Some(4),
            Self::Tsf(_)
            | Self::BeaconTsf(_)
            | Self::LastSeenBootTime(_)
            | Self::ParentTsf(_) => Some(8),
            Self::BeaconInterval(_)
            | Self::Capability(_) => Some(2),
            Self::InformationElements(d)
            | Self::BeaconInformationElements(d) => Some(d.len()),
            Self::SignalUnspecified(_)
            | Self::MloLinkId(_) => Some(1),
            Self::ProbeResponseData => Some(0),
            Self::Other(nla) => Some(nla.value.len()),
        }
    }

    fn nla_emit_value(&self, out: &mut Vec<u8>) {
        match self {
            Self::Bssid(d)
            | Self::ParentBssid(d)
            | Self::MldAddress(d) => push_bytes(out, d.as_slice()),
            Self::Frequency(d)
            | Self::Status(d)
            | Self::SeenMsAgo(d)
            | Self::ChannelWidth(d)
            | Self::FrequencyOffset(d) => push_u32(out, *d),
            Self::Tsf(d)
            | Self::BeaconTsf(d)
            | Self::LastSeenBootTime(d)
            | Self::ParentTsf(d) => push_u64(out, *d),
            Self::BeaconInterval(d)
            | Self::Capability(d) => push_u16(out, *d),
            Self::InformationElements(d)
            | Self::BeaconInformationElements(d) => push_bytes(out, d.as_slice()),
            Self::SignalMbm(d) => push_u32(out, i32_to_word(*d)),
            Self::SignalUnspecified(d)
            | Self::MloLinkId(d) => push_u8(out, *d),
            Self::ProbeResponseData => {
                assert(out@ + Seq::<u8>::empty() =~= out@);
            },
            Self::Other(nla) => push_bytes(out, nla.value.as_slice()),
        }
    }

    fn nla_parse(index: usize, kind: u16, payload: &[u8]) -> (r: Result<Self, Nl80211ErrorKind>) {
        Ok(
            match kind & NLA_TYPE_MASK {
                NL80211_BSS_BSSID => Self::Bssid(decode_mac(payload)?),
                NL80211_BSS_FREQUENCY => Self::Frequency(decode_u32(payload)?),
                NL80211_BSS_TSF => Self::Tsf(decode_u64(payload)?),
                NL80211_BSS_BEACON_INTERVAL => Self::BeaconInterval(decode_u16(payload)?),
                NL80211_BSS_CAPABILITY => Self::Capability(decode_u16(payload)?),
                NL80211_BSS_INFORMATION_ELEMENTS =>
                    Self::InformationElements(slice_to_vec(payload)),
                NL80211_BSS_SIGNAL_MBM => Self::SignalMbm(i32_from_word(decode_u32(payload)?)),
                NL80211_BSS_SIGNAL_UNSPEC => Self::SignalUnspecified(decode_u8(payload)?),
                NL80211_BSS_STATUS => Self::Status(decode_u32(payload)?),
                NL80211_BSS_SEEN_MS_AGO => Self::SeenMsAgo(decode_u32(payload)?),
                NL80211_BSS_BEACON_IES => Self::BeaconInformationElements(slice_to_vec(payload)),
                NL80211_BSS_CHAN_WIDTH => Self::ChannelWidth(decode_u32(payload)?),
                NL80211_BSS_BEACON_TSF => Self::BeaconTsf(decode_u64(payload)?),
                NL80211_BSS_PRESP_DATA => Self::ProbeResponseData,
                NL80211_BSS_LAST_SEEN_BOOTTIME => Self::LastSeenBootTime(decode_u64(payload)?),
                NL80211_BSS_PARENT_TSF => Self::ParentTsf(decode_u64(payload)?),
                NL80211_BSS_PARENT_BSSID => Self::ParentBssid(decode_mac(payload)?),
                NL80211_BSS_FREQUENCY_OFFSET => Self::FrequencyOffset(decode_u32(payload)?),
                NL80211_BSS_MLO_LINK_ID => Self::MloLinkId(decode_u8(payload)?),
                NL80211_BSS_MLD_ADDR => Self::MldAddress(decode_mac(payload)?),
                _ => Self::Other(RawNla::new(kind, slice_to_vec(payload))),
            },
        )
    }
}

} // verus!
