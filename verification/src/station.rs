// SPDX-License-Identifier: MIT

//! Information about a station: a peer of an interface.

use vstd::prelude::*;
use vstd::slice::slice_to_vec;

use crate::bytes::{
    byte_of_i8, decode_u16, decode_u32, decode_u64, decode_u8, i8_from_byte, i8_to_byte,
    push_bytes, push_u16, push_u32, push_u64, push_u8,
};
use crate::codec::{
    all_canonical, all_lossless, emit_list, items_of, lemma_records_of_conform, list_encoded_len,
    list_len, Nl80211Nla, parse_list, records_of,
};
use crate::error::Nl80211ErrorKind;
use crate::nla::{nla_type, nla_type_is_stable, RawNla, NLA_TYPE_MASK};
use crate::schema::Namespace;
use crate::wire::Value;

verus! {

pub const NL80211_STA_INFO_INACTIVE_TIME: u16 = 1;
pub const NL80211_STA_INFO_RX_BYTES: u16 = 2;
pub const NL80211_STA_INFO_TX_BYTES: u16 = 3;
pub const NL80211_STA_INFO_LLID: u16 = 4;
pub const NL80211_STA_INFO_PLID: u16 = 5;
pub const NL80211_STA_INFO_PLINK_STATE: u16 = 6;
pub const NL80211_STA_INFO_SIGNAL: u16 = 7;
pub const NL80211_STA_INFO_TX_BITRATE: u16 = 8;
pub const NL80211_STA_INFO_RX_PACKETS: u16 = 9;
pub const NL80211_STA_INFO_TX_PACKETS: u16 = 10;
pub const NL80211_STA_INFO_TX_RETRIES: u16 = 11;
pub const NL80211_STA_INFO_TX_FAILED: u16 = 12;
pub const NL80211_STA_INFO_SIGNAL_AVG: u16 = 13;
pub const NL80211_STA_INFO_RX_BITRATE: u16 = 14;
pub const NL80211_STA_INFO_CONNECTED_TIME: u16 = 16;
pub const NL80211_STA_INFO_BEACON_LOSS: u16 = 18;
pub const NL80211_STA_INFO_RX_BYTES64: u16 = 23;
pub const NL80211_STA_INFO_TX_BYTES64: u16 = 24;
pub const NL80211_STA_INFO_EXPECTED_THROUGHPUT: u16 = 27;
pub const NL80211_STA_INFO_RX_DROP_MISC: u16 = 28;
pub const NL80211_STA_INFO_BEACON_RX: u16 = 29;
pub const NL80211_STA_INFO_BEACON_SIGNAL_AVG: u16 = 30;
pub const NL80211_STA_INFO_RX_DURATION: u16 = 32;
pub const NL80211_STA_INFO_ACK_SIGNAL: u16 = 34;
pub const NL80211_STA_INFO_ACK_SIGNAL_AVG: u16 = 35;
pub const NL80211_STA_INFO_RX_MPDUS: u16 = 36;
pub const NL80211_STA_INFO_FCS_ERROR_COUNT: u16 = 37;
pub const NL80211_STA_INFO_CONNECTED_TO_GATE: u16 = 38;
pub const NL80211_STA_INFO_TX_DURATION: u16 = 39;
pub const NL80211_STA_INFO_AIRTIME_WEIGHT: u16 = 40;
pub const NL80211_STA_INFO_AIRTIME_LINK_METRIC: u16 = 41;
pub const NL80211_STA_INFO_ASSOC_AT_BOOTTIME: u16 = 42;
pub const NL80211_STA_INFO_CONNECTED_TO_AS: u16 = 43;

pub const NL80211_RATE_INFO_BITRATE: u16 = 1;
pub const NL80211_RATE_INFO_MCS: u16 = 2;
pub const NL80211_RATE_INFO_40_MHZ_WIDTH: u16 = 3;
pub const NL80211_RATE_INFO_SHORT_GI: u16 = 4;
pub const NL80211_RATE_INFO_BITRATE32: u16 = 5;
pub const NL80211_RATE_INFO_VHT_MCS: u16 = 6;
pub const NL80211_RATE_INFO_VHT_NSS: u16 = 7;
pub const NL80211_RATE_INFO_80_MHZ_WIDTH: u16 = 8;
pub const NL80211_RATE_INFO_80P80_MHZ_WIDTH: u16 = 9;
pub const NL80211_RATE_INFO_160_MHZ_WIDTH: u16 = 10;
pub const NL80211_RATE_INFO_10_MHZ_WIDTH: u16 = 11;
pub const NL80211_RATE_INFO_5_MHZ_WIDTH: u16 = 12;
pub const NL80211_RATE_INFO_HE_MCS: u16 = 13;
pub const NL80211_RATE_INFO_HE_NSS: u16 = 14;
pub const NL80211_RATE_INFO_HE_GI: u16 = 15;
pub const NL80211_RATE_INFO_HE_DCM: u16 = 16;
pub const NL80211_RATE_INFO_HE_RU_ALLOC: u16 = 17;
pub const NL80211_RATE_INFO_320_MHZ_WIDTH: u16 = 18;
pub const NL80211_RATE_INFO_EHT_MCS: u16 = 19;
pub const NL80211_RATE_INFO_EHT_NSS: u16 = 20;
pub const NL80211_RATE_INFO_EHT_GI: u16 = 21;
pub const NL80211_RATE_INFO_EHT_RU_ALLOC: u16 = 22;

/// One piece of information about a station.
#[derive(Debug, PartialEq, Eq, Clone)]
#[non_exhaustive]
pub enum Nl80211StationInfo {
    /// Time since last activity, in milliseconds
    InactiveTime(u32),
    /// Total bytes received from this station
    RxBytes(u32),
    /// Total bytes transmitted to this station
    TxBytes(u32),
    /// The local mesh link id of the station
    Llid(u16),
    /// The peer mesh link id of the station
    Plid(u16),
    /// State of the peer link of a mesh station
    PeerLinkState(u8),
    /// Signal strength of the last received frame, in dBm
    Signal(i8),
    /// The bit rate at which frames are sent to this station
    TxBitrate(Vec<Nl80211RateInfo>),
    /// Total packets received from this station
    RxPackets(u32),
    /// Total packets transmitted to this station
    TxPackets(u32),
    /// Total retries to this station
    TxRetries(u32),
    /// Total failed packets to this station
    TxFailed(u32),
    /// Signal strength average, in dBm
    SignalAvg(i8),
    /// The bit rate at which frames were last received from this station
    RxBitrate(Vec<Nl80211RateInfo>),
    /// Time since the station was last connected, in seconds
    ConnectedTime(u32),
    /// Count of times that beacon loss was detected
    BeaconLoss(u32),
    /// Total bytes received from this station, 64 bits wide
    RxBytes64(u64),
    /// Total bytes transmitted to this station, 64 bits wide
    TxBytes64(u64),
    /// Expected throughput towards this station, in kbps
    ExpectedThroughput(u32),
    /// Packets dropped for unspecified reasons
    RxDropMisc(u64),
    /// Number of beacons received from this peer
    BeaconRx(u64),
    /// Signal strength average of beacons only, in dBm
    BeaconSignalAvg(i8),
    /// Aggregate duration of all frames received from the station, in
    /// microseconds
    RxDuration(u64),
    /// Signal strength of the last acknowledgement frame, in dBm
    AckSignal(i8),
    /// Average signal strength of acknowledgement frames, in dBm
    AckSignalAvg(i8),
    /// Total number of received packets
    RxMpdus(u32),
    /// Total number of packets received with a frame check failure
    FcsErrorCount(u32),
    /// Set if the mesh station has a path to a mesh gate
    ConnectedToGate(bool),
    /// Aggregate duration of all frames sent to the station, in microseconds
    TxDuration(u64),
    /// Current airtime weight of the station
    AirtimeWeight(u16),
    /// Airtime link metric of the mesh station
    AirtimeLinkMetric(u32),
    /// Time of the last association, in nanoseconds since boot
    AssociationAtBoottime(u64),
    /// Set if the mesh station has a path to an authentication server
    ConnectedToAuthServer(bool),
    /// A record of a kind that has no variant: its type field and its bytes
    Other(RawNla),
}

impl Nl80211Nla for Nl80211StationInfo {
    open spec fn namespace() -> Namespace {
        Namespace::Station
    }

    open spec fn spec_kind(&self, index: nat) -> u16 {
        match self {
            Self::InactiveTime(_) => NL80211_STA_INFO_INACTIVE_TIME,
            Self::RxBytes(_) => NL80211_STA_INFO_RX_BYTES,
            Self::TxBytes(_) => NL80211_STA_INFO_TX_BYTES,
            Self::Llid(_) => NL80211_STA_INFO_LLID,
            Self::Plid(_) => NL80211_STA_INFO_PLID,
            Self::PeerLinkState(_) => NL80211_STA_INFO_PLINK_STATE,
            Self::Signal(_) => NL80211_STA_INFO_SIGNAL,
            Self::TxBitrate(_) => NL80211_STA_INFO_TX_BITRATE,
            Self::RxPackets(_) => NL80211_STA_INFO_RX_PACKETS,
            Self::TxPackets(_) => NL80211_STA_INFO_TX_PACKETS,
            Self::TxRetries(_) => NL80211_STA_INFO_TX_RETRIES,
            Self::TxFailed(_) => NL80211_STA_INFO_TX_FAILED,
            Self::SignalAvg(_) => NL80211_STA_INFO_SIGNAL_AVG,
            Self::RxBitrate(_) => NL80211_STA_INFO_RX_BITRATE,
            Self::ConnectedTime(_) => NL80211_STA_INFO_CONNECTED_TIME,
            Self::BeaconLoss(_) => NL80211_STA_INFO_BEACON_LOSS,
            Self::RxBytes64(_) => NL80211_STA_INFO_RX_BYTES64,
            Self::TxBytes64(_) => NL80211_STA_INFO_TX_BYTES64,
            Self::ExpectedThroughput(_) => NL80211_STA_INFO_EXPECTED_THROUGHPUT,
            Self::RxDropMisc(_) => NL80211_STA_INFO_RX_DROP_MISC,
            Self::BeaconRx(_) => NL80211_STA_INFO_BEACON_RX,
            Self::BeaconSignalAvg(_) => NL80211_STA_INFO_BEACON_SIGNAL_AVG,
            Self::RxDuration(_) => NL80211_STA_INFO_RX_DURATION,
            Self::AckSignal(_) => NL80211_STA_INFO_ACK_SIGNAL,
            Self::AckSignalAvg(_) => NL80211_STA_INFO_ACK_SIGNAL_AVG,
            Self::RxMpdus(_) => NL80211_STA_INFO_RX_MPDUS,
            Self::FcsErrorCount(_) => NL80211_STA_INFO_FCS_ERROR_COUNT,
            Self::ConnectedToGate(_) => NL80211_STA_INFO_CONNECTED_TO_GATE,
            Self::TxDuration(_) => NL80211_STA_INFO_TX_DURATION,
            Self::AirtimeWeight(_) => NL80211_STA_INFO_AIRTIME_WEIGHT,
            Self::AirtimeLinkMetric(_) => NL80211_STA_INFO_AIRTIME_LINK_METRIC,
            Self::AssociationAtBoottime(_) => NL80211_STA_INFO_ASSOC_AT_BOOTTIME,
            Self::ConnectedToAuthServer(_) => NL80211_STA_INFO_CONNECTED_TO_AS,
            Self::Other(nla) => nla.kind,
        }
    }

    open spec fn spec_value(&self) -> Value {
        match self {
            Self::InactiveTime(d)
            | Self::RxBytes(d)
            | Self::TxBytes(d)
            | Self::RxPackets(d)
            | Self::TxPackets(d)
            | Self::TxRetries(d)
            | Self::TxFailed(d)
            | Self::ConnectedTime(d)
            | Self::BeaconLoss(d)
            | Self::ExpectedThroughput(d)
            | Self::RxMpdus(d)
            | Self::FcsErrorCount(d)
            | Self::AirtimeLinkMetric(d) => Value::U32(*d),
            Self::Llid(d)
            | Self::Plid(d)
            | Self::AirtimeWeight(d) => Value::U16(*d),
            Self::PeerLinkState(d) => Value::U8(*d),
            Self::Signal(d)
            | Self::SignalAvg(d)
            | Self::BeaconSignalAvg(d)
            | Self::AckSignal(d)
            | Self::AckSignalAvg(d) => Value::U8(byte_of_i8(*d)),
            Self::TxBitrate(d)
            | Self::RxBitrate(d) => Value::List(records_of(d@, 0)),
            Self::RxBytes64(d)
            | Self::TxBytes64(d)
            | Self::RxDropMisc(d)
            | Self::BeaconRx(d)
            | Self::RxDuration(d)
            | Self::TxDuration(d)
            | Self::AssociationAtBoottime(d) => Value::U64(*d),
            Self::ConnectedToGate(d)
            | Self::ConnectedToAuthServer(d) => Value::U8(if *d { 1u8 } else { 0u8 }),
            Self::Other(nla) => Value::Bytes(nla.value@),
        }
    }

    open spec fn canonical(&self, index: nat) -> bool {
        match self {
            Self::TxBitrate(d)
            | Self::RxBitrate(d) => all_canonical(d@, 0),
            Self::Other(nla) => Namespace::Station.shape(nla_type(nla.kind)) is None,
            _ => true,
        }
    }

    open spec fn lossless(&self) -> bool {
        match self {
            Self::TxBitrate(d)
            | Self::RxBitrate(d) => all_lossless(d@),
            Self::Other(nla) => nla_type_is_stable(nla.kind),
            _ => true,
        }
    }

    proof fn lemma_conforms(&self, index: nat) {
        match self {
            Self::TxBitrate(d) => {
                crate::nla::lemma_plain_kind(NL80211_STA_INFO_TX_BITRATE);
                lemma_records_of_conform::<Nl80211RateInfo>(d@, 0);
            },
            Self::RxBitrate(d) => {
                crate::nla::lemma_plain_kind(NL80211_STA_INFO_RX_BITRATE);
                lemma_records_of_conform::<Nl80211RateInfo>(d@, 0);
            },
            Self::Other(nla) => {},
            _ => crate::nla::lemma_plain_kind(self.spec_kind(index)),
        }
    }

    fn nla_kind(&self, index: usize) -> (k: u16) {
        match self {
            Self::InactiveTime(_) => NL80211_STA_INFO_INACTIVE_TIME,
            Self::RxBytes(_) => NL80211_STA_INFO_RX_BYTES,
            Self::TxBytes(_) => NL80211_STA_INFO_TX_BYTES,
            Self::Llid(_) => NL80211_STA_INFO_LLID,
            Self::Plid(_) => NL80211_STA_INFO_PLID,
            Self::PeerLinkState(_) => NL80211_STA_INFO_PLINK_STATE,
            Self::Signal(_) => NL80211_STA_INFO_SIGNAL,
            Self::TxBitrate(_) => NL80211_STA_INFO_TX_BITRATE,
            Self::RxPackets(_) => NL80211_STA_INFO_RX_PACKETS,
            Self::TxPackets(_) => NL80211_STA_INFO_TX_PACKETS,
            Self::TxRetries(_) => NL80211_STA_INFO_TX_RETRIES,
            Self::TxFailed(_) => NL80211_STA_INFO_TX_FAILED,
            Self::SignalAvg(_) => NL80211_STA_INFO_SIGNAL_AVG,
            Self::RxBitrate(_) => NL80211_STA_INFO_RX_BITRATE,
            Self::ConnectedTime(_) => NL80211_STA_INFO_CONNECTED_TIME,
            Self::BeaconLoss(_) => NL80211_STA_INFO_BEACON_LOSS,
            Self::RxBytes64(_) => NL80211_STA_INFO_RX_BYTES64,
            Self::TxBytes64(_) => NL80211_STA_INFO_TX_BYTES64,
            Self::ExpectedThroughput(_) => NL80211_STA_INFO_EXPECTED_THROUGHPUT,
            Self::RxDropMisc(_) => NL80211_STA_INFO_RX_DROP_MISC,
            Self::BeaconRx(_) => NL80211_STA_INFO_BEACON_RX,
            Self::BeaconSignalAvg(_) => NL80211_STA_INFO_BEACON_SIGNAL_AVG,
            Self::RxDuration(_) => NL80211_STA_INFO_RX_DURATION,
            Self::AckSignal(_) => NL80211_STA_INFO_ACK_SIGNAL,
            Self::AckSignalAvg(_) => NL80211_STA_INFO_ACK_SIGNAL_AVG,
            Self::RxMpdus(_) => NL80211_STA_INFO_RX_MPDUS,
            Self::FcsErrorCount(_) => NL80211_STA_INFO_FCS_ERROR_COUNT,
            Self::ConnectedToGate(_) => NL80211_STA_INFO_CONNECTED_TO_GATE,
            Self::TxDuration(_) => NL80211_STA_INFO_TX_DURATION,
            Self::AirtimeWeight(_) => NL80211_STA_INFO_AIRTIME_WEIGHT,
            Self::AirtimeLinkMetric(_) => NL80211_STA_INFO_AIRTIME_LINK_METRIC,
            Self::AssociationAtBoottime(_) => NL80211_STA_INFO_ASSOC_AT_BOOTTIME,
            Self::ConnectedToAuthServer(_) => NL80211_STA_INFO_CONNECTED_TO_AS,
            Self::Other(nla) => nla.kind,
        }
    }

    fn nla_value_len(&self) -> (n: usize) {
        match self {
            Self::InactiveTime(_)
            | Self::RxBytes(_)
            | Self::TxBytes(_)
            | Self::RxPackets(_)
            | Self::TxPackets(_)
            | Self::TxRetries(_)
            | Self::TxFailed(_)
            | Self::ConnectedTime(_)
            | Self::BeaconLoss(_)
            | Self::ExpectedThroughput(_)
            | Self::RxMpdus(_)
            | Self::FcsErrorCount(_)
            | Self::AirtimeLinkMetric(_) => 4,
            Self::Llid(_)
            | Self::Plid(_)
            | Self::AirtimeWeight(_) => 2,
            Self::PeerLinkState(_)
            | Self::Signal(_)
            | Self::SignalAvg(_)
            | Self::BeaconSignalAvg(_)
            | Self::AckSignal(_)
            | Self::AckSignalAvg(_)
            | Self::ConnectedToGate(_)
            | Self::ConnectedToAuthServer(_) => 1,
            Self::TxBitrate(d)
            | Self::RxBitrate(d) => list_len(d),
            Self::RxBytes64(_)
            | Self::TxBytes64(_)
            | Self::RxDropMisc(_)
            | Self::BeaconRx(_)
            | Self::RxDuration(_)
            | Self::TxDuration(_)
            | Self::AssociationAtBoottime(_) => 8,
            Self::Other(nla) => nla.value.len(),
        }
    }

    fn nla_encoded_len(&self) -> (r: Option<usize>) {
        match self {
            Self::InactiveTime(_)
            | Self::RxBytes(_)
            | Self::TxBytes(_)
            | Self::RxPackets(_)
            | Self::TxPackets(_)
            | Self::TxRetries(_)
            | Self::TxFailed(_)
            | Self::ConnectedTime(_)
            | Self::BeaconLoss(_)
            | Self::ExpectedThroughput(_)
            | Self::RxMpdus(_)
            | Self::FcsErrorCount(_)
            | Self::AirtimeLinkMetric(_) => Some(4),
            Self::Llid(_)
            | Self::Plid(_)
            | Self::AirtimeWeight(_) => Some(2),
            Self::PeerLinkState(_)
            | Self::Signal(_)
            | Self::SignalAvg(_)
            | Self::BeaconSignalAvg(_)
            | Self::AckSignal(_)
            | Self::AckSignalAvg(_)
            | Self::ConnectedToGate(_)
            | Self::ConnectedToAuthServer(_) => Some(1),
            Self::TxBitrate(d)
            | Self::RxBitrate(d) => list_encoded_len(d),
            Self::RxBytes64(_)
            | Self::TxBytes64(_)
            | Self::RxDropMisc(_)
            | Self::BeaconRx(_)
            | Self::RxDuration(_)
            | Self::TxDuration(_)
            | Self::AssociationAtBoottime(_) => Some(8),
            Self::Other(nla) => Some(nla.value.len()),
        }
    }

    fn nla_emit_value(&self, out: &mut Vec<u8>) {
        match self {
            Self::InactiveTime(d)
            | Self::RxBytes(d)
            | Self::TxBytes(d)
            | Self::RxPackets(d)
            | Self::TxPackets(d)
            | Self::TxRetries(d)
            | Self::TxFailed(d)
            | Self::ConnectedTime(d)
            | Self::BeaconLoss(d)
            | Self::ExpectedThroughput(d)
            | Self::RxMpdus(d)
            | Self::FcsErrorCount(d)
            | Self::AirtimeLinkMetric(d) => push_u32(out, *d),
            Self::Llid(d)
            | Self::Plid(d)
            | Self::AirtimeWeight(d) => push_u16(out, *d),
            Self::PeerLinkState(d) => push_u8(out, *d),
            Self::Signal(d)
            | Self::SignalAvg(d)
            | Self::BeaconSignalAvg(d)
            | Self::AckSignal(d)
            | Self::AckSignalAvg(d) => push_u8(out, i8_to_byte(*d)),
            Self::TxBitrate(d)
            | Self::RxBitrate(d) => emit_list(d, out),
            Self::RxBytes64(d)
            | Self::TxBytes64(d)
            | Self::RxDropMisc(d)
            | Self::BeaconRx(d)
            | Self::RxDuration(d)
            | Self::TxDuration(d)
            | Self::AssociationAtBoottime(d) => push_u64(out, *d),
            Self::ConnectedToGate(d)
            | Self::ConnectedToAuthServer(d) => push_u8(out, if *d { 1 } else { 0 }),
            Self::Other(nla) => push_bytes(out, nla.value.as_slice()),
        }
    }

    fn nla_parse(index: usize, kind: u16, payload: &[u8]) -> (r: Result<Self, Nl80211ErrorKind>) {
        Ok(
            match kind & NLA_TYPE_MASK {
                NL80211_STA_INFO_INACTIVE_TIME => Self::InactiveTime(decode_u32(payload)?),
                NL80211_STA_INFO_RX_BYTES => Self::RxBytes(decode_u32(payload)?),
                NL80211_STA_INFO_TX_BYTES => Self::TxBytes(decode_u32(payload)?),
                NL80211_STA_INFO_LLID => Self::Llid(decode_u16(payload)?),
                NL80211_STA_INFO_PLID => Self::Plid(decode_u16(payload)?),
                NL80211_STA_INFO_PLINK_STATE => Self::PeerLinkState(decode_u8(payload)?),
                NL80211_STA_INFO_SIGNAL => Self::Signal(i8_from_byte(decode_u8(payload)?)),
                NL80211_STA_INFO_TX_BITRATE =>
                    Self::TxBitrate(items_of(parse_list::<Nl80211RateInfo>(payload))?),
                NL80211_STA_INFO_RX_PACKETS => Self::RxPackets(decode_u32(payload)?),
                NL80211_STA_INFO_TX_PACKETS => Self::TxPackets(decode_u32(payload)?),
                NL80211_STA_INFO_TX_RETRIES => Self::TxRetries(decode_u32(payload)?),
                NL80211_STA_INFO_TX_FAILED => Self::TxFailed(decode_u32(payload)?),
                NL80211_STA_INFO_SIGNAL_AVG => Self::SignalAvg(i8_from_byte(decode_u8(payload)?)),
                NL80211_STA_INFO_RX_BITRATE =>
                    Self::RxBitrate(items_of(parse_list::<Nl80211RateInfo>(payload))?),
                NL80211_STA_INFO_CONNECTED_TIME => Self::ConnectedTime(decode_u32(payload)?),
                NL80211_STA_INFO_BEACON_LOSS => Self::BeaconLoss(decode_u32(payload)?),
                NL80211_STA_INFO_RX_BYTES64 => Self::RxBytes64(decode_u64(payload)?),
                NL80211_STA_INFO_TX_BYTES64 => Self::TxBytes64(decode_u64(payload)?),
                NL80211_STA_INFO_EXPECTED_THROUGHPUT =>
                    Self::ExpectedThroughput(decode_u32(payload)?),
                NL80211_STA_INFO_RX_DROP_MISC => Self::RxDropMisc(decode_u64(payload)?),
                NL80211_STA_INFO_BEACON_RX => Self::BeaconRx(decode_u64(payload)?),
                NL80211_STA_INFO_BEACON_SIGNAL_AVG =>
                    Self::BeaconSignalAvg(i8_from_byte(decode_u8(payload)?)),
                NL80211_STA_INFO_RX_DURATION => Self::RxDuration(decode_u64(payload)?),
                NL80211_STA_INFO_ACK_SIGNAL => Self::AckSignal(i8_from_byte(decode_u8(payload)?)),
                NL80211_STA_INFO_ACK_SIGNAL_AVG =>
                    Self::AckSignalAvg(i8_from_byte(decode_u8(payload)?)),
                NL80211_STA_INFO_RX_MPDUS => Self::RxMpdus(decode_u32(payload)?),
                NL80211_STA_INFO_FCS_ERROR_COUNT => Self::FcsErrorCount(decode_u32(payload)?),
                NL80211_STA_INFO_CONNECTED_TO_GATE =>
                    Self::ConnectedToGate(decode_u8(payload)? > 0),
                NL80211_STA_INFO_TX_DURATION => Self::TxDuration(decode_u64(payload)?),
                NL80211_STA_INFO_AIRTIME_WEIGHT => Self::AirtimeWeight(decode_u16(payload)?),
                NL80211_STA_INFO_AIRTIME_LINK_METRIC =>
                    Self::AirtimeLinkMetric(decode_u32(payload)?),
                NL80211_STA_INFO_ASSOC_AT_BOOTTIME =>
                    Self::AssociationAtBoottime(decode_u64(payload)?),
                NL80211_STA_INFO_CONNECTED_TO_AS =>
                    Self::ConnectedToAuthServer(decode_u8(payload)? > 0),
                _ => Self::Other(RawNla::new(kind, slice_to_vec(payload))),
            },
        )
    }
}

/// One piece of information about a bit rate of a station.
#[derive(Debug, PartialEq, Eq, Clone)]
#[non_exhaustive]
pub enum Nl80211RateInfo {
    /// Bit rate in units of 100 kbps, where it fits 16 bits
    Bitrate(u16),
    /// Index of the high throughput modulation and coding scheme
    Mcs(u8),
    /// The channel is 40 MHz wide
    Mhz40Width,
    /// The guard interval is 400 ns
    ShortGi,
    /// Bit rate in units of 100 kbps
    Bitrate32(u32),
    /// Index of the very high throughput modulation and coding scheme
    VhtMcs(u8),
    /// Number of very high throughput streams
    VhtNss(u8),
    /// The channel is 80 MHz wide
    Mhz80Width,
    /// The channel is made of two 80 MHz channels
    Mhz80P80Width,
    /// The channel is 160 MHz wide
    Mhz160Width,
    /// The channel is 10 MHz wide
    Mhz10Width,
    /// The channel is 5 MHz wide
    Mhz5Width,
    /// Index of the high efficiency modulation and coding scheme
    HeMcs(u8),
    /// Number of high efficiency streams
    HeNss(u8),
    /// High efficiency guard interval
    HeGi(u8),
    /// High efficiency dual carrier modulation
    HeDcm(u8),
    /// High efficiency resource unit allocation
    HeRuAlloc(u8),
    /// The channel is 320 MHz wide
    Mhz320Width,
    /// Index of the extremely high throughput modulation and coding scheme
    EhtMcs(u8),
    /// Number of extremely high throughput streams
    EhtNss(u8),
    /// Extremely high throughput guard interval
    EhtGi(u8),
    /// Extremely high throughput resource unit allocation
    EhtRuAlloc(u8),
    /// A record of a kind that has no variant: its type field and its bytes
    Other(RawNla),
}

impl Nl80211Nla for Nl80211RateInfo {
    open spec fn namespace() -> Namespace {
        Namespace::RateInfo
    }

    open spec fn spec_kind(&self, index: nat) -> u16 {
        match self {
            Self::Bitrate(_) => NL80211_RATE_INFO_BITRATE,
            Self::Mcs(_) => NL80211_RATE_INFO_MCS,
            Self::Mhz40Width => NL80211_RATE_INFO_40_MHZ_WIDTH,
            Self::ShortGi => NL80211_RATE_INFO_SHORT_GI,
            Self::Bitrate32(_) => NL80211_RATE_INFO_BITRATE32,
            Self::VhtMcs(_) => NL80211_RATE_INFO_VHT_MCS,
            Self::VhtNss(_) => NL80211_RATE_INFO_VHT_NSS,
            Self::Mhz80Width => NL80211_RATE_INFO_80_MHZ_WIDTH,
            Self::Mhz80P80Width => NL80211_RATE_INFO_80P80_MHZ_WIDTH,
            Self::Mhz160Width => NL80211_RATE_INFO_160_MHZ_WIDTH,
            Self::Mhz10Width => NL80211_RATE_INFO_10_MHZ_WIDTH,
            Self::Mhz5Width => NL80211_RATE_INFO_5_MHZ_WIDTH,
            Self::HeMcs(_) => NL80211_RATE_INFO_HE_MCS,
            Self::HeNss(_) => NL80211_RATE_INFO_HE_NSS,
            Self::HeGi(_) => NL80211_RATE_INFO_HE_GI,
            Self::HeDcm(_) => NL80211_RATE_INFO_HE_DCM,
            Self::HeRuAlloc(_) => NL80211_RATE_INFO_HE_RU_ALLOC,
            Self::Mhz320Width => NL80211_RATE_INFO_320_MHZ_WIDTH,
            Self::EhtMcs(_) => NL80211_RATE_INFO_EHT_MCS,
            Self::EhtNss(_) => NL80211_RATE_INFO_EHT_NSS,
            Self::EhtGi(_) => NL80211_RATE_INFO_EHT_GI,
            Self::EhtRuAlloc(_) => NL80211_RATE_INFO_EHT_RU_ALLOC,
            Self::Other(nla) => nla.kind,
        }
    }

    open spec fn spec_value(&self) -> Value {
        match self {
            Self::Bitrate(d) => Value::U16(*d),
            Self::Mcs(d)
            | Self::VhtMcs(d)
            | Self::VhtNss(d)
            | Self::HeMcs(d)
            | Self::HeNss(d)
            | Self::HeGi(d)
            | Self::HeDcm(d)
            | Self::HeRuAlloc(d)
            | Self::EhtMcs(d)
            | Self::EhtNss(d)
            | Self::EhtGi(d)
            | Self::EhtRuAlloc(d) => Value::U8(*d),
            Self::Mhz40Width
            | Self::ShortGi
            | Self::Mhz80Width
            | Self::Mhz80P80Width
            | Self::Mhz160Width
            | Self::Mhz10Width
            | Self::Mhz5Width
            | Self::Mhz320Width => Value::Flag,
            Self::Bitrate32(d) => Value::U32(*d),
            Self::Other(nla) => Value::Bytes(nla.value@),
        }
    }

    open spec fn canonical(&self, index: nat) -> bool {
        match self {
            Self::Other(nla) => Namespace::RateInfo.shape(nla_type(nla.kind)) is None,
            _ => true,
        }
    }

    open spec fn lossless(&self) -> bool {
        match self {
            Self::Other(nla) => nla_type_is_stable(nla.kind),
            _ => true,
        }
    }

    proof fn lemma_conforms(&self, index: nat) {
        match self {
            Self::Other(nla) => {},
            _ => crate::nla::lemma_plain_kind(self.spec_kind(index)),
        }
    }

    fn nla_kind(&self, index: usize) -> (k: u16) {
        match self {
            Self::Bitrate(_) => NL80211_RATE_INFO_BITRATE,
            Self::Mcs(_) => NL80211_RATE_INFO_MCS,
            Self::Mhz40Width => NL80211_RATE_INFO_40_MHZ_WIDTH,
            Self::ShortGi => NL80211_RATE_INFO_SHORT_GI,
            Self::Bitrate32(_) => NL80211_RATE_INFO_BITRATE32,
            Self::VhtMcs(_) => NL80211_RATE_INFO_VHT_MCS,
            Self::VhtNss(_) => NL80211_RATE_INFO_VHT_NSS,
            Self::Mhz80Width => NL80211_RATE_INFO_80_MHZ_WIDTH,
            Self::Mhz80P80Width => NL80211_RATE_INFO_80P80_MHZ_WIDTH,
            Self::Mhz160Width => NL80211_RATE_INFO_160_MHZ_WIDTH,
            Self::Mhz10Width => NL80211_RATE_INFO_10_MHZ_WIDTH,
            Self::Mhz5Width => NL80211_RATE_INFO_5_MHZ_WIDTH,
            Self::HeMcs(_) => NL80211_RATE_INFO_HE_MCS,
            Self::HeNss(_) => NL80211_RATE_INFO_HE_NSS,
            Self::HeGi(_) => NL80211_RATE_INFO_HE_GI,
            Self::HeDcm(_) => NL80211_RATE_INFO_HE_DCM,
            Self::HeRuAlloc(_) => NL80211_RATE_INFO_HE_RU_ALLOC,
            Self::Mhz320Width => NL80211_RATE_INFO_320_MHZ_WIDTH,
            Self::EhtMcs(_) => NL80211_RATE_INFO_EHT_MCS,
            Self::EhtNss(_) => NL80211_RATE_INFO_EHT_NSS,
            Self::EhtGi(_) => NL80211_RATE_INFO_EHT_GI,
            Self::EhtRuAlloc(_) => NL80211_RATE_INFO_EHT_RU_ALLOC,
            Self::Other(nla) => nla.kind,
        }
    }

    fn nla_value_len(&self) -> (n: usize) {
        match self {
            Self::Bitrate(_) => 2,
            Self::Mcs(_)
            | Self::VhtMcs(_)
            | Self::VhtNss(_)
            | Self::HeMcs(_)
            | Self::HeNss(_)
            | Self::HeGi(_)
            | Self::HeDcm(_)
            | Self::HeRuAlloc(_)
            | Self::EhtMcs(_)
            | Self::EhtNss(_)
            | Self::EhtGi(_)
            | Self::EhtRuAlloc(_) => 1,
            Self::Mhz40Width
            | Self::ShortGi
            | Self::Mhz80Width
            | Self::Mhz80P80Width
            | Self::Mhz160Width
            | Self::Mhz10Width
            | Self::Mhz5Width
            | Self::Mhz320Width => 0,
            Self::Bitrate32(_) => 4,
            Self::Other(nla) => nla.value.len(),
        }
    }

    fn nla_encoded_len(&self) -> (r: Option<usize>) {
        match self {
            Self::Bitrate(_) => Some(2),
            Self::Mcs(_)
            | Self::VhtMcs(_)
            | Self::VhtNss(_)
            | Self::HeMcs(_)
            | Self::HeNss(_)
            | Self::HeGi(_)
            | Self::HeDcm(_)
            | Self::HeRuAlloc(_)
            | Self::EhtMcs(_)
            | Self::EhtNss(_)
            | Self::EhtGi(_)
            | Self::EhtRuAlloc(_) => Some(1),
            Self::Mhz40Width
            | Self::ShortGi
            | Self::Mhz80Width
            | Self::Mhz80P80Width
            | Self::Mhz160Width
            | Self::Mhz10Width
            | Self::Mhz5Width
            | Self::Mhz320Width => Some(0),
            Self::Bitrate32(_) => Some(4),
            Self::Other(nla) => Some(nla.value.len()),
        }
    }

    fn nla_emit_value(&self, out: &mut Vec<u8>) {
        match self {
            Self::Bitrate(d) => push_u16(out, *d),
            Self::Mcs(d)
            | Self::VhtMcs(d)
            | Self::VhtNss(d)
            | Self::HeMcs(d)
            | Self::HeNss(d)
            | Self::HeGi(d)
            | Self::HeDcm(d)
            | Self::HeRuAlloc(d)
            | Self::EhtMcs(d)
            | Self::EhtNss(d)
            | Self::EhtGi(d)
            | Self::EhtRuAlloc(d) => push_u8(out, *d),
            Self::Mhz40Width
            | Self::ShortGi
            | Self::Mhz80Width
            | Self::Mhz80P80Width
            | Self::Mhz160Width
            | Self::Mhz10Width
            | Self::Mhz5Width
            | Self::Mhz320Width => {
                assert(out@ + Seq::<u8>::empty() =~= out@);
            },
            Self::Bitrate32(d) => push_u32(out, *d),
            Self::Other(nla) => push_bytes(out, nla.value.as_slice()),
        }
    }

    fn nla_parse(index: usize, kind: u16, payload: &[u8]) -> (r: Result<Self, Nl80211ErrorKind>) {
        Ok(
            match kind & NLA_TYPE_MASK {
                NL80211_RATE_INFO_BITRATE => Self::Bitrate(decode_u16(payload)?),
                NL80211_RATE_INFO_MCS => Self::Mcs(decode_u8(payload)?),
                NL80211_RATE_INFO_40_MHZ_WIDTH => Self::Mhz40Width,
                NL80211_RATE_INFO_SHORT_GI => Self::ShortGi,
                NL80211_RATE_INFO_BITRATE32 => Self::Bitrate32(decode_u32(payload)?),
                NL80211_RATE_INFO_VHT_MCS => Self::VhtMcs(decode_u8(payload)?),
                NL80211_RATE_INFO_VHT_NSS => Self::VhtNss(decode_u8(payload)?),
                NL80211_RATE_INFO_80_MHZ_WIDTH => Self::Mhz80Width,
                NL80211_RATE_INFO_80P80_MHZ_WIDTH => Self::Mhz80P80Width,
                NL80211_RATE_INFO_160_MHZ_WIDTH => Self::Mhz160Width,
                NL80211_RATE_INFO_10_MHZ_WIDTH => Self::Mhz10Width,
                NL80211_RATE_INFO_5_MHZ_WIDTH => Self::Mhz5Width,
                NL80211_RATE_INFO_HE_MCS => Self::HeMcs(decode_u8(payload)?),
                NL80211_RATE_INFO_HE_NSS => Self::HeNss(decode_u8(payload)?),
                NL80211_RATE_INFO_HE_GI => Self::HeGi(decode_u8(payload)?),
                NL80211_RATE_INFO_HE_DCM => Self::HeDcm(decode_u8(payload)?),
                NL80211_RATE_INFO_HE_RU_ALLOC => Self::HeRuAlloc(decode_u8(payload)?),
                NL80211_RATE_INFO_320_MHZ_WIDTH => Self::Mhz320Width,
                NL80211_RATE_INFO_EHT_MCS => Self::EhtMcs(decode_u8(payload)?),
                NL80211_RATE_INFO_EHT_NSS => Self::EhtNss(decode_u8(payload)?),
                NL80211_RATE_INFO_EHT_GI => Self::EhtGi(decode_u8(payload)?),
                NL80211_RATE_INFO_EHT_RU_ALLOC => Self::EhtRuAlloc(decode_u8(payload)?),
                _ => Self::Other(RawNla::new(kind, slice_to_vec(payload))),
            },
        )
    }
}

} // verus!
