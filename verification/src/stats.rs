// SPDX-License-Identifier: MIT

//! Statistics of a transmit queue.

use vstd::prelude::*;
use vstd::slice::slice_to_vec;

use crate::bytes::{decode_u32, push_bytes, push_u32};
use crate::codec::Nl80211Nla;
use crate::error::Nl80211ErrorKind;
use crate::nla::{nla_type, nla_type_is_stable, RawNla, NLA_TYPE_MASK};
use crate::schema::Namespace;
use crate::wire::Value;

verus! {

pub const NL80211_TXQ_STATS_BACKLOG_BYTES: u16 = 1;
pub const NL80211_TXQ_STATS_BACKLOG_PACKETS: u16 = 2;
pub const NL80211_TXQ_STATS_FLOWS: u16 = 3;
pub const NL80211_TXQ_STATS_DROPS: u16 = 4;
pub const NL80211_TXQ_STATS_ECN_MARKS: u16 = 5;
pub const NL80211_TXQ_STATS_OVERLIMIT: u16 = 6;
pub const NL80211_TXQ_STATS_OVERMEMORY: u16 = 7;
pub const NL80211_TXQ_STATS_COLLISIONS: u16 = 8;
pub const NL80211_TXQ_STATS_TX_BYTES: u16 = 9;
pub const NL80211_TXQ_STATS_TX_PACKETS: u16 = 10;
pub const NL80211_TXQ_STATS_MAX_FLOWS: u16 = 11;

/// One statistic of a transmit queue.
#[derive(Debug, PartialEq, Eq, Clone)]
#[non_exhaustive]
pub enum Nl80211TransmitQueueStat {
    /// Number of bytes currently backlogged
    BacklogBytes(u32),
    /// Number of packets currently backlogged
    BacklogPackets(u32),
    /// Total number of new flows seen
    Flows(u32),
    /// Total number of packet drops
    Drops(u32),
    /// Total number of packet ECN marks
    EcnMarks(u32),
    /// Number of drops due to queue space overflow
    Overlimit(u32),
    /// Number of drops due to memory limit overflow
    Overmemory(u32),
    /// Number of hash collisions
    Collisions(u32),
    /// Total number of bytes dequeued
    TxBytes(u32),
    /// Total number of packets dequeued
    TxPackets(u32),
    /// Number of flow buckets
    MaxFlows(u32),
    /// A record of a kind that has no variant: its type field and its bytes
    Other(RawNla),
}

impl Nl80211Nla for Nl80211TransmitQueueStat {
    open spec fn namespace() -> Namespace {
        Namespace::TxqStats
    }

    open spec fn spec_kind(&self, index: nat) -> u16 {
        match self {
            Self::BacklogBytes(_) => NL80211_TXQ_STATS_BACKLOG_BYTES,
            Self::BacklogPackets(_) => NL80211_TXQ_STATS_BACKLOG_PACKETS,
            Self::Flows(_) => NL80211_TXQ_STATS_FLOWS,
            Self::Drops(_) => NL80211_TXQ_STATS_DROPS,
            Self::EcnMarks(_) => NL80211_TXQ_STATS_ECN_MARKS,
            Self::Overlimit(_) => NL80211_TXQ_STATS_OVERLIMIT,
            Self::Overmemory(_) => NL80211_TXQ_STATS_OVERMEMORY,
            Self::Collisions(_) => NL80211_TXQ_STATS_COLLISIONS,
            Self::TxBytes(_) => NL80211_TXQ_STATS_TX_BYTES,
            Self::TxPackets(_) => NL80211_TXQ_STATS_TX_PACKETS,
            Self::MaxFlows(_) => NL80211_TXQ_STATS_MAX_FLOWS,
            Self::Other(nla) => nla.kind,
        }
    }

    open spec fn spec_value(&self) -> Value {
        match self {
            Self::BacklogBytes(d)
            | Self::BacklogPackets(d)
            | Self::Flows(d)
            | Self::Drops(d)
            | Self::EcnMarks(d)
            | Self::Overlimit(d)
            | Self::Overmemory(d)
            | Self::Collisions(d)
            | Self::TxBytes(d)
            | Self::TxPackets(d)
            | Self::MaxFlows(d) => Value::U32(*d),
            Self::Other(nla) => Value::Bytes(nla.value@),
        }
    }

    open spec fn canonical(&self, index: nat) -> bool {
        match self {
            Self::Other(nla) => Namespace::TxqStats.shape(nla_type(nla.kind)) is None,
            _ => true,
        }
    }

    open spec fn lossless(&self) -> bool {
        match self {
            Self::Other(nla) => nla_type_is_stable(nla.kind),
            _ => true,
        }
    }

    proof fn lemma_conforms(&self, index: nat) {
        match self {
            Self::Other(nla) => {},
            _ => crate::nla::lemma_plain_kind(self.spec_kind(index)),
        }
    }

    fn nla_kind(&self, index: usize) -> (k: u16) {
        match self {
            Self::BacklogBytes(_) => NL80211_TXQ_STATS_BACKLOG_BYTES,
            Self::BacklogPackets(_) => NL80211_TXQ_STATS_BACKLOG_PACKETS,
            Self::Flows(_) => NL80211_TXQ_STATS_FLOWS,
            Self::Drops(_) => NL80211_TXQ_STATS_DROPS,
            Self::EcnMarks(_) => NL80211_TXQ_STATS_ECN_MARKS,
            Self::Overlimit(_) => NL80211_TXQ_STATS_OVERLIMIT,
            Self::Overmemory(_) => NL80211_TXQ_STATS_OVERMEMORY,
            Self::Collisions(_) => NL80211_TXQ_STATS_COLLISIONS,
            Self::TxBytes(_) => NL80211_TXQ_STATS_TX_BYTES,
            Self::TxPackets(_) => NL80211_TXQ_STATS_TX_PACKETS,
            Self::MaxFlows(_) => NL80211_TXQ_STATS_MAX_FLOWS,
            Self::Other(nla) => nla.kind,
        }
    }

    fn nla_value_len(&self) -> (n: usize) {
        match self {
            Self::BacklogBytes(_)
            | Self::BacklogPackets(_)
            | Self::Flows(_)
            | Self::Drops(_)
            | Self::EcnMarks(_)
            | Self::Overlimit(_)
            | Self::Overmemory(_)
            | Self::Collisions(_)
            | Self::TxBytes(_)
            | Self::TxPackets(_)
            | Self::MaxFlows(_) => 4,
            Self::Other(nla) => nla.value.len(),
        }
    }

    fn nla_encoded_len(&self) -> (r: Option<usize>) {
        match self {
            Self::BacklogBytes(_)
            | Self::BacklogPackets(_)
            | Self::Flows(_)
            | Self::Drops(_)
            | Self::EcnMarks(_)
            | Self::Overlimit(_)
            | Self::Overmemory(_)
            | Self::Collisions(_)
            | Self::TxBytes(_)
            | Self::TxPackets(_)
            | Self::MaxFlows(_) => Some(4),
            Self::Other(nla) => Some(nla.value.len()),
        }
    }

    fn nla_emit_value(&self, out: &mut Vec<u8>) {
        match self {
            Self::BacklogBytes(d)
            | Self::BacklogPackets(d)
            | Self::Flows(d)
            | Self::Drops(d)
            | Self::EcnMarks(d)
            | Self::Overlimit(d)
            | Self::Overmemory(d)
            | Self::Collisions(d)
            | Self::TxBytes(d)
            | Self::TxPackets(d)
            | Self::MaxFlows(d) => push_u32(out, *d),
            Self::Other(nla) => push_bytes(out, nla.value.as_slice()),
        }
    }

    fn nla_parse(index: usize, kind: u16, payload: &[u8]) -> (r: Result<Self, Nl80211ErrorKind>) {
        Ok(
            match kind & NLA_TYPE_MASK {
                NL80211_TXQ_STATS_BACKLOG_BYTES => Self::BacklogBytes(decode_u32(payload)?),
                NL80211_TXQ_STATS_BACKLOG_PACKETS => Self::BacklogPackets(decode_u32(payload)?),
                NL80211_TXQ_STATS_FLOWS => Self::Flows(decode_u32(payload)?),
                NL80211_TXQ_STATS_DROPS => Self::Drops(decode_u32(payload)?),
                NL80211_TXQ_STATS_ECN_MARKS => Self::EcnMarks(decode_u32(payload)?),
                NL80211_TXQ_STATS_OVERLIMIT => Self::Overlimit(decode_u32(payload)?),
                NL80211_TXQ_STATS_OVERMEMORY => Self::Overmemory(decode_u32(payload)?),
                NL80211_TXQ_STATS_COLLISIONS => Self::Collisions(decode_u32(payload)?),
                NL80211_TXQ_STATS_TX_BYTES => Self::TxBytes(decode_u32(payload)?),
                NL80211_TXQ_STATS_TX_PACKETS => Self::TxPackets(decode_u32(payload)?),
                NL80211_TXQ_STATS_MAX_FLOWS => Self::MaxFlows(decode_u32(payload)?),
                _ => Self::Other(RawNla::new(kind, slice_to_vec(payload))),
            },
        )
    }
}

} // verus!
