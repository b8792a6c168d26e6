// SPDX-License-Identifier: MIT

//! Waking the system on wireless events.

use vstd::prelude::*;
use vstd::slice::{slice_subrange, slice_to_vec};

use crate::bytes::{decode_u32, host_u32_bytes, push_bytes, push_u32};
use crate::codec::Nl80211Nla;
use crate::error::Nl80211ErrorKind;
use crate::nla::{nla_type, nla_type_is_stable, RawNla, NLA_TYPE_MASK};
use crate::schema::Namespace;
use crate::wire::Value;

verus! {

pub const NL80211_WOWLAN_TRIG_ANY: u16 = 1;
pub const NL80211_WOWLAN_TRIG_DISCONNECT: u16 = 2;
pub const NL80211_WOWLAN_TRIG_MAGIC_PKT: u16 = 3;
pub const NL80211_WOWLAN_TRIG_PKT_PATTERN: u16 = 4;
pub const NL80211_WOWLAN_TRIG_GTK_REKEY_SUPPORTED: u16 = 5;
pub const NL80211_WOWLAN_TRIG_GTK_REKEY_FAILURE: u16 = 6;
pub const NL80211_WOWLAN_TRIG_EAP_IDENT_REQUEST: u16 = 7;
pub const NL80211_WOWLAN_TRIG_4WAY_HANDSHAKE: u16 = 8;
pub const NL80211_WOWLAN_TRIG_RFKILL_RELEASE: u16 = 9;
pub const NL80211_WOWLAN_TRIG_NET_DETECT: u16 = 18;

/// The patterns that a device can match to wake the system.
#[derive(Debug, PartialEq, Eq, Clone, Copy)]
pub struct Nl80211WowlanTrigerPatternSupport {
    /// How many patterns the device can hold
    pub max_patterns: u32,
    /// Least length of a pattern
    pub min_pattern_len: u32,
    /// Greatest length of a pattern
    pub max_pattern_len: u32,
    /// Greatest offset of a pattern in a packet
    pub max_pkt_offset: u32,
}

impl Nl80211WowlanTrigerPatternSupport {
    /// Number of bytes of the four numbers.
    pub const LENGTH: usize = 16;

    /// The bytes of the four numbers, each in host byte order.
    pub open spec fn spec_bytes(&self) -> Seq<u8> {
        host_u32_bytes(self.max_patterns) + host_u32_bytes(self.min_pattern_len) + host_u32_bytes(
            self.max_pattern_len,
        ) + host_u32_bytes(self.max_pkt_offset)
    }

    /// Reads the four numbers from a buffer of exactly sixteen bytes.
    pub fn parse(payload: &[u8]) -> (r: Result<Self, Nl80211ErrorKind>)
        ensures
            match r {
                Ok(p) => payload@.len() == 16 && p.spec_bytes() == payload@,
                Err(e) => payload@.len() != 16 && e == Nl80211ErrorKind::WrongLength,
            },
    {
        if payload.len() != Self::LENGTH {
            return Err(Nl80211ErrorKind::WrongLength);
        }
        let a: &[u8] = slice_subrange(payload, 0, 4);
        let b: &[u8] = slice_subrange(payload, 4, 8);
        let c: &[u8] = slice_subrange(payload, 8, 12);
        let d: &[u8] = slice_subrange(payload, 12, 16);
        proof {
            crate::bytes::lemma_host_u32_bytes_roundtrip(a@);
            crate::bytes::lemma_host_u32_bytes_roundtrip(b@);
            crate::bytes::lemma_host_u32_bytes_roundtrip(c@);
            crate::bytes::lemma_host_u32_bytes_roundtrip(d@);
            assert(a@ + b@ + c@ + d@ =~= payload@);
        }
        Ok(
            Nl80211WowlanTrigerPatternSupport {
                max_patterns: decode_u32(a)?,
                min_pattern_len: decode_u32(b)?,
                max_pattern_len: decode_u32(c)?,
                max_pkt_offset: decode_u32(d)?,
            },
        )
    }

    /// Appends the bytes of the four numbers to `out`.
    pub fn emit(&self, out: &mut Vec<u8>)
        ensures
            final(out)@ == old(out)@ + self.spec_bytes(),
    {
        push_u32(out, self.max_patterns);
        push_u32(out, self.min_pattern_len);
        push_u32(out, self.max_pattern_len);
        push_u32(out, self.max_pkt_offset);
        proof {
            crate::bytes::lemma_host_u32_roundtrip(self.max_patterns);
            crate::bytes::lemma_host_u32_roundtrip(self.min_pattern_len);
            crate::bytes::lemma_host_u32_roundtrip(self.max_pattern_len);
            crate::bytes::lemma_host_u32_roundtrip(self.max_pkt_offset);
            assert(out@ =~= old(out)@ + self.spec_bytes());
        }
    }
}

/// One of the triggers on which a device can wake the system.
#[derive(Debug, PartialEq, Eq, Clone)]
#[non_exhaustive]
pub enum Nl80211WowlanTrigersSupport {
    /// Wake up on any activity, without really suspending the device
    Any,
    /// Wake up on disconnect
    Disconnect,
    /// Wake up on a magic packet
    MagicPkt,
    /// Wake up on a pattern match
    PktPattern(Nl80211WowlanTrigerPatternSupport),
    /// The group key can be renewed while the system sleeps
    GtkRekeySupported,
    /// Wake up when the renewal of the group key fails
    GtkRekeyFailure,
    /// Wake up on an EAP identity request
    EapIdentRequest,
    /// Wake up on a four-way handshake
    FourWayHandshake,
    /// Wake up when the radio kill switch is released
    RfkillRelease,
    /// Wake up when a configured network is detected: the highest number of
    /// match sets
    NetDetect(u32),
    /// A record of a kind that has no variant: its type field and its bytes
    Other(RawNla),
}

impl Nl80211Nla for Nl80211WowlanTrigersSupport {
    open spec fn namespace() -> Namespace {
        Namespace::Wowlan
    }

    open spec fn spec_kind(&self, index: nat) -> u16 {
        match self {
            Self::Any => NL80211_WOWLAN_TRIG_ANY,
            Self::Disconnect => NL80211_WOWLAN_TRIG_DISCONNECT,
            Self::MagicPkt => NL80211_WOWLAN_TRIG_MAGIC_PKT,
            Self::PktPattern(_) => NL80211_WOWLAN_TRIG_PKT_PATTERN,
            Self::GtkRekeySupported => NL80211_WOWLAN_TRIG_GTK_REKEY_SUPPORTED,
            Self::GtkRekeyFailure => NL80211_WOWLAN_TRIG_GTK_REKEY_FAILURE,
            Self::EapIdentRequest => NL80211_WOWLAN_TRIG_EAP_IDENT_REQUEST,
            Self::FourWayHandshake => NL80211_WOWLAN_TRIG_4WAY_HANDSHAKE,
            Self::RfkillRelease => NL80211_WOWLAN_TRIG_RFKILL_RELEASE,
            Self::NetDetect(_) => NL80211_WOWLAN_TRIG_NET_DETECT,
            Self::Other(nla) => nla.kind,
        }
    }

    open spec fn spec_value(&self) -> Value {
        match self {
            Self::Any
            | Self::Disconnect
            | Self::MagicPkt
            | Self::GtkRekeySupported
            | Self::GtkRekeyFailure
            | Self::EapIdentRequest
            | Self::FourWayHandshake
            | Self::RfkillRelease => Value::Flag,
            Self::PktPattern(d) => Value::Bytes(d.spec_bytes()),
            Self::NetDetect(d) => Value::U32(*d),
            Self::Other(nla) => Value::Bytes(nla.value@),
        }
    }

    open spec fn canonical(&self, index: nat) -> bool {
        match self {
            Self::Other(nla) => Namespace::Wowlan.shape(nla_type(nla.kind)) is None,
            _ => true,
        }
    }

    open spec fn lossless(&self) -> bool {
        match self {
            Self::Other(nla) => nla_type_is_stable(nla.kind),
            _ => true,
        }
    }

    proof fn lemma_conforms(&self, index: nat) {
        match self {
            Self::Other(nla) => {},
            _ => crate::nla::lemma_plain_kind(self.spec_kind(index)),
        }
    }

    fn nla_kind(&self, index: usize) -> (k: u16) {
        match self {
            Self::Any => NL80211_WOWLAN_TRIG_ANY,
            Self::Disconnect => NL80211_WOWLAN_TRIG_DISCONNECT,
            Self::MagicPkt => NL80211_WOWLAN_TRIG_MAGIC_PKT,
            Self::PktPattern(_) => NL80211_WOWLAN_TRIG_PKT_PATTERN,
            Self::GtkRekeySupported => NL80211_WOWLAN_TRIG_GTK_REKEY_SUPPORTED,
            Self::GtkRekeyFailure => NL80211_WOWLAN_TRIG_GTK_REKEY_FAILURE,
            Self::EapIdentRequest => NL80211_WOWLAN_TRIG_EAP_IDENT_REQUEST,
            Self::FourWayHandshake => NL80211_WOWLAN_TRIG_4WAY_HANDSHAKE,
            Self::RfkillRelease => NL80211_WOWLAN_TRIG_RFKILL_RELEASE,
            Self::NetDetect(_) => NL80211_WOWLAN_TRIG_NET_DETECT,
            Self::Other(nla) => nla.kind,
        }
    }

    fn nla_value_len(&self) -> (n: usize) {
        match self {
            Self::Any
            | Self::Disconnect
            | Self::MagicPkt
            | Self::GtkRekeySupported
            | Self::GtkRekeyFailure
            | Self::EapIdentRequest
            | Self::FourWayHandshake
            | Self::RfkillRelease => 0,
            Self::PktPattern(_) => 16,
            Self::NetDetect(_) => 4,
            Self::Other(nla) => nla.value.len(),
        }
    }

    fn nla_encoded_len(&self) -> (r: Option<usize>) {
        match self {
            Self::Any
            | Self::Disconnect
            | Self::MagicPkt
            | Self::GtkRekeySupported
            | Self::GtkRekeyFailure
            | Self::EapIdentRequest
            | Self::FourWayHandshake
            | Self::RfkillRelease => Some(0),
            Self::PktPattern(_) => Some(16),
            Self::NetDetect(_) => Some(4),
            Self::Other(nla) => Some(nla.value.len()),
        }
    }

    fn nla_emit_value(&self, out: &mut Vec<u8>) {
        match self {
            Self::Any
            | Self::Disconnect
            | Self::MagicPkt
            | Self::GtkRekeySupported
            | Self::GtkRekeyFailure
            | Self::EapIdentRequest
            | Self::FourWayHandshake
            | Self::RfkillRelease => {
                assert(out@ + Seq::<u8>::empty() =~= out@);
            },
            Self::PktPattern(d) => d.emit(out),
            Self::NetDetect(d) => push_u32(out, *d),
            Self::Other(nla) => push_bytes(out, nla.value.as_slice()),
        }
    }

    fn nla_parse(index: usize, kind: u16, payload: &[u8]) -> (r: Result<Self, Nl80211ErrorKind>) {
        Ok(
            match kind & NLA_TYPE_MASK {
                NL80211_WOWLAN_TRIG_ANY => Self::Any,
                NL80211_WOWLAN_TRIG_DISCONNECT => Self::Disconnect,
                NL80211_WOWLAN_TRIG_MAGIC_PKT => Self::MagicPkt,
                NL80211_WOWLAN_TRIG_PKT_PATTERN =>
                    Self::PktPattern(Nl80211WowlanTrigerPatternSupport::parse(payload)?),
                NL80211_WOWLAN_TRIG_GTK_REKEY_SUPPORTED => Self::GtkRekeySupported,
                NL80211_WOWLAN_TRIG_GTK_REKEY_FAILURE => Self::GtkRekeyFailure,
                NL80211_WOWLAN_TRIG_EAP_IDENT_REQUEST => Self::EapIdentRequest,
                NL80211_WOWLAN_TRIG_4WAY_HANDSHAKE => Self::FourWayHandshake,
                NL80211_WOWLAN_TRIG_RFKILL_RELEASE => Self::RfkillRelease,
                NL80211_WOWLAN_TRIG_NET_DETECT => Self::NetDetect(decode_u32(payload)?),
                _ => Self::Other(RawNla::new(kind, slice_to_vec(payload))),
            },
        )
    }
}

} // verus!
