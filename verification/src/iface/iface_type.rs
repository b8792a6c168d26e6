// SPDX-License-Identifier: MIT

//! The types of wireless interfaces.

use vstd::prelude::*;

use crate::bytes::decode_u32;
use crate::codec::Nl80211Nla;
use crate::error::Nl80211ErrorKind;
use crate::nla::NLA_TYPE_MASK;
use crate::schema::Namespace;
use crate::wire::Value;

verus! {

pub const NL80211_IFTYPE_UNSPECIFIED: u32 = 0;
pub const NL80211_IFTYPE_ADHOC: u32 = 1;
pub const NL80211_IFTYPE_STATION: u32 = 2;
pub const NL80211_IFTYPE_AP: u32 = 3;
pub const NL80211_IFTYPE_AP_VLAN: u32 = 4;
pub const NL80211_IFTYPE_WDS: u32 = 5;
pub const NL80211_IFTYPE_MONITOR: u32 = 6;
pub const NL80211_IFTYPE_MESH_POINT: u32 = 7;
pub const NL80211_IFTYPE_P2P_CLIENT: u32 = 8;
pub const NL80211_IFTYPE_P2P_GO: u32 = 9;
pub const NL80211_IFTYPE_P2P_DEVICE: u32 = 10;
pub const NL80211_IFTYPE_OCB: u32 = 11;
pub const NL80211_IFTYPE_NAN: u32 = 12;

/// The type of a wireless interface.
#[derive(Debug, PartialEq, Eq, Clone, Copy)]
pub enum Nl80211InterfaceType {
    /// Unspecified type, the driver decides
    Unspecified,
    /// Independent BSS member
    Adhoc,
    /// Managed BSS member
    Station,
    /// Access point
    Ap,
    /// VLAN interface for access points
    ApVlan,
    /// Wireless distribution interface
    Wds,
    /// Monitor interface that receives all frames
    Monitor,
    /// Mesh point
    MeshPoint,
    /// P2P client
    P2pClient,
    /// P2P group owner
    P2pGo,
    /// P2P device, without a network interface
    P2pDevice,
    /// Outside the context of a BSS
    Ocb,
    /// NAN device, without a network interface
    Nan,
    /// A number without a name
    Other(u32),
}

impl Nl80211InterfaceType {
    /// The value that a number stands for.
    pub open spec fn spec_from_u32(d: u32) -> Nl80211InterfaceType {
        match d {
            NL80211_IFTYPE_UNSPECIFIED => Nl80211InterfaceType::Unspecified,
            NL80211_IFTYPE_ADHOC => Nl80211InterfaceType::Adhoc,
            NL80211_IFTYPE_STATION => Nl80211InterfaceType::Station,
            NL80211_IFTYPE_AP => Nl80211InterfaceType::Ap,
            NL80211_IFTYPE_AP_VLAN => Nl80211InterfaceType::ApVlan,
            NL80211_IFTYPE_WDS => Nl80211InterfaceType::Wds,
            NL80211_IFTYPE_MONITOR => Nl80211InterfaceType::Monitor,
            NL80211_IFTYPE_MESH_POINT => Nl80211InterfaceType::MeshPoint,
            NL80211_IFTYPE_P2P_CLIENT => Nl80211InterfaceType::P2pClient,
            NL80211_IFTYPE_P2P_GO => Nl80211InterfaceType::P2pGo,
            NL80211_IFTYPE_P2P_DEVICE => Nl80211InterfaceType::P2pDevice,
            NL80211_IFTYPE_OCB => Nl80211InterfaceType::Ocb,
            NL80211_IFTYPE_NAN => Nl80211InterfaceType::Nan,
            _ => Nl80211InterfaceType::Other(d),
        }
    }

    /// The number that stands for a value.
    pub open spec fn spec_to_u32(self) -> u32 {
        match self {
            Nl80211InterfaceType::Unspecified => NL80211_IFTYPE_UNSPECIFIED,
            Nl80211InterfaceType::Adhoc => NL80211_IFTYPE_ADHOC,
            Nl80211InterfaceType::Station => NL80211_IFTYPE_STATION,
            Nl80211InterfaceType::Ap => NL80211_IFTYPE_AP,
            Nl80211InterfaceType::ApVlan => NL80211_IFTYPE_AP_VLAN,
            Nl80211InterfaceType::Wds => NL80211_IFTYPE_WDS,
            Nl80211InterfaceType::Monitor => NL80211_IFTYPE_MONITOR,
            Nl80211InterfaceType::MeshPoint => NL80211_IFTYPE_MESH_POINT,
            Nl80211InterfaceType::P2pClient => NL80211_IFTYPE_P2P_CLIENT,
            Nl80211InterfaceType::P2pGo => NL80211_IFTYPE_P2P_GO,
            Nl80211InterfaceType::P2pDevice => NL80211_IFTYPE_P2P_DEVICE,
            Nl80211InterfaceType::Ocb => NL80211_IFTYPE_OCB,
            Nl80211InterfaceType::Nan => NL80211_IFTYPE_NAN,
            Nl80211InterfaceType::Other(d) => d,
        }
    }

    /// Whether the value is the one that its number is read as: a number
    /// that has a name does not stand in `Other`.
    pub open spec fn canonical(self) -> bool {
        Nl80211InterfaceType::spec_from_u32(self.spec_to_u32()) == self
    }

    /// Every number stands for a value in canonical form, and that value
    /// stands for the number.
    pub proof fn lemma_from_to(d: u32)
        ensures
            Nl80211InterfaceType::spec_from_u32(d).spec_to_u32() == d,
            Nl80211InterfaceType::spec_from_u32(d).canonical(),
    {
    }

    /// The value that a number stands for.
    pub fn from_u32(d: u32) -> (r: Self)
        ensures
            r == Nl80211InterfaceType::spec_from_u32(d),
    {
        match d {
            NL80211_IFTYPE_UNSPECIFIED => Self::Unspecified,
            NL80211_IFTYPE_ADHOC => Self::Adhoc,
            NL80211_IFTYPE_STATION => Self::Station,
            NL80211_IFTYPE_AP => Self::Ap,
            NL80211_IFTYPE_AP_VLAN => Self::ApVlan,
            NL80211_IFTYPE_WDS => Self::Wds,
            NL80211_IFTYPE_MONITOR => Self::Monitor,
            NL80211_IFTYPE_MESH_POINT => Self::MeshPoint,
            NL80211_IFTYPE_P2P_CLIENT => Self::P2pClient,
            NL80211_IFTYPE_P2P_GO => Self::P2pGo,
            NL80211_IFTYPE_P2P_DEVICE => Self::P2pDevice,
            NL80211_IFTYPE_OCB => Self::Ocb,
            NL80211_IFTYPE_NAN => Self::Nan,
            _ => Self::Other(d),
        }
    }

    /// The number that stands for the value.
    pub fn to_u32(self) -> (r: u32)
        ensures
            r == self.spec_to_u32(),
    {
        match self {
            Nl80211InterfaceType::Unspecified => NL80211_IFTYPE_UNSPECIFIED,
            Nl80211InterfaceType::Adhoc => NL80211_IFTYPE_ADHOC,
            Nl80211InterfaceType::Station => NL80211_IFTYPE_STATION,
            Nl80211InterfaceType::Ap => NL80211_IFTYPE_AP,
            Nl80211InterfaceType::ApVlan => NL80211_IFTYPE_AP_VLAN,
            Nl80211InterfaceType::Wds => NL80211_IFTYPE_WDS,
            Nl80211InterfaceType::Monitor => NL80211_IFTYPE_MONITOR,
            Nl80211InterfaceType::MeshPoint => NL80211_IFTYPE_MESH_POINT,
            Nl80211InterfaceType::P2pClient => NL80211_IFTYPE_P2P_CLIENT,
            Nl80211InterfaceType::P2pGo => NL80211_IFTYPE_P2P_GO,
            Nl80211InterfaceType::P2pDevice => NL80211_IFTYPE_P2P_DEVICE,
            Nl80211InterfaceType::Ocb => NL80211_IFTYPE_OCB,
            Nl80211InterfaceType::Nan => NL80211_IFTYPE_NAN,
            Nl80211InterfaceType::Other(d) => d,
        }
    }
}

impl Nl80211InterfaceType {
    /// What reading a buffer gives: the type that its 32-bit integer stands
    /// for.
    pub open spec fn spec_parse(payload: Seq<u8>) -> Result<Nl80211InterfaceType, Nl80211ErrorKind> {
        match crate::bytes::spec_decode_u32(payload) {
            Ok(d) => Ok(Nl80211InterfaceType::spec_from_u32(d)),
            Err(e) => Err(e),
        }
    }

    /// Reads an interface type from the four bytes of a buffer.
    pub fn parse(payload: &[u8]) -> (r: Result<Self, Nl80211ErrorKind>)
        ensures
            r == Nl80211InterfaceType::spec_parse(payload@),
    {
        Ok(Self::from_u32(decode_u32(payload)?))
    }
}

/// In a list of interface types each record says one type by its kind, and
/// has no value.
impl Nl80211Nla for Nl80211InterfaceType {
    open spec fn namespace() -> Namespace {
        Namespace::IfTypes
    }

    open spec fn spec_kind(&self, index: nat) -> u16 {
        (self.spec_to_u32() % 0x1_0000) as u16
    }

    open spec fn spec_value(&self) -> Value {
        Value::Flag
    }

    open spec fn canonical(&self, index: nat) -> bool {
        self.spec_to_u32() <= NLA_TYPE_MASK && Nl80211InterfaceType::canonical(*self)
    }

    open spec fn lossless(&self) -> bool {
        true
    }

    proof fn lemma_conforms(&self, index: nat) {
        crate::nla::lemma_plain_kind(self.spec_kind(index));
    }

    fn nla_kind(&self, index: usize) -> (k: u16) {
        (self.to_u32() % 0x1_0000) as u16
    }

    fn nla_value_len(&self) -> (n: usize) {
        0
    }

    fn nla_encoded_len(&self) -> (r: Option<usize>) {
        Some(0)
    }

    fn nla_emit_value(&self, out: &mut Vec<u8>) {
        assert(out@ + Seq::<u8>::empty() =~= out@);
    }

    fn nla_parse(index: usize, kind: u16, payload: &[u8]) -> (r: Result<Self, Nl80211ErrorKind>) {
        proof {
            crate::nla::lemma_nla_type_bound(kind);
        }
        let d: u32 = (kind & NLA_TYPE_MASK) as u32;
        Ok(Self::from_u32(d))
    }
}

/// An interface type that a device supports.
#[derive(Debug, PartialEq, Eq, Clone, Copy)]
pub struct Nl80211IfMode(pub Nl80211InterfaceType);

impl Nl80211Nla for Nl80211IfMode {
    open spec fn namespace() -> Namespace {
        Namespace::IfTypes
    }

    open spec fn spec_kind(&self, index: nat) -> u16 {
        (self.0.spec_to_u32() % 0x1_0000) as u16
    }

    open spec fn spec_value(&self) -> Value {
        Value::Flag
    }

    open spec fn canonical(&self, index: nat) -> bool {
        self.0.spec_to_u32() <= NLA_TYPE_MASK && Nl80211InterfaceType::canonical(self.0)
    }

    open spec fn lossless(&self) -> bool {
        true
    }

    proof fn lemma_conforms(&self, index: nat) {
        crate::nla::lemma_plain_kind(self.spec_kind(index));
    }

    fn nla_kind(&self, index: usize) -> (k: u16) {
        (self.0.to_u32() % 0x1_0000) as u16
    }

    fn nla_value_len(&self) -> (n: usize) {
        0
    }

    fn nla_encoded_len(&self) -> (r: Option<usize>) {
        Some(0)
    }

    fn nla_emit_value(&self, out: &mut Vec<u8>) {
        assert(out@ + Seq::<u8>::empty() =~= out@);
    }

    fn nla_parse(index: usize, kind: u16, payload: &[u8]) -> (r: Result<Self, Nl80211ErrorKind>) {
        proof {
            crate::nla::lemma_nla_type_bound(kind);
        }
        let d: u32 = (kind & NLA_TYPE_MASK) as u32;
        Ok(Nl80211IfMode(Nl80211InterfaceType::from_u32(d)))
    }
}

} // verus!
