// SPDX-License-Identifier: MIT

//! What holds of the reading and the writing of attributes.

use vstd::prelude::*;

use crate::attr::{
    lemma_mac_records_conform, Nl80211Attr, NL80211_ATTR_AUTH_TYPE, NL80211_ATTR_BEACON_HEAD,
    NL80211_ATTR_BEACON_TAIL, NL80211_ATTR_BSS, NL80211_ATTR_HIDDEN_SSID, NL80211_ATTR_IFINDEX,
    NL80211_ATTR_IFTYPE_EXT_CAPA, NL80211_ATTR_INTERFACE_COMBINATIONS, NL80211_ATTR_MAC_ADDRS,
    NL80211_ATTR_MLO_LINKS, NL80211_ATTR_RX_FRAME_TYPES, NL80211_ATTR_SOFTWARE_IFTYPES,
    NL80211_ATTR_STA_INFO, NL80211_ATTR_SUPPORTED_COMMANDS, NL80211_ATTR_SUPPORTED_IFTYPES,
    NL80211_ATTR_TXQ_STATS, NL80211_ATTR_TX_FRAME_TYPES, NL80211_ATTR_WIPHY_BANDS,
    NL80211_ATTR_WOWLAN_TRIGGERS_SUPPORTED,
};
use crate::codec::{all_lossless, lemma_records_of_conform};
use crate::error::Nl80211DecodeError;
use crate::ext_cap::Nl80211IfTypeExtCapa;
use crate::frame_type::Nl80211IfaceFrameType;
use crate::iface::{Nl80211IfMode, Nl80211IfaceComb, Nl80211InterfaceType};
use crate::command::Nl80211Command;
use crate::mlo::Nl80211MloLink;
use crate::nla::{nla_type, nla_type_is_stable};
use crate::scan::Nl80211BssInfo;
use crate::schema::Namespace;
use crate::station::Nl80211StationInfo;
use crate::stats::Nl80211TransmitQueueStat;
use crate::wiphy::{Nl80211Band, Nl80211WowlanTrigersSupport};
use crate::wire::{encodable, record_matches, value_bytes, Record, Shape, Value};

verus! {

impl Nl80211Attr {
    /// Whether nothing is lost where the attribute is written: each record
    /// of a kind that is not known, in it or in the lists that it holds, has
    /// a type field that is written as it is.
    pub open spec fn lossless(&self) -> bool {
        match self {
            Self::IfTypeExtCap(d) => all_lossless(d@),
            Self::StationInfo(d) => all_lossless(d@),
            Self::TransmitQueueStats(d) => all_lossless(d@),
            Self::MloLinks(d) => all_lossless(d@),
            Self::SupportedIftypes(d) => all_lossless(d@),
            Self::WiphyBands(d) => all_lossless(d@),
            Self::SupportedCommand(d) => all_lossless(d@),
            Self::WowlanTrigersSupport(d) => all_lossless(d@),
            Self::SoftwareIftypes(d) => all_lossless(d@),
            Self::InterfaceCombination(d) => all_lossless(d@),
            Self::TxFrameTypes(d)
            | Self::RxFrameTypes(d) => all_lossless(d@),
            Self::Bss(d) => all_lossless(d@),
            Self::Other(nla) => nla_type_is_stable(nla.kind),
            _ => true,
        }
    }

    /// A canonical attribute that is written without loss stands for a
    /// record that conforms to the table of kinds.
    pub proof fn lemma_conforms(&self)
        requires
            self.canonical(),
            self.lossless(),
            encodable(self@.value),
        ensures
            record_matches(Namespace::Attr, 0, self@),
    {
        match self {
            Self::IfTypeExtCap(d) => {
                crate::nla::lemma_plain_kind(NL80211_ATTR_IFTYPE_EXT_CAPA);
                lemma_records_of_conform::<Nl80211IfTypeExtCapa>(d@, 0);
                assert(
                    Namespace::Attr.shape(NL80211_ATTR_IFTYPE_EXT_CAPA)
                        == Some(Shape::List(Namespace::IfTypeExtCapas))
                );
            },
            Self::StationInfo(d) => {
                crate::nla::lemma_plain_kind(NL80211_ATTR_STA_INFO);
                lemma_records_of_conform::<Nl80211StationInfo>(d@, 0);
                assert(
                    Namespace::Attr.shape(NL80211_ATTR_STA_INFO)
                        == Some(Shape::List(Namespace::Station))
                );
            },
            Self::TransmitQueueStats(d) => {
                crate::nla::lemma_plain_kind(NL80211_ATTR_TXQ_STATS);
                lemma_records_of_conform::<Nl80211TransmitQueueStat>(d@, 0);
                assert(
                    Namespace::Attr.shape(NL80211_ATTR_TXQ_STATS)
                        == Some(Shape::List(Namespace::TxqStats))
                );
            },
            Self::MloLinks(d) => {
                crate::nla::lemma_plain_kind(NL80211_ATTR_MLO_LINKS);
                lemma_records_of_conform::<Nl80211MloLink>(d@, 0);
                assert(
                    Namespace::Attr.shape(NL80211_ATTR_MLO_LINKS)
                        == Some(Shape::List(Namespace::MloLinks))
                );
            },
            Self::SupportedIftypes(d) => {
                crate::nla::lemma_plain_kind(NL80211_ATTR_SUPPORTED_IFTYPES);
                lemma_records_of_conform::<Nl80211IfMode>(d@, 0);
                assert(
                    Namespace::Attr.shape(NL80211_ATTR_SUPPORTED_IFTYPES)
                        == Some(Shape::List(Namespace::IfTypes))
                );
            },
            Self::WiphyBands(d) => {
                crate::nla::lemma_plain_kind(NL80211_ATTR_WIPHY_BANDS);
                lemma_records_of_conform::<Nl80211Band>(d@, 0);
                assert(
                    Namespace::Attr.shape(NL80211_ATTR_WIPHY_BANDS)
                        == Some(Shape::List(Namespace::Bands))
                );
            },
            Self::SupportedCommand(d) => {
                crate::nla::lemma_plain_kind(NL80211_ATTR_SUPPORTED_COMMANDS);
                lemma_records_of_conform::<Nl80211Command>(d@, 0);
                assert(
                    Namespace::Attr.shape(NL80211_ATTR_SUPPORTED_COMMANDS)
                        == Some(Shape::List(Namespace::Commands))
                );
            },
            Self::WowlanTrigersSupport(d) => {
                crate::nla::lemma_plain_kind(NL80211_ATTR_WOWLAN_TRIGGERS_SUPPORTED);
                lemma_records_of_conform::<Nl80211WowlanTrigersSupport>(d@, 0);
                assert(
                    Namespace::Attr.shape(NL80211_ATTR_WOWLAN_TRIGGERS_SUPPORTED)
                        == Some(Shape::List(Namespace::Wowlan))
                );
            },
            Self::SoftwareIftypes(d) => {
                crate::nla::lemma_plain_kind(NL80211_ATTR_SOFTWARE_IFTYPES);
                lemma_records_of_conform::<Nl80211InterfaceType>(d@, 0);
                assert(
                    Namespace::Attr.shape(NL80211_ATTR_SOFTWARE_IFTYPES)
                        == Some(Shape::List(Namespace::IfTypes))
                );
            },
            Self::InterfaceCombination(d) => {
                crate::nla::lemma_plain_kind(NL80211_ATTR_INTERFACE_COMBINATIONS);
                lemma_records_of_conform::<Nl80211IfaceComb>(d@, 0);
                assert(
                    Namespace::Attr.shape(NL80211_ATTR_INTERFACE_COMBINATIONS)
                        == Some(Shape::List(Namespace::IfaceCombs))
                );
            },
            Self::TxFrameTypes(d) => {
                crate::nla::lemma_plain_kind(NL80211_ATTR_TX_FRAME_TYPES);
                lemma_records_of_conform::<Nl80211IfaceFrameType>(d@, 0);
                assert(
                    Namespace::Attr.shape(NL80211_ATTR_TX_FRAME_TYPES)
                        == Some(Shape::List(Namespace::IfaceFrameTypes))
                );
            },
            Self::RxFrameTypes(d) => {
                crate::nla::lemma_plain_kind(NL80211_ATTR_RX_FRAME_TYPES);
                lemma_records_of_conform::<Nl80211IfaceFrameType>(d@, 0);
                assert(
                    Namespace::Attr.shape(NL80211_ATTR_RX_FRAME_TYPES)
                        == Some(Shape::List(Namespace::IfaceFrameTypes))
                );
            },
            Self::Bss(d) => {
                crate::nla::lemma_plain_kind(NL80211_ATTR_BSS);
                lemma_records_of_conform::<Nl80211BssInfo>(d@, 0);
                assert(
                    Namespace::Attr.shape(NL80211_ATTR_BSS)
                        == Some(Shape::List(Namespace::Bss))
                );
            },
            Self::MacAddrs(d) => {
                crate::nla::lemma_plain_kind(NL80211_ATTR_MAC_ADDRS);
                lemma_mac_records_conform(d@, 0);
            },
            Self::Other(nla) => {},
            _ => crate::nla::lemma_plain_kind(self.spec_kind()),
        }
    }

    /// Whether the attribute is the variant that stands for the given kind.
    /// An attribute of a kind that has no variant is the variant of no kind,
    /// whatever kind it holds.
    pub open spec fn is_variant_of(&self, kind: u16) -> bool {
        !(self is Other) && self@.kind == kind
    }

    /// Reading what was written gives what was written: a record that
    /// conforms to the table of kinds is read back from its kind and the
    /// bytes of its value. Its kind is written as it is.
    pub proof fn lemma_record_roundtrip(r: Record)
        requires
            record_matches(Namespace::Attr, 0, r),
        ensures
            Nl80211Attr::spec_parse(r.kind, value_bytes(r.value)) == Ok::<
                Record,
                Nl80211DecodeError,
            >(r),
            crate::nla::nla_emitted_type(r.kind) == r.kind,
    {
        crate::nla::lemma_emitted_type_kind(r.kind);
        crate::nla::lemma_nla_type_bound(crate::nla::nla_emitted_type(r.kind));
        match Namespace::Attr.shape(nla_type(r.kind)) {
            Some(shape) => {
                crate::nla::lemma_plain_kind(r.kind);
                crate::wire::lemma_value_roundtrip(shape, r.value);
            },
            None => {},
        }
    }

    /// Reading what was written gives what was written: an attribute in
    /// canonical form, written without loss, is read back from its kind and
    /// the bytes of its value.
    pub proof fn lemma_roundtrip(&self)
        requires
            self.canonical(),
            self.lossless(),
            encodable(self@.value),
        ensures
            Nl80211Attr::spec_parse(self@.kind, value_bytes(self@.value)) == Ok::<
                Record,
                Nl80211DecodeError,
            >(self@),
    {
        self.lemma_conforms();
        Nl80211Attr::lemma_record_roundtrip(self@);
    }

    /// The bytes that are written for the value of an attribute are as many
    /// as its length says.
    pub proof fn lemma_value_len(&self)
        ensures
            value_bytes(self@.value).len() == crate::wire::value_size(self@.value),
    {
        crate::wire::lemma_value_bytes_len(self@.value);
    }

    /// The variant of a kind is the one variant that has the kind: of the
    /// kinds by which attributes are kept in a request or left out of it,
    /// these are the variants.
    pub proof fn lemma_variant_of_kind(&self)
        ensures
            self.is_variant_of(NL80211_ATTR_IFINDEX) <==> self is IfIndex,
            self.is_variant_of(NL80211_ATTR_BEACON_HEAD) <==> self is BeaconHead,
            self.is_variant_of(NL80211_ATTR_BEACON_TAIL) <==> self is BeaconTail,
            self.is_variant_of(NL80211_ATTR_AUTH_TYPE) <==> self is AuthType,
            self.is_variant_of(NL80211_ATTR_HIDDEN_SSID) <==> self is HiddenSsid,
    {
    }

    /// A kind that the table does not hold is no error: the attribute is read
    /// as its type field and its bytes.
    pub proof fn lemma_unknown_kind(kind: u16, payload: Seq<u8>)
        requires
            Namespace::Attr.shape(nla_type(kind)) is None,
        ensures
            Nl80211Attr::spec_parse(kind, payload) == Ok::<Record, Nl80211DecodeError>(
                (Record { kind, value: Value::Bytes(payload) }),
            ),
    {
    }
}

} // verus!
