// SPDX-License-Identifier: MIT

//! The links of a multi-link device.

use vstd::prelude::*;
use vstd::slice::slice_to_vec;

use crate::attr::NL80211_ATTR_MAC;
use crate::bytes::{decode_mac, decode_u8, ETH_ALEN, push_bytes, push_u8};
use crate::codec::{
    all_canonical, all_lossless, emit_list, items_of, lemma_records_of_conform, list_encoded_len,
    list_len, Nl80211Nla, parse_list, records_of,
};
use crate::error::Nl80211ErrorKind;
use crate::nla::{nla_type, nla_type_is_stable, RawNla, NLA_TYPE_MASK};
use crate::schema::Namespace;
use crate::wire::Value;

verus! {

pub const NL80211_ATTR_MLO_LINK_ID: u16 = 313;

/// A link of a multi-link device.
#[derive(Debug, PartialEq, Eq, Clone)]
pub struct Nl80211MloLink {
    /// Kind of the record in the list
    pub index: u16,
    pub attributes: Vec<Nl80211MloLinkAttribute>,
}

/// In the list of links the kind of a record tells the link: it is kept as it
/// /// was read. The kinds of the attributes of a link are those of the
/// /// attributes of a message.
impl Nl80211Nla for Nl80211MloLink {
    open spec fn namespace() -> Namespace {
        Namespace::MloLinks
    }

    open spec fn spec_kind(&self, index: nat) -> u16 {
        self.index
    }

    open spec fn spec_value(&self) -> Value {
        Value::List(records_of(self.attributes@, 0))
    }

    open spec fn canonical(&self, index: nat) -> bool {
        &&& self.index <= NLA_TYPE_MASK
        &&& all_canonical(self.attributes@, 0)
    }

    open spec fn lossless(&self) -> bool {
        all_lossless(self.attributes@)
    }

    proof fn lemma_conforms(&self, index: nat) {
        crate::nla::lemma_plain_kind(self.index);
        lemma_records_of_conform::<Nl80211MloLinkAttribute>(self.attributes@, 0);
    }

    fn nla_kind(&self, index: usize) -> (k: u16) {
        self.index
    }

    fn nla_value_len(&self) -> (n: usize) {
        list_len(&self.attributes)
    }

    fn nla_encoded_len(&self) -> (r: Option<usize>) {
        list_encoded_len(&self.attributes)
    }

    fn nla_emit_value(&self, out: &mut Vec<u8>) {
        emit_list(&self.attributes, out);
    }

    fn nla_parse(index: usize, kind: u16, payload: &[u8]) -> (r: Result<Self, Nl80211ErrorKind>) {
        proof {
            crate::nla::lemma_nla_type_bound(kind);
        }
        let attributes: Vec<Nl80211MloLinkAttribute> = items_of(
            parse_list::<Nl80211MloLinkAttribute>(payload),
        )?;
        Ok(Nl80211MloLink { index: kind & NLA_TYPE_MASK, attributes })
    }
}

/// One attribute of a link of a multi-link device.
#[derive(Debug, PartialEq, Eq, Clone)]
#[non_exhaustive]
pub enum Nl80211MloLinkAttribute {
    /// Number of the link
    LinkId(u8),
    /// Address of the link
    Mac([u8; ETH_ALEN]),
    /// A record of a kind that has no variant: its type field and its bytes
    Other(RawNla),
}

impl Nl80211Nla for Nl80211MloLinkAttribute {
    open spec fn namespace() -> Namespace {
        Namespace::MloLinkAttrs
    }

    open spec fn spec_kind(&self, index: nat) -> u16 {
        match self {
            Self::LinkId(_) => NL80211_ATTR_MLO_LINK_ID,
            Self::Mac(_) => NL80211_ATTR_MAC,
            Self::Other(nla) => nla.kind,
        }
    }

    open spec fn spec_value(&self) -> Value {
        match self {
            Self::LinkId(d) => Value::U8(*d),
            Self::Mac(d) => Value::Bytes(d@),
            Self::Other(nla) => Value::Bytes(nla.value@),
        }
    }

    open spec fn canonical(&self, index: nat) -> bool {
        match self {
            Self::Other(nla) => Namespace::MloLinkAttrs.shape(nla_type(nla.kind)) is None,
            _ => true,
        }
    }

    open spec fn lossless(&self) -> bool {
        match self {
            Self::Other(nla) => nla_type_is_stable(nla.kind),
            _ => true,
        }
    }

    proof fn lemma_conforms(&self, index: nat) {
        match self {
            Self::Other(nla) => {},
            _ => crate::nla::lemma_plain_kind(self.spec_kind(index)),
        }
    }

    fn nla_kind(&self, index: usize) -> (k: u16) {
        match self {
            Self::LinkId(_) => NL80211_ATTR_MLO_LINK_ID,
            Self::Mac(_) => NL80211_ATTR_MAC,
            Self::Other(nla) => nla.kind,
        }
    }

    fn nla_value_len(&self) -> (n: usize) {
        match self {
            Self::LinkId(_) => 1,
            Self::Mac(_) => ETH_ALEN,
            Self::Other(nla) => nla.value.len(),
        }
    }

    fn nla_encoded_len(&self) -> (r: Option<usize>) {
        match self {
            Self::LinkId(_) => Some(1),
            Self::Mac(_) => Some(ETH_ALEN),
            Self::Other(nla) => Some(nla.value.len()),
        }
    }

    fn nla_emit_value(&self, out: &mut Vec<u8>) {
        match self {
            Self::LinkId(d) => push_u8(out, *d),
            Self::Mac(d) => push_bytes(out, d.as_slice()),
            Self::Other(nla) => push_bytes(out, nla.value.as_slice()),
        }
    }

    fn nla_parse(index: usize, kind: u16, payload: &[u8]) -> (r: Result<Self, Nl80211ErrorKind>) {
        Ok(
            match kind & NLA_TYPE_MASK {
                NL80211_ATTR_MLO_LINK_ID => Self::LinkId(decode_u8(payload)?),
                NL80211_ATTR_MAC => Self::Mac(decode_mac(payload)?),
                _ => Self::Other(RawNla::new(kind, slice_to_vec(payload))),
            },
        )
    }
}

} // verus!
