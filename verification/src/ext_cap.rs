// SPDX-License-Identifier: MIT

//! Extended capabilities, of a device and by interface type.

use vstd::prelude::*;
use vstd::slice::slice_to_vec;

use crate::attr::{
    NL80211_ATTR_EML_CAPABILITY, NL80211_ATTR_EXT_CAPA, NL80211_ATTR_EXT_CAPA_MASK,
    NL80211_ATTR_IFTYPE, NL80211_ATTR_MLD_CAPA_AND_OPS,
};
use crate::bytes::{decode_u16, decode_u32, push_bytes, push_u16, push_u32};
use crate::codec::{
    all_canonical, all_lossless, emit_list, items_of, lemma_records_of_conform, list_encoded_len,
    list_len, Nl80211Nla, parse_list, records_of,
};
use crate::error::Nl80211ErrorKind;
use crate::iface::Nl80211InterfaceType;
use crate::nla::{nla_type, nla_type_is_stable, RawNla, NLA_TYPE_MASK};
use crate::schema::Namespace;
use crate::wire::Value;

verus! {

/// The extended capabilities of a device or of an interface type: bits, kept
/// as the bytes that carry them.
#[derive(Debug, PartialEq, Eq, Clone)]
pub struct Nl80211ExtendedCapability {
    bytes: Vec<u8>,
}

impl View for Nl80211ExtendedCapability {
    type V = Seq<u8>;

    closed spec fn view(&self) -> Seq<u8> {
        self.bytes@
    }
}

impl Nl80211ExtendedCapability {
    /// The capabilities that the bytes of a buffer carry.
    pub fn new(payload: &[u8]) -> (r: Self)
        ensures
            r@ == payload@,
    {
        Nl80211ExtendedCapability { bytes: slice_to_vec(payload) }
    }

    /// Number of bytes.
    pub fn len(&self) -> (n: usize)
        ensures
            n == self@.len(),
    {
        self.bytes.len()
    }

    /// The bytes.
    pub fn as_bytes(&self) -> (r: &[u8])
        ensures
            r@ == self@,
    {
        self.bytes.as_slice()
    }

    /// Appends the bytes to `out`.
    pub fn emit(&self, out: &mut Vec<u8>)
        ensures
            final(out)@ == old(out)@ + self@,
    {
        push_bytes(out, self.bytes.as_slice());
    }

    /// Whether bit `i` is set, counted from the lowest bit of the first
    /// byte. A bit behind the last byte is not set.
    pub fn bit(&self, i: usize) -> (b: bool)
        ensures
            b == (i / 8 < self@.len() && (self@[(i / 8) as int] >> ((i % 8) as u8)) & 1 == 1),
    {
        let at: usize = i / 8;
        if at < self.bytes.len() {
            let shift: u8 = (i % 8) as u8;
            (self.bytes[at] >> shift) & 1 == 1
        } else {
            false
        }
    }
}

/// The extended capabilities of one interface type.
#[derive(Debug, PartialEq, Eq, Clone)]
pub struct Nl80211IfTypeExtCapa {
    /// Position in the list
    pub index: u16,
    pub attributes: Vec<Nl80211IfTypeExtCapaAttribute>,
}

/// The entries are numbered by their position in the list. The kinds of their
/// /// attributes are those of the attributes of a message.
impl Nl80211Nla for Nl80211IfTypeExtCapa {
    open spec fn namespace() -> Namespace {
        Namespace::IfTypeExtCapas
    }

    open spec fn spec_kind(&self, index: nat) -> u16 {
        (index % 0x1_0000) as u16
    }

    open spec fn spec_value(&self) -> Value {
        Value::List(records_of(self.attributes@, 0))
    }

    open spec fn canonical(&self, index: nat) -> bool {
        &&& self.index == index % 0x1_0000
        &&& all_canonical(self.attributes@, 0)
    }

    open spec fn lossless(&self) -> bool {
        all_lossless(self.attributes@)
    }

    proof fn lemma_conforms(&self, index: nat) {
        lemma_records_of_conform::<Nl80211IfTypeExtCapaAttribute>(self.attributes@, 0);
    }

    fn nla_kind(&self, index: usize) -> (k: u16) {
        (index % 0x1_0000) as u16
    }

    fn nla_value_len(&self) -> (n: usize) {
        list_len(&self.attributes)
    }

    fn nla_encoded_len(&self) -> (r: Option<usize>) {
        list_encoded_len(&self.attributes)
    }

    fn nla_emit_value(&self, out: &mut Vec<u8>) {
        emit_list(&self.attributes, out);
    }

    fn nla_parse(index: usize, kind: u16, payload: &[u8]) -> (r: Result<Self, Nl80211ErrorKind>) {
        let attributes: Vec<Nl80211IfTypeExtCapaAttribute> = items_of(
            parse_list::<Nl80211IfTypeExtCapaAttribute>(payload),
        )?;
        Ok(Nl80211IfTypeExtCapa { index: (index % 0x1_0000) as u16, attributes })
    }
}

/// One attribute of the extended capabilities of an interface type.
#[derive(Debug, PartialEq, Eq, Clone)]
#[non_exhaustive]
pub enum Nl80211IfTypeExtCapaAttribute {
    /// The interface type that the capabilities are of
    IfType(Nl80211InterfaceType),
    /// The extended capabilities
    ExtCapa(Nl80211ExtendedCapability),
    /// The extended capabilities that can be changed
    ExtCapaMask(Nl80211ExtendedCapability),
    /// The enhanced multi-link capabilities
    EmlCapability(u16),
    /// The capabilities and operations of the multi-link device
    MldCapaAndOps(u16),
    /// A record of a kind that has no variant: its type field and its bytes
    Other(RawNla),
}

impl Nl80211Nla for Nl80211IfTypeExtCapaAttribute {
    open spec fn namespace() -> Namespace {
        Namespace::IfTypeExtCapaAttrs
    }

    open spec fn spec_kind(&self, index: nat) -> u16 {
        match self {
            Self::IfType(_) => NL80211_ATTR_IFTYPE,
            Self::ExtCapa(_) => NL80211_ATTR_EXT_CAPA,
            Self::ExtCapaMask(_) => NL80211_ATTR_EXT_CAPA_MASK,
            Self::EmlCapability(_) => NL80211_ATTR_EML_CAPABILITY,
            Self::MldCapaAndOps(_) => NL80211_ATTR_MLD_CAPA_AND_OPS,
            Self::Other(nla) => nla.kind,
        }
    }

    open spec fn spec_value(&self) -> Value {
        match self {
            Self::IfType(d) => Value::U32(d.spec_to_u32()),
            Self::ExtCapa(d)
            | Self::ExtCapaMask(d) => Value::Bytes(d@),
            Self::EmlCapability(d)
            | Self::MldCapaAndOps(d) => Value::U16(*d),
            Self::Other(nla) => Value::Bytes(nla.value@),
        }
    }

    open spec fn canonical(&self, index: nat) -> bool {
        match self {
            Self::IfType(d) => Nl80211InterfaceType::canonical(*d),
            Self::Other(nla) => Namespace::IfTypeExtCapaAttrs.shape(nla_type(nla.kind)) is None,
            _ => true,
        }
    }

    open spec fn lossless(&self) -> bool {
        match self {
            Self::Other(nla) => nla_type_is_stable(nla.kind),
            _ => true,
        }
    }

    proof fn lemma_conforms(&self, index: nat) {
        match self {
            Self::Other(nla) => {},
            _ => crate::nla::lemma_plain_kind(self.spec_kind(index)),
        }
    }

    fn nla_kind(&self, index: usize) -> (k: u16) {
        match self {
            Self::IfType(_) => NL80211_ATTR_IFTYPE,
            Self::ExtCapa(_) => NL80211_ATTR_EXT_CAPA,
            Self::ExtCapaMask(_) => NL80211_ATTR_EXT_CAPA_MASK,
            Self::EmlCapability(_) => NL80211_ATTR_EML_CAPABILITY,
            Self::MldCapaAndOps(_) => NL80211_ATTR_MLD_CAPA_AND_OPS,
            Self::Other(nla) => nla.kind,
        }
    }

    fn nla_value_len(&self) -> (n: usize) {
        match self {
            Self::IfType(_) => 4,
            Self::ExtCapa(d)
            | Self::ExtCapaMask(d) => d.len(),
            Self::EmlCapability(_)
            | Self::MldCapaAndOps(_) => 2,
            Self::Other(nla) => nla.value.len(),
        }
    }

    fn nla_encoded_len(&self) -> (r: Option<usize>) {
        match self {
            Self::IfType(_) => Some(4),
            Self::ExtCapa(d)
            | Self::ExtCapaMask(d) => Some(d.len()),
            Self::EmlCapability(_)
            | Self::MldCapaAndOps(_) => Some(2),
            Self::Other(nla) => Some(nla.value.len()),
        }
    }

    fn nla_emit_value(&self, out: &mut Vec<u8>) {
        match self {
            Self::IfType(d) => push_u32(out, d.to_u32()),
            Self::ExtCapa(d)
            | Self::ExtCapaMask(d) => d.emit(out),
            Self::EmlCapability(d)
            | Self::MldCapaAndOps(d) => push_u16(out, *d),
            Self::Other(nla) => push_bytes(out, nla.value.as_slice()),
        }
    }

    fn nla_parse(index: usize, kind: u16, payload: &[u8]) -> (r: Result<Self, Nl80211ErrorKind>) {
        Ok(
            match kind & NLA_TYPE_MASK {
                NL80211_ATTR_IFTYPE =>
                    Self::IfType(Nl80211InterfaceType::from_u32(decode_u32(payload)?)),
                NL80211_ATTR_EXT_CAPA => Self::ExtCapa(Nl80211ExtendedCapability::new(payload)),
                NL80211_ATTR_EXT_CAPA_MASK =>
                    Self::ExtCapaMask(Nl80211ExtendedCapability::new(payload)),
                NL80211_ATTR_EML_CAPABILITY => Self::EmlCapability(decode_u16(payload)?),
                NL80211_ATTR_MLD_CAPA_AND_OPS => Self::MldCapaAndOps(decode_u16(payload)?),
                _ => Self::Other(RawNla::new(kind, slice_to_vec(payload))),
            },
        )
    }
}

} // verus!
