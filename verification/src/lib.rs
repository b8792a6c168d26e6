// SPDX-License-Identifier: MIT

//! The attributes and messages of nl80211, the interface of the kernel to
//! wireless devices: what each of them says, and how it is written to bytes
//! and read from bytes.
//!
//! A message is a command and a list of attributes. An attribute is a record:
//! a header that tells its kind and its length, and a value whose layout the
//! kind decides. The value of some kinds is itself a list of records, whose
//! kinds are then those of a namespace of their own. [`schema`] holds the
//! table of the kinds of each namespace, [`wire`] what a record says and how
//! a value of each shape is written and read, [`nla`] the framing of records,
//! and [`bytes`] the integers, strings and addresses that values are made of.
//!
//! [`Nl80211Attr`] has a variant for each kind of attribute that is known. A
//! kind that is not known is no error: the attribute is kept as it came, in
//! [`Nl80211Attr::Other`], and is written back as it was. The same holds of
//! the records inside lists.
//!
//! What is read is what was written, and the bytes of a value are as many as
//! its length says: these laws are proved of every value, in [`wire`] for
//! records and beside the types for their values.

pub mod attr;
pub mod bytes;
pub mod channel;
pub mod codec;
pub mod command;
pub mod element;
pub mod error;
pub mod ext_cap;
pub mod feature;
pub mod frame_type;
pub mod handle;
pub mod iface;
pub mod message;
pub mod mlo;
pub mod nla;
pub mod reg;
pub mod scan;
pub mod schema;
pub mod station;
pub mod stats;
pub mod wifi4;
pub mod wifi5;
pub mod wiphy;
pub mod wire;

pub use self::attr::{MacAddressNla, MacAddressNlas, Nl80211Attr};
pub use self::bytes::ETH_ALEN;
pub use self::channel::Nl80211ChannelWidth;
pub use self::codec::Nl80211Nla;
pub use self::command::Nl80211Command;
pub use self::element::Nl80211Element;
pub use self::error::{Nl80211DecodeError, Nl80211ErrorKind, Nl80211ListError};
pub use self::ext_cap::{
    Nl80211ExtendedCapability, Nl80211IfTypeExtCapa, Nl80211IfTypeExtCapaAttribute,
};
pub use self::feature::{
    Nl80211BandTypes, Nl80211ExtFeature, Nl80211ExtFeatures, Nl80211Features,
};
pub use self::frame_type::{Nl80211FrameType, Nl80211IfaceFrameType};
pub use self::iface::{
    Nl80211GetRegulatory, Nl80211IfMode, Nl80211IfaceComb, Nl80211IfaceCombAttribute,
    Nl80211IfaceCombLimit, Nl80211IfaceCombLimitAttribute, Nl80211InterfaceDelRequest,
    Nl80211InterfaceGetRequest, Nl80211InterfaceNewRequest, Nl80211InterfaceSetChannelRequest,
    Nl80211InterfaceSetRequest, Nl80211InterfaceType, Nl80211RegisterFrame,
    Nl80211ReqSetRegulatory, Nl80211StartAp,
};
pub use self::message::Nl80211Message;
pub use self::mlo::{Nl80211MloLink, Nl80211MloLinkAttribute};
pub use self::nla::RawNla;
pub use self::reg::{Nl80211DfsRegion, Nl80211RegDomType, Nl80211RegdomInitiator};
pub use self::scan::{Nl80211BssCapabilities, Nl80211BssInfo};
pub use self::station::{Nl80211RateInfo, Nl80211StationInfo};
pub use self::stats::Nl80211TransmitQueueStat;
pub use self::wifi4::{Nl80211HtCapabilityMask, Nl80211HtWiphyChannelType};
pub use self::wifi5::Nl80211VhtCapability;
pub use self::wiphy::{
    Nl80211Band, Nl80211BandInfo, Nl80211BandType, Nl80211CipherSuite, Nl80211Frequency,
    Nl80211FrequencyInfo, Nl80211BandRate, Nl80211BandRateInfo, Nl80211WiphyGetRequest,
    Nl80211WowlanTrigerPatternSupport, Nl80211WowlanTrigersSupport,
};
