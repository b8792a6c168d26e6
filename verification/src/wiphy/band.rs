// SPDX-License-Identifier: MIT

//! The bands of a device, with their frequencies and bit rates.

use vstd::prelude::*;
use vstd::slice::slice_to_vec;

use crate::bytes::{decode_u16, decode_u32, decode_u8, push_bytes, push_u16, push_u32, push_u8};
use crate::codec::{
    all_canonical, all_lossless, decode_fixed, emit_list, items_of, lemma_records_of_conform,
    list_encoded_len, list_len, Nl80211Nla, parse_list, records_of,
};
use crate::error::Nl80211ErrorKind;
use crate::nla::{nla_type, nla_type_is_stable, RawNla, NLA_TYPE_MASK};
use crate::schema::Namespace;
use crate::wire::Value;

verus! {

pub const NL80211_BAND_2GHZ: u16 = 0;
pub const NL80211_BAND_5GHZ: u16 = 1;
pub const NL80211_BAND_60GHZ: u16 = 2;
pub const NL80211_BAND_6GHZ: u16 = 3;
pub const NL80211_BAND_S1GHZ: u16 = 4;
pub const NL80211_BAND_LC: u16 = 5;

/// A frequency band.
#[derive(Debug, PartialEq, Eq, Clone, Copy)]
pub enum Nl80211BandType {
    /// 2.4 GHz
    Band2GHz,
    /// 5 GHz
    Band5GHz,
    /// 60 GHz
    Band60GHz,
    /// 6 GHz
    Band6GHz,
    /// Below 1 GHz
    BandS1GHz,
    /// Light communication
    BandLc,
    /// A number without a name
    Other(u16),
}

impl Nl80211BandType {
    /// The value that a number stands for.
    pub open spec fn spec_from_u16(d: u16) -> Nl80211BandType {
        match d {
            NL80211_BAND_2GHZ => Nl80211BandType::Band2GHz,
            NL80211_BAND_5GHZ => Nl80211BandType::Band5GHz,
            NL80211_BAND_60GHZ => Nl80211BandType::Band60GHz,
            NL80211_BAND_6GHZ => Nl80211BandType::Band6GHz,
            NL80211_BAND_S1GHZ => Nl80211BandType::BandS1GHz,
            NL80211_BAND_LC => Nl80211BandType::BandLc,
            _ => Nl80211BandType::Other(d),
        }
    }

    /// The number that stands for a value.
    pub open spec fn spec_to_u16(self) -> u16 {
        match self {
            Nl80211BandType::Band2GHz => NL80211_BAND_2GHZ,
            Nl80211BandType::Band5GHz => NL80211_BAND_5GHZ,
            Nl80211BandType::Band60GHz => NL80211_BAND_60GHZ,
            Nl80211BandType::Band6GHz => NL80211_BAND_6GHZ,
            Nl80211BandType::BandS1GHz => NL80211_BAND_S1GHZ,
            Nl80211BandType::BandLc => NL80211_BAND_LC,
            Nl80211BandType::Other(d) => d,
        }
    }

    /// Whether the value is the one that its number is read as: a number
    /// that has a name does not stand in `Other`.
    pub open spec fn canonical(self) -> bool {
        Nl80211BandType::spec_from_u16(self.spec_to_u16()) == self
    }

    /// Every number stands for a value in canonical form, and that value
    /// stands for the number.
    pub proof fn lemma_from_to(d: u16)
        ensures
            Nl80211BandType::spec_from_u16(d).spec_to_u16() == d,
            Nl80211BandType::spec_from_u16(d).canonical(),
    {
    }

    /// The value that a number stands for.
    pub fn from_u16(d: u16) -> (r: Self)
        ensures
            r == Nl80211BandType::spec_from_u16(d),
    {
        match d {
            NL80211_BAND_2GHZ => Self::Band2GHz,
            NL80211_BAND_5GHZ => Self::Band5GHz,
            NL80211_BAND_60GHZ => Self::Band60GHz,
            NL80211_BAND_6GHZ => Self::Band6GHz,
            NL80211_BAND_S1GHZ => Self::BandS1GHz,
            NL80211_BAND_LC => Self::BandLc,
            _ => Self::Other(d),
        }
    }

    /// The number that stands for the value.
    pub fn to_u16(self) -> (r: u16)
        ensures
            r == self.spec_to_u16(),
    {
        match self {
            Nl80211BandType::Band2GHz => NL80211_BAND_2GHZ,
            Nl80211BandType::Band5GHz => NL80211_BAND_5GHZ,
            Nl80211BandType::Band60GHz => NL80211_BAND_60GHZ,
            Nl80211BandType::Band6GHz => NL80211_BAND_6GHZ,
            Nl80211BandType::BandS1GHz => NL80211_BAND_S1GHZ,
            Nl80211BandType::BandLc => NL80211_BAND_LC,
            Nl80211BandType::Other(d) => d,
        }
    }
}

pub const NL80211_BAND_ATTR_FREQS: u16 = 1;
pub const NL80211_BAND_ATTR_RATES: u16 = 2;
pub const NL80211_BAND_ATTR_HT_MCS_SET: u16 = 3;
pub const NL80211_BAND_ATTR_HT_CAPA: u16 = 4;
pub const NL80211_BAND_ATTR_HT_AMPDU_FACTOR: u16 = 5;
pub const NL80211_BAND_ATTR_HT_AMPDU_DENSITY: u16 = 6;
pub const NL80211_BAND_ATTR_VHT_MCS_SET: u16 = 7;
pub const NL80211_BAND_ATTR_VHT_CAPA: u16 = 8;

pub const NL80211_FREQUENCY_ATTR_FREQ: u16 = 1;
pub const NL80211_FREQUENCY_ATTR_DISABLED: u16 = 2;
pub const NL80211_FREQUENCY_ATTR_NO_IR: u16 = 3;
pub const NL80211_FREQUENCY_ATTR_RADAR: u16 = 5;
pub const NL80211_FREQUENCY_ATTR_MAX_TX_POWER: u16 = 6;
pub const NL80211_FREQUENCY_ATTR_DFS_STATE: u16 = 7;
pub const NL80211_FREQUENCY_ATTR_DFS_TIME: u16 = 8;
pub const NL80211_FREQUENCY_ATTR_NO_HT40_MINUS: u16 = 9;
pub const NL80211_FREQUENCY_ATTR_NO_HT40_PLUS: u16 = 10;
pub const NL80211_FREQUENCY_ATTR_NO_80MHZ: u16 = 11;
pub const NL80211_FREQUENCY_ATTR_NO_160MHZ: u16 = 12;
pub const NL80211_FREQUENCY_ATTR_DFS_CAC_TIME: u16 = 13;
pub const NL80211_FREQUENCY_ATTR_INDOOR_ONLY: u16 = 14;
pub const NL80211_FREQUENCY_ATTR_IR_CONCURRENT: u16 = 15;
pub const NL80211_FREQUENCY_ATTR_NO_20MHZ: u16 = 16;
pub const NL80211_FREQUENCY_ATTR_NO_10MHZ: u16 = 17;
pub const NL80211_FREQUENCY_ATTR_NO_HE: u16 = 19;
pub const NL80211_FREQUENCY_ATTR_OFFSET: u16 = 20;

pub const NL80211_BITRATE_ATTR_RATE: u16 = 1;
pub const NL80211_BITRATE_ATTR_2GHZ_SHORTPREAMBLE: u16 = 2;

/// A band of a device, with what the device supports in it.
#[derive(Debug, PartialEq, Eq, Clone)]
pub struct Nl80211Band {
    pub kind: Nl80211BandType,
    pub info: Vec<Nl80211BandInfo>,
}

/// In the list of the bands of a device the kind of a record is the band.
impl Nl80211Nla for Nl80211Band {
    open spec fn namespace() -> Namespace {
        Namespace::Bands
    }

    open spec fn spec_kind(&self, index: nat) -> u16 {
        self.kind.spec_to_u16()
    }

    open spec fn spec_value(&self) -> Value {
        Value::List(records_of(self.info@, 0))
    }

    open spec fn canonical(&self, index: nat) -> bool {
        &&& self.kind.spec_to_u16() <= NLA_TYPE_MASK
        &&& Nl80211BandType::canonical(self.kind)
        &&& all_canonical(self.info@, 0)
    }

    open spec fn lossless(&self) -> bool {
        all_lossless(self.info@)
    }

    proof fn lemma_conforms(&self, index: nat) {
        crate::nla::lemma_plain_kind(self.kind.spec_to_u16());
        lemma_records_of_conform::<Nl80211BandInfo>(self.info@, 0);
    }

    fn nla_kind(&self, index: usize) -> (k: u16) {
        self.kind.to_u16()
    }

    fn nla_value_len(&self) -> (n: usize) {
        list_len(&self.info)
    }

    fn nla_encoded_len(&self) -> (r: Option<usize>) {
        list_encoded_len(&self.info)
    }

    fn nla_emit_value(&self, out: &mut Vec<u8>) {
        emit_list(&self.info, out);
    }

    fn nla_parse(index: usize, kind: u16, payload: &[u8]) -> (r: Result<Self, Nl80211ErrorKind>) {
        proof {
            crate::nla::lemma_nla_type_bound(kind);
        }
        let info: Vec<Nl80211BandInfo> = items_of(
            parse_list::<Nl80211BandInfo>(payload),
        )?;
        Ok(Nl80211Band { kind: Nl80211BandType::from_u16(kind & NLA_TYPE_MASK), info })
    }
}

/// One piece of information about a band.
#[derive(Debug, PartialEq, Eq, Clone)]
#[non_exhaustive]
pub enum Nl80211BandInfo {
    /// The frequencies of the band
    Freqs(Vec<Nl80211Frequency>),
    /// The bit rates of the band
    Rates(Vec<Nl80211BandRate>),
    /// The set of supported high throughput rates
    HtMcsSet(Vec<u8>),
    /// The high throughput capabilities, as the capability element holds them
    HtCapa(u16),
    /// Exponent of the longest aggregate
    HtAmpduFactor(u8),
    /// Least spacing between the frames of an aggregate
    HtAmpduDensity(u8),
    /// The set of supported very high throughput rates
    VhtMcsSet(Vec<u8>),
    /// The very high throughput capabilities, as the capability element holds
    /// them
    VhtCapa(u32),
    /// A record of a kind that has no variant: its type field and its bytes
    Other(RawNla),
}

impl Nl80211Nla for Nl80211BandInfo {
    open spec fn namespace() -> Namespace {
        Namespace::BandInfo
    }

    open spec fn spec_kind(&self, index: nat) -> u16 {
        match self {
            Self::Freqs(_) => NL80211_BAND_ATTR_FREQS,
            Self::Rates(_) => NL80211_BAND_ATTR_RATES,
            Self::HtMcsSet(_) => NL80211_BAND_ATTR_HT_MCS_SET,
            Self::HtCapa(_) => NL80211_BAND_ATTR_HT_CAPA,
            Self::HtAmpduFactor(_) => NL80211_BAND_ATTR_HT_AMPDU_FACTOR,
            Self::HtAmpduDensity(_) => NL80211_BAND_ATTR_HT_AMPDU_DENSITY,
            Self::VhtMcsSet(_) => NL80211_BAND_ATTR_VHT_MCS_SET,
            Self::VhtCapa(_) => NL80211_BAND_ATTR_VHT_CAPA,
            Self::Other(nla) => nla.kind,
        }
    }

    open spec fn spec_value(&self) -> Value {
        match self {
            Self::Freqs(d) => Value::List(records_of(d@, 0)),
            Self::Rates(d) => Value::List(records_of(d@, 0)),
            Self::HtMcsSet(d)
            | Self::VhtMcsSet(d) => Value::Bytes(d@),
            Self::HtCapa(d) => Value::U16(*d),
            Self::HtAmpduFactor(d)
            | Self::HtAmpduDensity(d) => Value::U8(*d),
            Self::VhtCapa(d) => Value::U32(*d),
            Self::Other(nla) => Value::Bytes(nla.value@),
        }
    }

    open spec fn canonical(&self, index: nat) -> bool {
        match self {
            Self::Freqs(d) => all_canonical(d@, 0),
            Self::Rates(d) => all_canonical(d@, 0),
            Self::HtMcsSet(d) => d@.len() == 16,
            Self::VhtMcsSet(d) => d@.len() == 8,
            Self::Other(nla) => Namespace::BandInfo.shape(nla_type(nla.kind)) is None,
            _ => true,
        }
    }

    open spec fn lossless(&self) -> bool {
        match self {
            Self::Freqs(d) => all_lossless(d@),
            Self::Rates(d) => all_lossless(d@),
            Self::Other(nla) => nla_type_is_stable(nla.kind),
            _ => true,
        }
    }

    proof fn lemma_conforms(&self, index: nat) {
        match self {
            Self::Freqs(d) => {
                crate::nla::lemma_plain_kind(NL80211_BAND_ATTR_FREQS);
                lemma_records_of_conform::<Nl80211Frequency>(d@, 0);
            },
            Self::Rates(d) => {
                crate::nla::lemma_plain_kind(NL80211_BAND_ATTR_RATES);
                lemma_records_of_conform::<Nl80211BandRate>(d@, 0);
            },
            Self::Other(nla) => {},
            _ => crate::nla::lemma_plain_kind(self.spec_kind(index)),
        }
    }

    fn nla_kind(&self, index: usize) -> (k: u16) {
        match self {
            Self::Freqs(_) => NL80211_BAND_ATTR_FREQS,
            Self::Rates(_) => NL80211_BAND_ATTR_RATES,
            Self::HtMcsSet(_) => NL80211_BAND_ATTR_HT_MCS_SET,
            Self::HtCapa(_) => NL80211_BAND_ATTR_HT_CAPA,
            Self::HtAmpduFactor(_) => NL80211_BAND_ATTR_HT_AMPDU_FACTOR,
            Self::HtAmpduDensity(_) => NL80211_BAND_ATTR_HT_AMPDU_DENSITY,
            Self::VhtMcsSet(_) => NL80211_BAND_ATTR_VHT_MCS_SET,
            Self::VhtCapa(_) => NL80211_BAND_ATTR_VHT_CAPA,
            Self::Other(nla) => nla.kind,
        }
    }

    fn nla_value_len(&self) -> (n: usize) {
        match self {
            Self::Freqs(d) => list_len(d),
            Self::Rates(d) => list_len(d),
            Self::HtMcsSet(d)
            | Self::VhtMcsSet(d) => d.len(),
            Self::HtCapa(_) => 2,
            Self::HtAmpduFactor(_)
            | Self::HtAmpduDensity(_) => 1,
            Self::VhtCapa(_) => 4,
            Self::Other(nla) => nla.value.len(),
        }
    }

    fn nla_encoded_len(&self) -> (r: Option<usize>) {
        match self {
            Self::Freqs(d) => list_encoded_len(d),
            Self::Rates(d) => list_encoded_len(d),
            Self::HtMcsSet(d)
            | Self::VhtMcsSet(d) => Some(d.len()),
            Self::HtCapa(_) => Some(2),
            Self::HtAmpduFactor(_)
            | Self::HtAmpduDensity(_) => Some(1),
            Self::VhtCapa(_) => Some(4),
            Self::Other(nla) => Some(nla.value.len()),
        }
    }

    fn nla_emit_value(&self, out: &mut Vec<u8>) {
        match self {
            Self::Freqs(d) => emit_list(d, out),
            Self::Rates(d) => emit_list(d, out),
            Self::HtMcsSet(d)
            | Self::VhtMcsSet(d) => push_bytes(out, d.as_slice()),
            Self::HtCapa(d) => push_u16(out, *d),
            Self::HtAmpduFactor(d)
            | Self::HtAmpduDensity(d) => push_u8(out, *d),
            Self::VhtCapa(d) => push_u32(out, *d),
            Self::Other(nla) => push_bytes(out, nla.value.as_slice()),
        }
    }

    fn nla_parse(index: usize, kind: u16, payload: &[u8]) -> (r: Result<Self, Nl80211ErrorKind>) {
        Ok(
            match kind & NLA_TYPE_MASK {
                NL80211_BAND_ATTR_FREQS =>
                    Self::Freqs(items_of(parse_list::<Nl80211Frequency>(payload))?),
                NL80211_BAND_ATTR_RATES =>
                    Self::Rates(items_of(parse_list::<Nl80211BandRate>(payload))?),
                NL80211_BAND_ATTR_HT_MCS_SET => Self::HtMcsSet(decode_fixed(payload, 16)?),
                NL80211_BAND_ATTR_HT_CAPA => Self::HtCapa(decode_u16(payload)?),
                NL80211_BAND_ATTR_HT_AMPDU_FACTOR => Self::HtAmpduFactor(decode_u8(payload)?),
                NL80211_BAND_ATTR_HT_AMPDU_DENSITY => Self::HtAmpduDensity(decode_u8(payload)?),
                NL80211_BAND_ATTR_VHT_MCS_SET => Self::VhtMcsSet(decode_fixed(payload, 8)?),
                NL80211_BAND_ATTR_VHT_CAPA => Self::VhtCapa(decode_u32(payload)?),
                _ => Self::Other(RawNla::new(kind, slice_to_vec(payload))),
            },
        )
    }
}

/// A frequency of a band.
#[derive(Debug, PartialEq, Eq, Clone)]
pub struct Nl80211Frequency {
    /// Position in the list
    pub index: u16,
    pub info: Vec<Nl80211FrequencyInfo>,
}

/// The frequencies of a band are numbered by their position in the list.
impl Nl80211Nla for Nl80211Frequency {
    open spec fn namespace() -> Namespace {
        Namespace::Frequencies
    }

    open spec fn spec_kind(&self, index: nat) -> u16 {
        (index % 0x1_0000) as u16
    }

    open spec fn spec_value(&self) -> Value {
        Value::List(records_of(self.info@, 0))
    }

    open spec fn canonical(&self, index: nat) -> bool {
        &&& self.index == index % 0x1_0000
        &&& all_canonical(self.info@, 0)
    }

    open spec fn lossless(&self) -> bool {
        all_lossless(self.info@)
    }

    proof fn lemma_conforms(&self, index: nat) {
        lemma_records_of_conform::<Nl80211FrequencyInfo>(self.info@, 0);
    }

    fn nla_kind(&self, index: usize) -> (k: u16) {
        (index % 0x1_0000) as u16
    }

    fn nla_value_len(&self) -> (n: usize) {
        list_len(&self.info)
    }

    fn nla_encoded_len(&self) -> (r: Option<usize>) {
        list_encoded_len(&self.info)
    }

    fn nla_emit_value(&self, out: &mut Vec<u8>) {
        emit_list(&self.info, out);
    }

    fn nla_parse(index: usize, kind: u16, payload: &[u8]) -> (r: Result<Self, Nl80211ErrorKind>) {
        let info: Vec<Nl80211FrequencyInfo> = items_of(
            parse_list::<Nl80211FrequencyInfo>(payload),
        )?;
        Ok(Nl80211Frequency { index: (index % 0x1_0000) as u16, info })
    }
}

/// One piece of information about a frequency.
#[derive(Debug, PartialEq, Eq, Clone)]
#[non_exhaustive]
pub enum Nl80211FrequencyInfo {
    /// Frequency in MHz
    Freq(u32),
    /// The channel is disabled in the current regulatory domain
    Disabled,
    /// No radiation may be initiated on this channel
    NoIr,
    /// Radar detection is mandatory on this channel
    Radar,
    /// Highest transmission power, in hundredths of dBm
    MaxTxPower(u32),
    /// State of the channel with regard to dynamic frequency selection
    DfsState(u32),
    /// Time in milliseconds for how long the channel has been in its state
    DfsTime(u32),
    /// The channel cannot be the control channel of a 40 MHz channel whose
    /// secondary channel lies below
    NoHt40Minus,
    /// The channel cannot be the control channel of a 40 MHz channel whose
    /// secondary channel lies above
    NoHt40Plus,
    /// The channel cannot be part of an 80 MHz channel
    No80Mhz,
    /// The channel cannot be part of a 160 MHz channel
    No160Mhz,
    /// Time in milliseconds that the availability check takes
    DfsCacTime(u32),
    /// The channel may be used indoors only
    IndoorOnly,
    /// Radiation may be initiated while a station interface is connected on the
    /// channel
    IrConcurrent,
    /// A 20 MHz channel is not allowed here
    No20Mhz,
    /// A 10 MHz channel is not allowed here
    No10Mhz,
    /// High efficiency operation is not allowed on this channel
    NoHe,
    /// Offset of the frequency, in kHz
    Offset(u32),
    /// A record of a kind that has no variant: its type field and its bytes
    Other(RawNla),
}

impl Nl80211Nla for Nl80211FrequencyInfo {
    open spec fn namespace() -> Namespace {
        Namespace::FrequencyInfo
    }

    open spec fn spec_kind(&self, index: nat) -> u16 {
        match self {
            Self::Freq(_) => NL80211_FREQUENCY_ATTR_FREQ,
            Self::Disabled => NL80211_FREQUENCY_ATTR_DISABLED,
            Self::NoIr => NL80211_FREQUENCY_ATTR_NO_IR,
            Self::Radar => NL80211_FREQUENCY_ATTR_RADAR,
            Self::MaxTxPower(_) => NL80211_FREQUENCY_ATTR_MAX_TX_POWER,
            Self::DfsState(_) => NL80211_FREQUENCY_ATTR_DFS_STATE,
            Self::DfsTime(_) => NL80211_FREQUENCY_ATTR_DFS_TIME,
            Self::NoHt40Minus => NL80211_FREQUENCY_ATTR_NO_HT40_MINUS,
            Self::NoHt40Plus => NL80211_FREQUENCY_ATTR_NO_HT40_PLUS,
            Self::No80Mhz => NL80211_FREQUENCY_ATTR_NO_80MHZ,
            Self::No160Mhz => NL80211_FREQUENCY_ATTR_NO_160MHZ,
            Self::DfsCacTime(_) => NL80211_FREQUENCY_ATTR_DFS_CAC_TIME,
            Self::IndoorOnly => NL80211_FREQUENCY_ATTR_INDOOR_ONLY,
            Self::IrConcurrent => NL80211_FREQUENCY_ATTR_IR_CONCURRENT,
            Self::No20Mhz => NL80211_FREQUENCY_ATTR_NO_20MHZ,
            Self::No10Mhz => NL80211_FREQUENCY_ATTR_NO_10MHZ,
            Self::NoHe => NL80211_FREQUENCY_ATTR_NO_HE,
            Self::Offset(_) => NL80211_FREQUENCY_ATTR_OFFSET,
            Self::Other(nla) => nla.kind,
        }
    }

    open spec fn spec_value(&self) -> Value {
        match self {
            Self::Freq(d)
            | Self::MaxTxPower(d)
            | Self::DfsState(d)
            | Self::DfsTime(d)
            | Self::DfsCacTime(d)
            | Self::Offset(d) => Value::U32(*d),
            Self::Disabled
            | Self::NoIr
            | Self::Radar
            | Self::NoHt40Minus
            | Self::NoHt40Plus
            | Self::No80Mhz
            | Self::No160Mhz
            | Self::IndoorOnly
            | Self::IrConcurrent
            | Self::No20Mhz
            | Self::No10Mhz
            | Self::NoHe => Value::Flag,
            Self::Other(nla) => Value::Bytes(nla.value@),
        }
    }

    open spec fn canonical(&self, index: nat) -> bool {
        match self {
            Self::Other(nla) => Namespace::FrequencyInfo.shape(nla_type(nla.kind)) is None,
            _ => true,
        }
    }

    open spec fn lossless(&self) -> bool {
        match self {
            Self::Other(nla) => nla_type_is_stable(nla.kind),
            _ => true,
        }
    }

    proof fn lemma_conforms(&self, index: nat) {
        match self {
            Self::Other(nla) => {},
            _ => crate::nla::lemma_plain_kind(self.spec_kind(index)),
        }
    }

    fn nla_kind(&self, index: usize) -> (k: u16) {
        match self {
            Self::Freq(_) => NL80211_FREQUENCY_ATTR_FREQ,
            Self::Disabled => NL80211_FREQUENCY_ATTR_DISABLED,
            Self::NoIr => NL80211_FREQUENCY_ATTR_NO_IR,
            Self::Radar => NL80211_FREQUENCY_ATTR_RADAR,
            Self::MaxTxPower(_) => NL80211_FREQUENCY_ATTR_MAX_TX_POWER,
            Self::DfsState(_) => NL80211_FREQUENCY_ATTR_DFS_STATE,
            Self::DfsTime(_) => NL80211_FREQUENCY_ATTR_DFS_TIME,
            Self::NoHt40Minus => NL80211_FREQUENCY_ATTR_NO_HT40_MINUS,
            Self::NoHt40Plus => NL80211_FREQUENCY_ATTR_NO_HT40_PLUS,
            Self::No80Mhz => NL80211_FREQUENCY_ATTR_NO_80MHZ,
            Self::No160Mhz => NL80211_FREQUENCY_ATTR_NO_160MHZ,
            Self::DfsCacTime(_) => NL80211_FREQUENCY_ATTR_DFS_CAC_TIME,
            Self::IndoorOnly => NL80211_FREQUENCY_ATTR_INDOOR_ONLY,
            Self::IrConcurrent => NL80211_FREQUENCY_ATTR_IR_CONCURRENT,
            Self::No20Mhz => NL80211_FREQUENCY_ATTR_NO_20MHZ,
            Self::No10Mhz => NL80211_FREQUENCY_ATTR_NO_10MHZ,
            Self::NoHe => NL80211_FREQUENCY_ATTR_NO_HE,
            Self::Offset(_) => NL80211_FREQUENCY_ATTR_OFFSET,
            Self::Other(nla) => nla.kind,
        }
    }

    fn nla_value_len(&self) -> (n: usize) {
        match self {
            Self::Freq(_)
            | Self::MaxTxPower(_)
            | Self::DfsState(_)
            | Self::DfsTime(_)
            | Self::DfsCacTime(_)
            | Self::Offset(_) => 4,
            Self::Disabled
            | Self::NoIr
            | Self::Radar
            | Self::NoHt40Minus
            | Self::NoHt40Plus
            | Self::No80Mhz
            | Self::No160Mhz
            | Self::IndoorOnly
            | Self::IrConcurrent
            | Self::No20Mhz
            | Self::No10Mhz
            | Self::NoHe => 0,
            Self::Other(nla) => nla.value.len(),
        }
    }

    fn nla_encoded_len(&self) -> (r: Option<usize>) {
        match self {
            Self::Freq(_)
            | Self::MaxTxPower(_)
            | Self::DfsState(_)
            | Self::DfsTime(_)
            | Self::DfsCacTime(_)
            | Self::Offset(_) => Some(4),
            Self::Disabled
            | Self::NoIr
            | Self::Radar
            | Self::NoHt40Minus
            | Self::NoHt40Plus
            | Self::No80Mhz
            | Self::No160Mhz
            | Self::IndoorOnly
            | Self::IrConcurrent
            | Self::No20Mhz
            | Self::No10Mhz
            | Self::NoHe => Some(0),
            Self::Other(nla) => Some(nla.value.len()),
        }
    }

    fn nla_emit_value(&self, out: &mut Vec<u8>) {
        match self {
            Self::Freq(d)
            | Self::MaxTxPower(d)
            | Self::DfsState(d)
            | Self::DfsTime(d)
            | Self::DfsCacTime(d)
            | Self::Offset(d) => push_u32(out, *d),
            Self::Disabled
            | Self::NoIr
            | Self::Radar
            | Self::NoHt40Minus
            | Self::NoHt40Plus
            | Self::No80Mhz
            | Self::No160Mhz
            | Self::IndoorOnly
            | Self::IrConcurrent
            | Self::No20Mhz
            | Self::No10Mhz
            | Self::NoHe => {
                assert(out@ + Seq::<u8>::empty() =~= out@);
            },
            Self::Other(nla) => push_bytes(out, nla.value.as_slice()),
        }
    }

    fn nla_parse(index: usize, kind: u16, payload: &[u8]) -> (r: Result<Self, Nl80211ErrorKind>) {
        Ok(
            match kind & NLA_TYPE_MASK {
                NL80211_FREQUENCY_ATTR_FREQ => Self::Freq(decode_u32(payload)?),
                NL80211_FREQUENCY_ATTR_DISABLED => Self::Disabled,
                NL80211_FREQUENCY_ATTR_NO_IR => Self::NoIr,
                NL80211_FREQUENCY_ATTR_RADAR => Self::Radar,
                NL80211_FREQUENCY_ATTR_MAX_TX_POWER => Self::MaxTxPower(decode_u32(payload)?),
                NL80211_FREQUENCY_ATTR_DFS_STATE => Self::DfsState(decode_u32(payload)?),
                NL80211_FREQUENCY_ATTR_DFS_TIME => Self::DfsTime(decode_u32(payload)?),
                NL80211_FREQUENCY_ATTR_NO_HT40_MINUS => Self::NoHt40Minus,
                NL80211_FREQUENCY_ATTR_NO_HT40_PLUS => Self::NoHt40Plus,
                NL80211_FREQUENCY_ATTR_NO_80MHZ => Self::No80Mhz,
                NL80211_FREQUENCY_ATTR_NO_160MHZ => Self::No160Mhz,
                NL80211_FREQUENCY_ATTR_DFS_CAC_TIME => Self::DfsCacTime(decode_u32(payload)?),
                NL80211_FREQUENCY_ATTR_INDOOR_ONLY => Self::IndoorOnly,
                NL80211_FREQUENCY_ATTR_IR_CONCURRENT => Self::IrConcurrent,
                NL80211_FREQUENCY_ATTR_NO_20MHZ => Self::No20Mhz,
                NL80211_FREQUENCY_ATTR_NO_10MHZ => Self::No10Mhz,
                NL80211_FREQUENCY_ATTR_NO_HE => Self::NoHe,
                NL80211_FREQUENCY_ATTR_OFFSET => Self::Offset(decode_u32(payload)?),
                _ => Self::Other(RawNla::new(kind, slice_to_vec(payload))),
            },
        )
    }
}

/// A bit rate of a band.
#[derive(Debug, PartialEq, Eq, Clone)]
pub struct Nl80211BandRate {
    /// Position in the list
    pub index: u16,
    pub info: Vec<Nl80211BandRateInfo>,
}

/// The bit rates of a band are numbered by their position in the list.
impl Nl80211Nla for Nl80211BandRate {
    open spec fn namespace() -> Namespace {
        Namespace::BandRates
    }

    open spec fn spec_kind(&self, index: nat) -> u16 {
        (index % 0x1_0000) as u16
    }

    open spec fn spec_value(&self) -> Value {
        Value::List(records_of(self.info@, 0))
    }

    open spec fn canonical(&self, index: nat) -> bool {
        &&& self.index == index % 0x1_0000
        &&& all_canonical(self.info@, 0)
    }

    open spec fn lossless(&self) -> bool {
        all_lossless(self.info@)
    }

    proof fn lemma_conforms(&self, index: nat) {
        lemma_records_of_conform::<Nl80211BandRateInfo>(self.info@, 0);
    }

    fn nla_kind(&self, index: usize) -> (k: u16) {
        (index % 0x1_0000) as u16
    }

    fn nla_value_len(&self) -> (n: usize) {
        list_len(&self.info)
    }

    fn nla_encoded_len(&self) -> (r: Option<usize>) {
        list_encoded_len(&self.info)
    }

    fn nla_emit_value(&self, out: &mut Vec<u8>) {
        emit_list(&self.info, out);
    }

    fn nla_parse(index: usize, kind: u16, payload: &[u8]) -> (r: Result<Self, Nl80211ErrorKind>) {
        let info: Vec<Nl80211BandRateInfo> = items_of(
            parse_list::<Nl80211BandRateInfo>(payload),
        )?;
        Ok(Nl80211BandRate { index: (index % 0x1_0000) as u16, info })
    }
}

/// One piece of information about a bit rate of a band.
#[derive(Debug, PartialEq, Eq, Clone)]
#[non_exhaustive]
pub enum Nl80211BandRateInfo {
    /// Bit rate in units of 100 kbps
    Rate(u32),
    /// A short preamble is supported in the 2.4 GHz band
    Support2GhzShortPreamble,
    /// A record of a kind that has no variant: its type field and its bytes
    Other(RawNla),
}

impl Nl80211Nla for Nl80211BandRateInfo {
    open spec fn namespace() -> Namespace {
        Namespace::BandRateInfo
    }

    open spec fn spec_kind(&self, index: nat) -> u16 {
        match self {
            Self::Rate(_) => NL80211_BITRATE_ATTR_RATE,
            Self::Support2GhzShortPreamble => NL80211_BITRATE_ATTR_2GHZ_SHORTPREAMBLE,
            Self::Other(nla) => nla.kind,
        }
    }

    open spec fn spec_value(&self) -> Value {
        match self {
            Self::Rate(d) => Value::U32(*d),
            Self::Support2GhzShortPreamble => Value::Flag,
            Self::Other(nla) => Value::Bytes(nla.value@),
        }
    }

    open spec fn canonical(&self, index: nat) -> bool {
        match self {
            Self::Other(nla) => Namespace::BandRateInfo.shape(nla_type(nla.kind)) is None,
            _ => true,
        }
    }

    open spec fn lossless(&self) -> bool {
        match self {
            Self::Other(nla) => nla_type_is_stable(nla.kind),
            _ => true,
        }
    }

    proof fn lemma_conforms(&self, index: nat) {
        match self {
            Self::Other(nla) => {},
            _ => crate::nla::lemma_plain_kind(self.spec_kind(index)),
        }
    }

    fn nla_kind(&self, index: usize) -> (k: u16) {
        match self {
            Self::Rate(_) => NL80211_BITRATE_ATTR_RATE,
            Self::Support2GhzShortPreamble => NL80211_BITRATE_ATTR_2GHZ_SHORTPREAMBLE,
            Self::Other(nla) => nla.kind,
        }
    }

    fn nla_value_len(&self) -> (n: usize) {
        match self {
            Self::Rate(_) => 4,
            Self::Support2GhzShortPreamble => 0,
            Self::Other(nla) => nla.value.len(),
        }
    }

    fn nla_encoded_len(&self) -> (r: Option<usize>) {
        match self {
            Self::Rate(_) => Some(4),
            Self::Support2GhzShortPreamble => Some(0),
            Self::Other(nla) => Some(nla.value.len()),
        }
    }

    fn nla_emit_value(&self, out: &mut Vec<u8>) {
        match self {
            Self::Rate(d) => push_u32(out, *d),
            Self::Support2GhzShortPreamble => {
                assert(out@ + Seq::<u8>::empty() =~= out@);
            },
            Self::Other(nla) => push_bytes(out, nla.value.as_slice()),
        }
    }

    fn nla_parse(index: usize, kind: u16, payload: &[u8]) -> (r: Result<Self, Nl80211ErrorKind>) {
        Ok(
            match kind & NLA_TYPE_MASK {
                NL80211_BITRATE_ATTR_RATE => Self::Rate(decode_u32(payload)?),
                NL80211_BITRATE_ATTR_2GHZ_SHORTPREAMBLE => Self::Support2GhzShortPreamble,
                _ => Self::Other(RawNla::new(kind, slice_to_vec(payload))),
            },
        )
    }
}

} // verus!
