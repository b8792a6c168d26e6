// SPDX-License-Identifier: MIT

//! The widths of channels.

use vstd::prelude::*;
use vstd::std_specs::convert::FromSpecImpl;

verus! {

pub const NL80211_CHAN_WIDTH_20_NOHT: u32 = 0;
pub const NL80211_CHAN_WIDTH_20: u32 = 1;
pub const NL80211_CHAN_WIDTH_40: u32 = 2;
pub const NL80211_CHAN_WIDTH_80: u32 = 3;
pub const NL80211_CHAN_WIDTH_80P80: u32 = 4;
pub const NL80211_CHAN_WIDTH_160: u32 = 5;
pub const NL80211_CHAN_WIDTH_5: u32 = 6;
pub const NL80211_CHAN_WIDTH_10: u32 = 7;
pub const NL80211_CHAN_WIDTH_1: u32 = 8;
pub const NL80211_CHAN_WIDTH_2: u32 = 9;
pub const NL80211_CHAN_WIDTH_4: u32 = 10;
pub const NL80211_CHAN_WIDTH_8: u32 = 11;
pub const NL80211_CHAN_WIDTH_16: u32 = 12;
pub const NL80211_CHAN_WIDTH_320: u32 = 13;

/// The width of a channel.
#[derive(Debug, PartialEq, Eq, Clone, Copy)]
pub enum Nl80211ChannelWidth {
    /// 20 MHz, not a high throughput channel
    NoHt20,
    /// A width in MHz: 1, 2, 4, 5, 8, 10, 16, 20, 40, 80, 160 or 320
    Mhz(u32),
    /// Two 80 MHz channels that need not be adjacent
    Mhz80Plus80,
    /// A number without a name
    Other(u32),
}

impl Nl80211ChannelWidth {
    /// The value that a number stands for.
    pub open spec fn spec_from_u32(d: u32) -> Nl80211ChannelWidth {
        match d {
            NL80211_CHAN_WIDTH_20_NOHT => Nl80211ChannelWidth::NoHt20,
            NL80211_CHAN_WIDTH_20 => Nl80211ChannelWidth::Mhz(20),
            NL80211_CHAN_WIDTH_40 => Nl80211ChannelWidth::Mhz(40),
            NL80211_CHAN_WIDTH_80 => Nl80211ChannelWidth::Mhz(80),
            NL80211_CHAN_WIDTH_160 => Nl80211ChannelWidth::Mhz(160),
            NL80211_CHAN_WIDTH_5 => Nl80211ChannelWidth::Mhz(5),
            NL80211_CHAN_WIDTH_10 => Nl80211ChannelWidth::Mhz(10),
            NL80211_CHAN_WIDTH_1 => Nl80211ChannelWidth::Mhz(1),
            NL80211_CHAN_WIDTH_2 => Nl80211ChannelWidth::Mhz(2),
            NL80211_CHAN_WIDTH_4 => Nl80211ChannelWidth::Mhz(4),
            NL80211_CHAN_WIDTH_8 => Nl80211ChannelWidth::Mhz(8),
            NL80211_CHAN_WIDTH_16 => Nl80211ChannelWidth::Mhz(16),
            NL80211_CHAN_WIDTH_320 => Nl80211ChannelWidth::Mhz(320),
            NL80211_CHAN_WIDTH_80P80 => Nl80211ChannelWidth::Mhz80Plus80,
            _ => Nl80211ChannelWidth::Other(d),
        }
    }

    /// The number that stands for a value.
    pub open spec fn spec_to_u32(self) -> u32 {
        match self {
            Nl80211ChannelWidth::NoHt20 => NL80211_CHAN_WIDTH_20_NOHT,
            Nl80211ChannelWidth::Mhz(20) => NL80211_CHAN_WIDTH_20,
            Nl80211ChannelWidth::Mhz(40) => NL80211_CHAN_WIDTH_40,
            Nl80211ChannelWidth::Mhz(80) => NL80211_CHAN_WIDTH_80,
            Nl80211ChannelWidth::Mhz(160) => NL80211_CHAN_WIDTH_160,
            Nl80211ChannelWidth::Mhz(5) => NL80211_CHAN_WIDTH_5,
            Nl80211ChannelWidth::Mhz(10) => NL80211_CHAN_WIDTH_10,
            Nl80211ChannelWidth::Mhz(1) => NL80211_CHAN_WIDTH_1,
            Nl80211ChannelWidth::Mhz(2) => NL80211_CHAN_WIDTH_2,
            Nl80211ChannelWidth::Mhz(4) => NL80211_CHAN_WIDTH_4,
            Nl80211ChannelWidth::Mhz(8) => NL80211_CHAN_WIDTH_8,
            Nl80211ChannelWidth::Mhz(16) => NL80211_CHAN_WIDTH_16,
            Nl80211ChannelWidth::Mhz(320) => NL80211_CHAN_WIDTH_320,
            Nl80211ChannelWidth::Mhz(_) => u32::MAX,
            Nl80211ChannelWidth::Mhz80Plus80 => NL80211_CHAN_WIDTH_80P80,
            Nl80211ChannelWidth::Other(d) => d,
        }
    }

    /// Whether the value is the one that its number is read as: a number
    /// that has a name does not stand in `Other`.
    pub open spec fn canonical(self) -> bool {
        Nl80211ChannelWidth::spec_from_u32(self.spec_to_u32()) == self
    }

    /// Every number stands for a value in canonical form, and that value
    /// stands for the number.
    pub proof fn lemma_from_to(d: u32)
        ensures
            Nl80211ChannelWidth::spec_from_u32(d).spec_to_u32() == d,
            Nl80211ChannelWidth::spec_from_u32(d).canonical(),
    {
    }

    /// The value that a number stands for.
    pub fn from_u32(d: u32) -> (r: Self)
        ensures
            r == Nl80211ChannelWidth::spec_from_u32(d),
    {
        match d {
            NL80211_CHAN_WIDTH_20_NOHT => Self::NoHt20,
            NL80211_CHAN_WIDTH_20 => Nl80211ChannelWidth::Mhz(20),
            NL80211_CHAN_WIDTH_40 => Nl80211ChannelWidth::Mhz(40),
            NL80211_CHAN_WIDTH_80 => Nl80211ChannelWidth::Mhz(80),
            NL80211_CHAN_WIDTH_160 => Nl80211ChannelWidth::Mhz(160),
            NL80211_CHAN_WIDTH_5 => Nl80211ChannelWidth::Mhz(5),
            NL80211_CHAN_WIDTH_10 => Nl80211ChannelWidth::Mhz(10),
            NL80211_CHAN_WIDTH_1 => Nl80211ChannelWidth::Mhz(1),
            NL80211_CHAN_WIDTH_2 => Nl80211ChannelWidth::Mhz(2),
            NL80211_CHAN_WIDTH_4 => Nl80211ChannelWidth::Mhz(4),
            NL80211_CHAN_WIDTH_8 => Nl80211ChannelWidth::Mhz(8),
            NL80211_CHAN_WIDTH_16 => Nl80211ChannelWidth::Mhz(16),
            NL80211_CHAN_WIDTH_320 => Nl80211ChannelWidth::Mhz(320),
            NL80211_CHAN_WIDTH_80P80 => Nl80211ChannelWidth::Mhz80Plus80,
            _ => Self::Other(d),
        }
    }

    /// The number that stands for the value.
    pub fn to_u32(self) -> (r: u32)
        ensures
            r == self.spec_to_u32(),
    {
        match self {
            Nl80211ChannelWidth::NoHt20 => NL80211_CHAN_WIDTH_20_NOHT,
            Nl80211ChannelWidth::Mhz(20) => NL80211_CHAN_WIDTH_20,
            Nl80211ChannelWidth::Mhz(40) => NL80211_CHAN_WIDTH_40,
            Nl80211ChannelWidth::Mhz(80) => NL80211_CHAN_WIDTH_80,
            Nl80211ChannelWidth::Mhz(160) => NL80211_CHAN_WIDTH_160,
            Nl80211ChannelWidth::Mhz(5) => NL80211_CHAN_WIDTH_5,
            Nl80211ChannelWidth::Mhz(10) => NL80211_CHAN_WIDTH_10,
            Nl80211ChannelWidth::Mhz(1) => NL80211_CHAN_WIDTH_1,
            Nl80211ChannelWidth::Mhz(2) => NL80211_CHAN_WIDTH_2,
            Nl80211ChannelWidth::Mhz(4) => NL80211_CHAN_WIDTH_4,
            Nl80211ChannelWidth::Mhz(8) => NL80211_CHAN_WIDTH_8,
            Nl80211ChannelWidth::Mhz(16) => NL80211_CHAN_WIDTH_16,
            Nl80211ChannelWidth::Mhz(320) => NL80211_CHAN_WIDTH_320,
            Nl80211ChannelWidth::Mhz(_) => u32::MAX,
            Nl80211ChannelWidth::Mhz80Plus80 => NL80211_CHAN_WIDTH_80P80,
            Nl80211ChannelWidth::Other(d) => d,
        }
    }
}

impl From<u32> for Nl80211ChannelWidth {
    fn from(d: u32) -> (r: Self) {
        Nl80211ChannelWidth::from_u32(d)
    }
}

impl FromSpecImpl<u32> for Nl80211ChannelWidth {
    open spec fn obeys_from_spec() -> bool {
        true
    }

    open spec fn from_spec(d: u32) -> Self {
        Nl80211ChannelWidth::spec_from_u32(d)
    }
}

impl From<Nl80211ChannelWidth> for u32 {
    fn from(v: Nl80211ChannelWidth) -> (r: u32) {
        v.to_u32()
    }
}

impl FromSpecImpl<Nl80211ChannelWidth> for u32 {
    open spec fn obeys_from_spec() -> bool {
        true
    }

    open spec fn from_spec(v: Nl80211ChannelWidth) -> u32 {
        v.spec_to_u32()
    }
}

} // verus!
