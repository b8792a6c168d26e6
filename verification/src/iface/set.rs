// SPDX-License-Identifier: MIT

use vstd::prelude::*;

use crate::attr::{Nl80211Attr, NL80211_ATTR_IFINDEX};
use crate::channel::Nl80211ChannelWidth;
use crate::command::Nl80211Command;
use crate::handle::NL80211_FLAGS_REQUEST_ACK;
use crate::iface::Nl80211InterfaceType;
use crate::message::{
    lemma_select_variant_members, lemma_select_variant_twice, select, select_variant,
    Nl80211Message,
};
use crate::wifi4::Nl80211HtWiphyChannelType;

verus! {

/// A request to change a wireless interface.
pub struct Nl80211InterfaceSetRequest {
    pub attrs: Vec<Nl80211Attr>,
}

impl Nl80211InterfaceSetRequest {
    // Create a set for a specific interface via index
    pub fn new(index: u32) -> (r: Self)
        ensures
            r.attrs@ == seq![Nl80211Attr::IfIndex(index)],
    {
        let mut attrs: Vec<Nl80211Attr> = Vec::new();
        attrs.push(Nl80211Attr::IfIndex(index));
        assert(attrs@ =~= seq![Nl80211Attr::IfIndex(index)]);
        Nl80211InterfaceSetRequest { attrs }
    }

    /// Set iftype of the interface
    pub fn with_mode(self, mode: Nl80211InterfaceType) -> (r: Self)
        ensures
            r.attrs@ == self.attrs@.push(Nl80211Attr::IfType(mode)),
    {
        let mut attrs = self.attrs;
        attrs.push(Nl80211Attr::IfType(mode));
        Nl80211InterfaceSetRequest { attrs }
    }

    /// Set monitor mode
    pub fn with_mon(self) -> (r: Self)
        ensures
            r.attrs@ == self.attrs@.push(Nl80211Attr::IfType(Nl80211InterfaceType::Monitor)),
    {
        self.with_mode(Nl80211InterfaceType::Monitor)
    }

    // Set station mode
    pub fn with_station(self) -> (r: Self)
        ensures
            r.attrs@ == self.attrs@.push(Nl80211Attr::IfType(Nl80211InterfaceType::Station)),
    {
        self.with_mode(Nl80211InterfaceType::Station)
    }

    // Set ap mode
    pub fn with_ap(self) -> (r: Self)
        ensures
            r.attrs@ == self.attrs@.push(Nl80211Attr::IfType(Nl80211InterfaceType::Ap)),
    {
        self.with_mode(Nl80211InterfaceType::Ap)
    }

    // Set mac address
    pub fn with_mac(self, mac: &[u8; 6]) -> (r: Self)
        ensures
            r.attrs@ == self.attrs@.push(Nl80211Attr::Mac(*mac)),
    {
        let mut attrs = self.attrs;
        attrs.push(Nl80211Attr::Mac(*mac));
        Nl80211InterfaceSetRequest { attrs }
    }

    /// The flags of the header of the request: it asks for an acknowledgement.
    pub fn header_flags(&self) -> (flags: u16)
        ensures
            flags == NL80211_FLAGS_REQUEST_ACK,
    {
        NL80211_FLAGS_REQUEST_ACK
    }

    /// The message that asks for the change.
    pub fn into_message(self) -> (m: Nl80211Message)
        ensures
            m.cmd == Nl80211Command::SetInterface,
            m.attributes@ == self.attrs@,
    {
        Nl80211Message { cmd: Nl80211Command::SetInterface, attributes: self.attrs }
    }
}

/// A request to set the channel of a wireless interface.
pub struct Nl80211InterfaceSetChannelRequest {
    pub attrs: Vec<Nl80211Attr>,
}

impl Nl80211InterfaceSetChannelRequest {
    // Create a set for a specific interface via index
    pub fn new(index: u32) -> (r: Self)
        ensures
            r.attrs@ == seq![Nl80211Attr::IfIndex(index)],
    {
        let mut attrs: Vec<Nl80211Attr> = Vec::new();
        attrs.push(Nl80211Attr::IfIndex(index));
        assert(attrs@ =~= seq![Nl80211Attr::IfIndex(index)]);
        Nl80211InterfaceSetChannelRequest { attrs }
    }

    /// Set frequency of the interface
    pub fn with_frequency(self, freq: u32) -> (r: Self)
        ensures
            r.attrs@ == self.attrs@.push(Nl80211Attr::WiphyFreq(freq)),
    {
        let mut attrs = self.attrs;
        attrs.push(Nl80211Attr::WiphyFreq(freq));
        Nl80211InterfaceSetChannelRequest { attrs }
    }

    /// Set channel width of the interface
    pub fn with_channel_width(self, width: Nl80211ChannelWidth) -> (r: Self)
        ensures
            r.attrs@ == self.attrs@.push(Nl80211Attr::ChannelWidth(width)),
    {
        let mut attrs = self.attrs;
        attrs.push(Nl80211Attr::ChannelWidth(width));
        Nl80211InterfaceSetChannelRequest { attrs }
    }

    /// Set HT channel type of the interface
    pub fn with_channel_type(self, chan_type: Nl80211HtWiphyChannelType) -> (r: Self)
        ensures
            r.attrs@ == self.attrs@.push(Nl80211Attr::WiphyChannelType(chan_type)),
    {
        let mut attrs = self.attrs;
        attrs.push(Nl80211Attr::WiphyChannelType(chan_type));
        Nl80211InterfaceSetChannelRequest { attrs }
    }

    /// Set freq1 for VHT channel
    pub fn with_center_freq1(self, freq: u32) -> (r: Self)
        ensures
            r.attrs@ == self.attrs@.push(Nl80211Attr::CenterFreq1(freq)),
    {
        let mut attrs = self.attrs;
        attrs.push(Nl80211Attr::CenterFreq1(freq));
        Nl80211InterfaceSetChannelRequest { attrs }
    }

    /// Set freq2 for VHT channel
    pub fn with_center_freq2(self, freq: u32) -> (r: Self)
        ensures
            r.attrs@ == self.attrs@.push(Nl80211Attr::CenterFreq2(freq)),
    {
        let mut attrs = self.attrs;
        attrs.push(Nl80211Attr::CenterFreq2(freq));
        Nl80211InterfaceSetChannelRequest { attrs }
    }

    /// Set basic 20MHz channel (no HT)
    pub fn as_channel(self, freq: u32) -> (r: Self)
        ensures
            r.attrs@ == select_variant(self.attrs@, NL80211_ATTR_IFINDEX, true) + seq![
                Nl80211Attr::WiphyFreq(freq),
                Nl80211Attr::ChannelWidth(Nl80211ChannelWidth::NoHt20),
            ],
    {
        let r = self.clear_except_ifindex().with_frequency(freq).with_channel_width(
            Nl80211ChannelWidth::NoHt20,
        );
        assert(r.attrs@ =~= select_variant(self.attrs@, NL80211_ATTR_IFINDEX, true) + seq![
            Nl80211Attr::WiphyFreq(freq),
            Nl80211Attr::ChannelWidth(Nl80211ChannelWidth::NoHt20),
        ]);
        r
    }

    /// Set HT40+ channel
    pub fn as_ht40_plus_channel(self, freq: u32) -> (r: Self)
        ensures
            r.attrs@ == select_variant(self.attrs@, NL80211_ATTR_IFINDEX, true) + seq![
                Nl80211Attr::WiphyFreq(freq),
                Nl80211Attr::ChannelWidth(Nl80211ChannelWidth::Mhz(40)),
                Nl80211Attr::WiphyChannelType(Nl80211HtWiphyChannelType::Ht40Plus),
            ],
    {
        let r = self.clear_except_ifindex().with_frequency(freq).with_channel_width(
            Nl80211ChannelWidth::Mhz(40),
        ).with_channel_type(Nl80211HtWiphyChannelType::Ht40Plus);
        assert(r.attrs@ =~= select_variant(self.attrs@, NL80211_ATTR_IFINDEX, true) + seq![
            Nl80211Attr::WiphyFreq(freq),
            Nl80211Attr::ChannelWidth(Nl80211ChannelWidth::Mhz(40)),
            Nl80211Attr::WiphyChannelType(Nl80211HtWiphyChannelType::Ht40Plus),
        ]);
        r
    }

    /// Set HT40- channel
    pub fn as_ht40_minus_channel(self, freq: u32) -> (r: Self)
        ensures
            r.attrs@ == select_variant(self.attrs@, NL80211_ATTR_IFINDEX, true) + seq![
                Nl80211Attr::WiphyFreq(freq),
                Nl80211Attr::ChannelWidth(Nl80211ChannelWidth::Mhz(40)),
                Nl80211Attr::WiphyChannelType(Nl80211HtWiphyChannelType::Ht40Minus),
            ],
    {
        let r = self.clear_except_ifindex().with_frequency(freq).with_channel_width(
            Nl80211ChannelWidth::Mhz(40),
        ).with_channel_type(Nl80211HtWiphyChannelType::Ht40Minus);
        assert(r.attrs@ =~= select_variant(self.attrs@, NL80211_ATTR_IFINDEX, true) + seq![
            Nl80211Attr::WiphyFreq(freq),
            Nl80211Attr::ChannelWidth(Nl80211ChannelWidth::Mhz(40)),
            Nl80211Attr::WiphyChannelType(Nl80211HtWiphyChannelType::Ht40Minus),
        ]);
        r
    }

    /// Set VHT 80MHz channel
    pub fn as_vht80_channel(self, freq: u32, center_freq1: u32) -> (r: Self)
        ensures
            r.attrs@ == select_variant(self.attrs@, NL80211_ATTR_IFINDEX, true) + seq![
                Nl80211Attr::WiphyFreq(freq),
                Nl80211Attr::ChannelWidth(Nl80211ChannelWidth::Mhz(80)),
                Nl80211Attr::CenterFreq1(center_freq1),
            ],
    {
        self.as_wide_channel(freq, Nl80211ChannelWidth::Mhz(80), center_freq1)
    }

    /// Set VHT 160MHz channel
    pub fn as_vht160_channel(self, freq: u32, center_freq1: u32) -> (r: Self)
        ensures
            r.attrs@ == select_variant(self.attrs@, NL80211_ATTR_IFINDEX, true) + seq![
                Nl80211Attr::WiphyFreq(freq),
                Nl80211Attr::ChannelWidth(Nl80211ChannelWidth::Mhz(160)),
                Nl80211Attr::CenterFreq1(center_freq1),
            ],
    {
        self.as_wide_channel(freq, Nl80211ChannelWidth::Mhz(160), center_freq1)
    }

    /// Set VHT 80+80MHz channel
    pub fn as_vht80p80_channel(self, freq: u32, center_freq1: u32, center_freq2: u32) -> (r: Self)
        ensures
            r.attrs@ == select_variant(self.attrs@, NL80211_ATTR_IFINDEX, true) + seq![
                Nl80211Attr::WiphyFreq(freq),
                Nl80211Attr::ChannelWidth(Nl80211ChannelWidth::Mhz80Plus80),
                Nl80211Attr::CenterFreq1(center_freq1),
                Nl80211Attr::CenterFreq2(center_freq2),
            ],
    {
        let r = self.as_wide_channel(
            freq,
            Nl80211ChannelWidth::Mhz80Plus80,
            center_freq1,
        ).with_center_freq2(center_freq2);
        assert(r.attrs@ =~= select_variant(self.attrs@, NL80211_ATTR_IFINDEX, true) + seq![
            Nl80211Attr::WiphyFreq(freq),
            Nl80211Attr::ChannelWidth(Nl80211ChannelWidth::Mhz80Plus80),
            Nl80211Attr::CenterFreq1(center_freq1),
            Nl80211Attr::CenterFreq2(center_freq2),
        ]);
        r
    }

    /// Set EHT 320MHz channel
    pub fn as_eht320_channel(self, freq: u32, center_freq1: u32) -> (r: Self)
        ensures
            r.attrs@ == select_variant(self.attrs@, NL80211_ATTR_IFINDEX, true) + seq![
                Nl80211Attr::WiphyFreq(freq),
                Nl80211Attr::ChannelWidth(Nl80211ChannelWidth::Mhz(320)),
                Nl80211Attr::CenterFreq1(center_freq1),
            ],
    {
        self.as_wide_channel(freq, Nl80211ChannelWidth::Mhz(320), center_freq1)
    }

    /// Clear all attributes except IfIndex: what is left are the `IfIndex`
    /// attributes of the request, in their order. Clearing again changes
    /// nothing.
    pub fn clear_except_ifindex(self) -> (r: Self)
        ensures
            r.attrs@ == select_variant(self.attrs@, NL80211_ATTR_IFINDEX, true),
            r.attrs@.len() <= self.attrs@.len(),
            forall|i: int| 0 <= i < r.attrs@.len() ==> (#[trigger] r.attrs@[i]) is IfIndex,
            select_variant(r.attrs@, NL80211_ATTR_IFINDEX, true) == r.attrs@,
    {
        proof {
            lemma_select_variant_members(self.attrs@, NL80211_ATTR_IFINDEX, true);
            lemma_select_variant_twice(self.attrs@, NL80211_ATTR_IFINDEX, true);
        }
        Nl80211InterfaceSetChannelRequest { attrs: select(self.attrs, NL80211_ATTR_IFINDEX, true) }
    }

    /// The flags of the header of the request: it asks for an acknowledgement.
    pub fn header_flags(&self) -> (flags: u16)
        ensures
            flags == NL80211_FLAGS_REQUEST_ACK,
    {
        NL80211_FLAGS_REQUEST_ACK
    }

    /// The message that asks for the channel.
    pub fn into_message(self) -> (m: Nl80211Message)
        ensures
            m.cmd == Nl80211Command::SetChannel,
            m.attributes@ == self.attrs@,
    {
        Nl80211Message { cmd: Nl80211Command::SetChannel, attributes: self.attrs }
    }

    /// A channel of the given width around the given center frequency: what
    /// is left of the request is the interface.
    fn as_wide_channel(self, freq: u32, width: Nl80211ChannelWidth, center_freq1: u32) -> (r: Self)
        ensures
            r.attrs@ == select_variant(self.attrs@, NL80211_ATTR_IFINDEX, true) + seq![
                Nl80211Attr::WiphyFreq(freq),
                Nl80211Attr::ChannelWidth(width),
                Nl80211Attr::CenterFreq1(center_freq1),
            ],
    {
        let r = self.clear_except_ifindex().with_frequency(freq).with_channel_width(
            width,
        ).with_center_freq1(center_freq1);
        assert(r.attrs@ =~= select_variant(self.attrs@, NL80211_ATTR_IFINDEX, true) + seq![
            Nl80211Attr::WiphyFreq(freq),
            Nl80211Attr::ChannelWidth(width),
            Nl80211Attr::CenterFreq1(center_freq1),
        ]);
        r
    }
}

} // verus!
