// SPDX-License-Identifier: MIT

use vstd::prelude::*;

use crate::attr::Nl80211Attr;
use crate::command::Nl80211Command;
use crate::handle::NL80211_FLAGS_REQUEST_DUMP;
use crate::message::Nl80211Message;

verus! {

/// A request for the wireless devices. The answer about one device may come
/// in several messages.
pub struct Nl80211WiphyGetRequest {
    pub message: Nl80211Message,
}

impl Nl80211WiphyGetRequest {
    /// A request for all devices.
    pub fn new() -> (r: Self)
        ensures
            r.message.cmd == Nl80211Command::GetWiphy,
            r.message.attributes@ == seq![Nl80211Attr::SplitWiphyDump],
    {
        let mut message = Nl80211Message::new(Nl80211Command::GetWiphy);
        message.push(Nl80211Attr::SplitWiphyDump);
        assert(message.attributes@ =~= seq![Nl80211Attr::SplitWiphyDump]);
        Nl80211WiphyGetRequest { message }
    }

    /// The flags of the header of the request: it asks for a list.
    pub fn header_flags(&self) -> (flags: u16)
        ensures
            flags == NL80211_FLAGS_REQUEST_DUMP,
    {
        NL80211_FLAGS_REQUEST_DUMP
    }

    /// Lookup a wiphy by index
    pub fn match_index(self, index: u32) -> (r: Self)
        ensures
            r.message.cmd == self.message.cmd,
            r.message.attributes@ == self.message.attributes@.push(Nl80211Attr::Wiphy(index)),
    {
        let mut message = self.message;
        message.push(Nl80211Attr::Wiphy(index));
        Nl80211WiphyGetRequest { message }
    }

    /// Lookup a wiphy by name
    pub fn match_name(self, name: String) -> (r: Self)
        ensures
            r.message.cmd == self.message.cmd,
            r.message.attributes@ == self.message.attributes@.push(Nl80211Attr::WiphyName(name)),
    {
        let mut message = self.message;
        message.push(Nl80211Attr::WiphyName(name));
        Nl80211WiphyGetRequest { message }
    }

    /// Lookup a wiphy by index
    pub fn match_phy_index(self, index: u32) -> (r: Self)
        ensures
            r.message.cmd == self.message.cmd,
            r.message.attributes@ == self.message.attributes@.push(Nl80211Attr::Wiphy(index)),
    {
        self.match_index(index)
    }

    /// Lookup a wiphy by index
    pub fn match_iface_index(self, index: u32) -> (r: Self)
        ensures
            r.message.cmd == self.message.cmd,
            r.message.attributes@ == self.message.attributes@.push(Nl80211Attr::IfIndex(index)),
    {
        let mut message = self.message;
        message.push(Nl80211Attr::IfIndex(index));
        Nl80211WiphyGetRequest { message }
    }
}

} // verus!
