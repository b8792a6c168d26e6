// SPDX-License-Identifier: MIT

use vstd::prelude::*;

use crate::attr::Nl80211Attr;
use crate::command::Nl80211Command;
use crate::handle::{nl80211_header_flags, NLM_F_DUMP, NLM_F_REQUEST};
use crate::message::Nl80211Message;

verus! {

/// A request for wireless interfaces: all of them, or the one that is named.
pub struct Nl80211InterfaceGetRequest {
    pub message: Nl80211Message,
    /// Whether the answer is a list of all interfaces
    pub dump: bool,
}

impl Nl80211InterfaceGetRequest {
    /// A request for all interfaces.
    pub fn new() -> (r: Self)
        ensures
            r.message.cmd == Nl80211Command::GetInterface,
            r.message.attributes@ == Seq::<Nl80211Attr>::empty(),
            r.dump,
    {
        Nl80211InterfaceGetRequest {
            message: Nl80211Message::new(Nl80211Command::GetInterface),
            dump: true,
        }
    }

    /// The flags of the header of the request: it asks for a list as long as
    /// no interface is named.
    pub fn header_flags(&self) -> (flags: u16)
        ensures
            flags == if self.dump {
                NLM_F_REQUEST | NLM_F_DUMP
            } else {
                NLM_F_REQUEST
            },
    {
        nl80211_header_flags(self.dump)
    }

    /// Lookup a interface by index
    pub fn match_index(self, index: u32) -> (r: Self)
        ensures
            r.message.cmd == self.message.cmd,
            r.message.attributes@ == self.message.attributes@.push(Nl80211Attr::IfIndex(index)),
            !r.dump,
    {
        let mut message = self.message;
        message.push(Nl80211Attr::IfIndex(index));
        Nl80211InterfaceGetRequest { message, dump: false }
    }

    /// Lookup a interface by name
    pub fn match_name(self, name: String) -> (r: Self)
        ensures
            r.message.cmd == self.message.cmd,
            r.message.attributes@ == self.message.attributes@.push(Nl80211Attr::IfName(name)),
            !r.dump,
    {
        let mut message = self.message;
        message.push(Nl80211Attr::IfName(name));
        Nl80211InterfaceGetRequest { message, dump: false }
    }
}

} // verus!
