// SPDX-License-Identifier: MIT

use vstd::prelude::*;

use crate::attr::Nl80211Attr;
use crate::command::Nl80211Command;
use crate::handle::NL80211_FLAGS_REQUEST;
use crate::iface::Nl80211InterfaceType;
use crate::message::Nl80211Message;

verus! {

/// The attributes that name a virtual interface and give its type.
fn vif_attrs(index: u32, name: String, mode: Nl80211InterfaceType) -> (attrs: Vec<Nl80211Attr>)
    ensures
        attrs@ == seq![
            Nl80211Attr::IfIndex(index),
            Nl80211Attr::IfName(name),
            Nl80211Attr::IfType(mode),
        ],
{
    let mut attrs: Vec<Nl80211Attr> = Vec::new();
    attrs.push(Nl80211Attr::IfIndex(index));
    attrs.push(Nl80211Attr::IfName(name));
    attrs.push(Nl80211Attr::IfType(mode));
    assert(attrs@ =~= seq![
        Nl80211Attr::IfIndex(index),
        Nl80211Attr::IfName(name),
        Nl80211Attr::IfType(mode),
    ]);
    attrs
}

/// A request for a virtual interface on a wireless device.
pub struct Nl80211InterfaceNewRequest {
    pub attrs: Vec<Nl80211Attr>,
}

impl Nl80211InterfaceNewRequest {
    // Create a new VIF for a specific interface via index
    pub fn new(index: u32, name: String, mode: Nl80211InterfaceType) -> (r: Self)
        ensures
            r.attrs@ == seq![
                Nl80211Attr::IfIndex(index),
                Nl80211Attr::IfName(name),
                Nl80211Attr::IfType(mode),
            ],
    {
        Nl80211InterfaceNewRequest { attrs: vif_attrs(index, name, mode) }
    }

    /// Create new ViF as station
    pub fn as_station(self, index: u32, name: String) -> (r: Self)
        ensures
            r.attrs@ == seq![
                Nl80211Attr::IfIndex(index),
                Nl80211Attr::IfName(name),
                Nl80211Attr::IfType(Nl80211InterfaceType::Station),
            ],
    {
        Nl80211InterfaceNewRequest { attrs: vif_attrs(index, name, Nl80211InterfaceType::Station) }
    }

    /// Create new ViF as ap
    pub fn as_ap(self, index: u32, name: String) -> (r: Self)
        ensures
            r.attrs@ == seq![
                Nl80211Attr::IfIndex(index),
                Nl80211Attr::IfName(name),
                Nl80211Attr::IfType(Nl80211InterfaceType::Ap),
            ],
    {
        Nl80211InterfaceNewRequest { attrs: vif_attrs(index, name, Nl80211InterfaceType::Ap) }
    }

    /// Create new ViF as Monitor
    pub fn as_monitor(self, index: u32, name: String) -> (r: Self)
        ensures
            r.attrs@ == seq![
                Nl80211Attr::IfIndex(index),
                Nl80211Attr::IfName(name),
                Nl80211Attr::IfType(Nl80211InterfaceType::Monitor),
            ],
    {
        Nl80211InterfaceNewRequest { attrs: vif_attrs(index, name, Nl80211InterfaceType::Monitor) }
    }

    /// The flags of the header of the request: it asks for one answer.
    pub fn header_flags(&self) -> (flags: u16)
        ensures
            flags == NL80211_FLAGS_REQUEST,
    {
        NL80211_FLAGS_REQUEST
    }

    /// The message of the request. It is sent as a change of the interface
    /// of the given index.
    pub fn into_message(self) -> (m: Nl80211Message)
        ensures
            m.cmd == Nl80211Command::SetInterface,
            m.attributes@ == self.attrs@,
    {
        Nl80211Message { cmd: Nl80211Command::SetInterface, attributes: self.attrs }
    }
}

/// A request to delete a virtual interface.
pub struct Nl80211InterfaceDelRequest {
    pub attrs: Vec<Nl80211Attr>,
}

impl Nl80211InterfaceDelRequest {
    // Delete a VIF
    pub fn new(index: u32) -> (r: Self)
        ensures
            r.attrs@ == seq![Nl80211Attr::IfIndex(index)],
    {
        let mut attrs: Vec<Nl80211Attr> = Vec::new();
        attrs.push(Nl80211Attr::IfIndex(index));
        assert(attrs@ =~= seq![Nl80211Attr::IfIndex(index)]);
        Nl80211InterfaceDelRequest { attrs }
    }

    /// The flags of the header of the request: it asks for one answer.
    pub fn header_flags(&self) -> (flags: u16)
        ensures
            flags == NL80211_FLAGS_REQUEST,
    {
        NL80211_FLAGS_REQUEST
    }

    /// The message of the request.
    pub fn into_message(self) -> (m: Nl80211Message)
        ensures
            m.cmd == Nl80211Command::DelInterface,
            m.attributes@ == self.attrs@,
    {
        Nl80211Message { cmd: Nl80211Command::DelInterface, attributes: self.attrs }
    }
}

} // verus!
