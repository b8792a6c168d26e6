// SPDX-License-Identifier: MIT

//! The requests of an access point: registering for management frames, the
//! regulatory domain, and the start of the access point itself.

use vstd::prelude::*;
use vstd::slice::slice_to_vec;
use vstd::utf8::encode_utf8;

use crate::attr::{
    Nl80211Attr, NL80211_ATTR_AUTH_TYPE, NL80211_ATTR_BEACON_HEAD, NL80211_ATTR_BEACON_TAIL,
    NL80211_ATTR_HIDDEN_SSID,
};
use crate::channel::Nl80211ChannelWidth;
use crate::command::Nl80211Command;
use crate::element::{
    elements_bytes, elements_fit, emit_elements, push_element, Nl80211Element,
    ELEMENT_MAX_DATA_LEN,
};
use crate::frame_type::Nl80211FrameType;
use crate::handle::{NL80211_FLAGS_REQUEST, NL80211_FLAGS_REQUEST_ACK};
use crate::message::{lemma_select_variant_members, select_variant, Nl80211Message};
use crate::scan::Nl80211BssCapabilities;
use crate::wiphy::{cipher_words, Nl80211CipherSuite};

verus! {

/// A request to be handed the management frames of one type that start with
/// given bytes.
pub struct Nl80211RegisterFrame {
    pub message: Nl80211Message,
}

impl Nl80211RegisterFrame {
    /// A request for the frames of type `frame_type` that the interface
    /// `index` receives and that start with `frame_match`.
    pub fn new(index: u32, frame_type: Nl80211FrameType, frame_match: Vec<u8>) -> (r: Self)
        ensures
            r.message.cmd == Nl80211Command::RegisterFrame,
            r.message.attributes@ == seq![
                Nl80211Attr::IfIndex(index),
                Nl80211Attr::FrameType(frame_type),
                Nl80211Attr::FrameMatch(frame_match),
            ],
    {
        let mut message = Nl80211Message::new(Nl80211Command::RegisterFrame);
        message.push(Nl80211Attr::IfIndex(index));
        message.push(Nl80211Attr::FrameType(frame_type));
        message.push(Nl80211Attr::FrameMatch(frame_match));
        assert(message.attributes@ =~= seq![
            Nl80211Attr::IfIndex(index),
            Nl80211Attr::FrameType(frame_type),
            Nl80211Attr::FrameMatch(frame_match),
        ]);
        Nl80211RegisterFrame { message }
    }

    /// The flags of the header of the request: it asks for an acknowledgement.
    pub fn header_flags(&self) -> (flags: u16)
        ensures
            flags == NL80211_FLAGS_REQUEST_ACK,
    {
        NL80211_FLAGS_REQUEST_ACK
    }
}

/// A request for the regulatory domain.
pub struct Nl80211GetRegulatory {
    pub message: Nl80211Message,
}

impl Nl80211GetRegulatory {
    pub fn new() -> (r: Self)
        ensures
            r.message.cmd == Nl80211Command::GetReg,
            r.message.attributes@ == Seq::<Nl80211Attr>::empty(),
    {
        Nl80211GetRegulatory { message: Nl80211Message::new(Nl80211Command::GetReg) }
    }

    /// The flags of the header of the request: it asks for one answer.
    pub fn header_flags(&self) -> (flags: u16)
        ensures
            flags == NL80211_FLAGS_REQUEST,
    {
        NL80211_FLAGS_REQUEST
    }
}

/// A request to change the regulatory domain to that of a country.
pub struct Nl80211ReqSetRegulatory {
    pub message: Nl80211Message,
}

impl Nl80211ReqSetRegulatory {
    pub fn new(alpha2: String) -> (r: Self)
        ensures
            r.message.cmd == Nl80211Command::ReqSetReg,
            r.message.attributes@ == seq![Nl80211Attr::RegAlpha2(alpha2)],
    {
        let mut message = Nl80211Message::new(Nl80211Command::ReqSetReg);
        message.push(Nl80211Attr::RegAlpha2(alpha2));
        assert(message.attributes@ =~= seq![Nl80211Attr::RegAlpha2(alpha2)]);
        Nl80211ReqSetRegulatory { message }
    }

    /// The flags of the header of the request: it asks for one answer.
    pub fn header_flags(&self) -> (flags: u16)
        ensures
            flags == NL80211_FLAGS_REQUEST,
    {
        NL80211_FLAGS_REQUEST
    }
}

/// The name of the network is not hidden.
pub const NL80211_HIDDEN_SSID_NOT_IN_USE: u8 = 0;

/// The name of the network is hidden by sending it with no bytes.
pub const NL80211_HIDDEN_SSID_ZERO_LEN: u8 = 1;

/// Number of bytes of the part of a beacon before the traffic indication map,
/// without the name of the network and the supported rates.
pub const BEACON_HEAD_FIXED_LEN: usize = 43;

/// Beacon interval of an access point, in time units.
pub const AP_BEACON_INTERVAL: u16 = 100;

/// Number of beacon intervals between two delivery traffic indications.
pub const AP_DTIM_PERIOD: u8 = 2;

/// The part of a beacon frame before the traffic indication map: the header
/// of a frame that is sent to everyone, with `src_mac` as its sender and as
/// the identifier of the network, a timestamp of zero, the beacon interval,
/// the capabilities in little-endian order, and three elements: the name of
/// the network, the supported rates and the channel.
pub open spec fn beacon_head_bytes(
    src_mac: Seq<u8>,
    capabilities: u16,
    ssid: Seq<u8>,
    supported_rates: Seq<u8>,
    channel: u8,
) -> Seq<u8> {
    seq![0x80u8, 0x00u8, 0x00u8, 0x00u8] + Seq::new(6, |i: int| 0xFFu8) + src_mac + src_mac
        + seq![0x00u8, 0x00u8] + Seq::new(8, |i: int| 0x00u8) + seq![
        (AP_BEACON_INTERVAL % 0x100) as u8,
        (AP_BEACON_INTERVAL / 0x100) as u8,
    ] + seq![(capabilities % 0x100) as u8, (capabilities / 0x100) as u8]
        + crate::element::element_bytes(0x00, ssid) + crate::element::element_bytes(
        0x01,
        supported_rates,
    ) + crate::element::element_bytes(0x03, seq![channel])
}

/// The selectors of cipher suites.
fn selectors(suites: &Vec<Nl80211CipherSuite>) -> (words: Vec<u32>)
    ensures
        words@ == cipher_words(suites@),
{
    let mut words: Vec<u32> = Vec::new();
    let mut i: usize = 0;
    while i < suites.len()
        invariant
            i <= suites.len(),
            words@.len() == i,
            forall|j: int| 0 <= j < i ==> (#[trigger] words@[j]) == suites@[j].spec_to_u32(),
        decreases suites.len() - i,
    {
        words.push(suites[i].to_u32());
        i += 1;
    }
    assert(words@ =~= cipher_words(suites@));
    words
}

/// A request to start an access point on an interface.
pub struct Nl80211StartAp {
    pub message: Nl80211Message,
}

impl Nl80211StartAp {
    /// Create a new instance with required attributes
    pub fn new(ifindex: u32, ssid: &String, freq: u32, channel_width: Nl80211ChannelWidth) -> (r:
        Self)
        ensures
            r.message.cmd == Nl80211Command::StartAp,
            r.message.attributes@.len() == 12,
            r.message.attributes@[0] == Nl80211Attr::IfIndex(ifindex),
            r.message.attributes@[1] matches Nl80211Attr::Ssid(s) && s@ == ssid@,
            r.message.attributes@.skip(2) == seq![
                Nl80211Attr::HiddenSsid(0),
                Nl80211Attr::BeaconInterval(AP_BEACON_INTERVAL),
                Nl80211Attr::DtimPeriod(AP_DTIM_PERIOD),
                Nl80211Attr::WiphyFreq(freq),
                Nl80211Attr::ChannelWidth(channel_width),
                Nl80211Attr::ApSettingsFlags(1),
                Nl80211Attr::ControlPortOverNl80211(true),
                Nl80211Attr::SocketOwner(true),
                Nl80211Attr::ControlPortEthertype,
                Nl80211Attr::ControlPortNoPreauth(true),
            ],
    {
        let mut message = Nl80211Message::new(Nl80211Command::StartAp);
        message.push(Nl80211Attr::IfIndex(ifindex));
        message.push(Nl80211Attr::Ssid(ssid.clone()));
        message.push(Nl80211Attr::HiddenSsid(0));
        message.push(Nl80211Attr::BeaconInterval(AP_BEACON_INTERVAL));
        message.push(Nl80211Attr::DtimPeriod(AP_DTIM_PERIOD));
        message.push(Nl80211Attr::WiphyFreq(freq));
        message.push(Nl80211Attr::ChannelWidth(channel_width));
        message.push(Nl80211Attr::ApSettingsFlags(1));
        message.push(Nl80211Attr::ControlPortOverNl80211(true));
        message.push(Nl80211Attr::SocketOwner(true));
        message.push(Nl80211Attr::ControlPortEthertype);
        message.push(Nl80211Attr::ControlPortNoPreauth(true));
        assert(message.attributes@.skip(2) =~= seq![
            Nl80211Attr::HiddenSsid(0),
            Nl80211Attr::BeaconInterval(AP_BEACON_INTERVAL),
            Nl80211Attr::DtimPeriod(AP_DTIM_PERIOD),
            Nl80211Attr::WiphyFreq(freq),
            Nl80211Attr::ChannelWidth(channel_width),
            Nl80211Attr::ApSettingsFlags(1),
            Nl80211Attr::ControlPortOverNl80211(true),
            Nl80211Attr::SocketOwner(true),
            Nl80211Attr::ControlPortEthertype,
            Nl80211Attr::ControlPortNoPreauth(true),
        ]);
        Nl80211StartAp { message }
    }

    /// The flags of the header of the request: it asks for an acknowledgement.
    pub fn header_flags(&self) -> (flags: u16)
        ensures
            flags == NL80211_FLAGS_REQUEST_ACK,
    {
        NL80211_FLAGS_REQUEST_ACK
    }

    /// Add optional security settings
    pub fn set_security(
        &mut self,
        wpa_versions: u32,
        cipher_suites_pairwise: Vec<Nl80211CipherSuite>,
        cipher_suite_group: Nl80211CipherSuite,
        akm_suites: Vec<u32>,
    )
        ensures
            final(self).message.cmd == old(self).message.cmd,
            final(self).message.attributes@.len() == old(self).message.attributes@.len() + 5,
            final(self).message.attributes@.take(old(self).message.attributes@.len() as int) == old(
                self,
            ).message.attributes@,
            final(self).message.attributes@[old(self).message.attributes@.len() as int]
                == Nl80211Attr::WpaVersions(wpa_versions),
            final(self).message.attributes@[(old(self).message.attributes@.len() + 1) as int]
                matches Nl80211Attr::CipherSuitesPairwise(words) && words@ == cipher_words(
                cipher_suites_pairwise@,
            ),
            final(self).message.attributes@[(old(self).message.attributes@.len() + 2) as int]
                == Nl80211Attr::CipherSuiteGroup(cipher_suite_group.spec_to_u32()),
            final(self).message.attributes@[(old(self).message.attributes@.len() + 3) as int]
                == Nl80211Attr::AkmSuites(akm_suites),
            final(self).message.attributes@[(old(self).message.attributes@.len() + 4) as int]
                == Nl80211Attr::Privacy(true),
    {
        let words: Vec<u32> = selectors(&cipher_suites_pairwise);
        self.message.push(Nl80211Attr::WpaVersions(wpa_versions));
        self.message.push(Nl80211Attr::CipherSuitesPairwise(words));
        self.message.push(Nl80211Attr::CipherSuiteGroup(cipher_suite_group.to_u32()));
        self.message.push(Nl80211Attr::AkmSuites(akm_suites));
        self.message.push(Nl80211Attr::Privacy(true));
        assert(self.message.attributes@.take(old(self).message.attributes@.len() as int) =~= old(
            self,
        ).message.attributes@);
    }

    /// Set authentication type
    pub fn set_auth_type(&mut self, auth_type: u32)
        ensures
            final(self).message.cmd == old(self).message.cmd,
            final(self).message.attributes@ == select_variant(
                old(self).message.attributes@,
                NL80211_ATTR_AUTH_TYPE,
                false,
            ).push(Nl80211Attr::AuthType(auth_type)),
    {
        self.message.remove_variant(NL80211_ATTR_AUTH_TYPE);
        self.message.push(Nl80211Attr::AuthType(auth_type));
    }

    /// Set hidden SSID: where `hidden` holds, the name of the network is sent
    /// with no bytes; where it does not, the name is not hidden. What the
    /// request said of it before is left out.
    pub fn set_hidden_ssid(&mut self, hidden: bool)
        ensures
            final(self).message.cmd == old(self).message.cmd,
            final(self).message.attributes@ == select_variant(
                old(self).message.attributes@,
                NL80211_ATTR_HIDDEN_SSID,
                false,
            ).push(
                Nl80211Attr::HiddenSsid(
                    if hidden {
                        NL80211_HIDDEN_SSID_ZERO_LEN
                    } else {
                        NL80211_HIDDEN_SSID_NOT_IN_USE
                    },
                ),
            ),
    {
        self.message.remove_variant(NL80211_ATTR_HIDDEN_SSID);
        self.message.push(
            Nl80211Attr::HiddenSsid(
                if hidden {
                    NL80211_HIDDEN_SSID_ZERO_LEN
                } else {
                    NL80211_HIDDEN_SSID_NOT_IN_USE
                },
            ),
        );
    }

    /// Add additional IEs
    pub fn add_ies(&mut self, ies: Vec<u8>)
        ensures
            final(self).message.cmd == old(self).message.cmd,
            final(self).message.attributes@ == old(self).message.attributes@.push(
                Nl80211Attr::Ie(ies),
            ),
    {
        self.message.push(Nl80211Attr::Ie(ies));
    }

    /// Add additional IEs
    pub fn add_probe_resp_ies(&mut self, ies: Vec<u8>)
        ensures
            final(self).message.cmd == old(self).message.cmd,
            final(self).message.attributes@ == old(self).message.attributes@.push(
                Nl80211Attr::IeProbeResp(ies),
            ),
    {
        self.message.push(Nl80211Attr::IeProbeResp(ies));
    }

    /// Add additional IEs
    pub fn add_assoc_resp_ies(&mut self, ies: Vec<u8>)
        ensures
            final(self).message.cmd == old(self).message.cmd,
            final(self).message.attributes@ == old(self).message.attributes@.push(
                Nl80211Attr::IeAssocResp(ies),
            ),
    {
        self.message.push(Nl80211Attr::IeAssocResp(ies));
    }

    /// Puts the part of the beacon before the traffic indication map in the
    /// place of those that the request holds: its `BeaconHead` attributes are
    /// left out, the others keep their order, and the new one stands last.
    /// The name of the network and the supported rates each have at most 255
    /// bytes, for their number is told in one byte.
    pub fn with_beacon_head(
        self,
        src_mac: [u8; 6],
        capabilities: Nl80211BssCapabilities,
        ssid: &str,
        supported_rates: &[u8],
        channel: u8,
    ) -> (r: Self)
        requires
            encode_utf8(ssid@).len() <= ELEMENT_MAX_DATA_LEN,
            supported_rates@.len() <= ELEMENT_MAX_DATA_LEN,
        ensures
            r.message.cmd == self.message.cmd,
            r.message.attributes@.len() > 0,
            r.message.attributes@.drop_last() == select_variant(
                self.message.attributes@,
                NL80211_ATTR_BEACON_HEAD,
                false,
            ),
            forall|i: int|
                0 <= i < r.message.attributes@.len() - 1 ==> !((
                #[trigger] r.message.attributes@[i]) is BeaconHead),
            r.message.attributes@.last() matches Nl80211Attr::BeaconHead(head) && head@
                == beacon_head_bytes(
                src_mac@,
                capabilities@,
                encode_utf8(ssid@),
                supported_rates@,
                channel,
            ) && head@.len() == BEACON_HEAD_FIXED_LEN + encode_utf8(ssid@).len()
                + supported_rates@.len(),
    {
        let mut beacon_head: Vec<u8> = Vec::new();
        // Frame Control
        beacon_head.push(0x80);
        beacon_head.push(0x00);
        // Duration
        beacon_head.push(0x00);
        beacon_head.push(0x00);
        // Destination Address (Broadcast)
        let mut i: usize = 0;
        while i < 6
            invariant
                i <= 6,
                beacon_head@ == seq![0x80u8, 0x00u8, 0x00u8, 0x00u8] + Seq::new(
                    i as nat,
                    |j: int| 0xFFu8,
                ),
            decreases 6 - i,
        {
            beacon_head.push(0xFF);
            i += 1;
            assert(beacon_head@ =~= seq![0x80u8, 0x00u8, 0x00u8, 0x00u8] + Seq::new(
                i as nat,
                |j: int| 0xFFu8,
            ));
        }
        // Source Address
        beacon_head.extend_from_slice(src_mac.as_slice());
        // BSSID
        beacon_head.extend_from_slice(src_mac.as_slice());
        // Sequence Control
        beacon_head.push(0x00);
        beacon_head.push(0x00);
        let ghost start = beacon_head@;
        assert(start =~= seq![0x80u8, 0x00u8, 0x00u8, 0x00u8] + Seq::new(6, |j: int| 0xFFu8)
            + src_mac@ + src_mac@ + seq![0x00u8, 0x00u8]);
        // Timestamp
        let mut i: usize = 0;
        while i < 8
            invariant
                i <= 8,
                beacon_head@ == start + Seq::new(i as nat, |j: int| 0x00u8),
            decreases 8 - i,
        {
            beacon_head.push(0x00);
            i += 1;
            assert(beacon_head@ =~= start + Seq::new(i as nat, |j: int| 0x00u8));
        }
        // Beacon Interval
        beacon_head.push((AP_BEACON_INTERVAL % 0x100) as u8);
        beacon_head.push((AP_BEACON_INTERVAL / 0x100) as u8);
        // Capability Information
        let bits: u16 = capabilities.bits();
        beacon_head.push((bits % 0x100) as u8);
        beacon_head.push((bits / 0x100) as u8);
        let ghost fixed = beacon_head@;
        assert(fixed =~= start + Seq::new(8, |j: int| 0x00u8) + seq![
            (AP_BEACON_INTERVAL % 0x100) as u8,
            (AP_BEACON_INTERVAL / 0x100) as u8,
        ] + seq![(bits % 0x100) as u8, (bits / 0x100) as u8]);
        // SSID, Supported Rates, DS Parameter Set
        push_element(&mut beacon_head, 0x00, ssid.as_bytes());
        push_element(&mut beacon_head, 0x01, supported_rates);
        let current: [u8; 1] = [channel];
        assert(current@ =~= seq![channel]);
        push_element(&mut beacon_head, 0x03, current.as_slice());
        assert(beacon_head@ =~= beacon_head_bytes(
            src_mac@,
            capabilities@,
            encode_utf8(ssid@),
            supported_rates@,
            channel,
        ));
        let mut message = self.message;
        // Remove any existing BeaconHead attribute
        message.remove_variant(NL80211_ATTR_BEACON_HEAD);
        // Add the new BeaconHead attribute
        message.push(Nl80211Attr::BeaconHead(beacon_head));
        proof {
            let kept = select_variant(self.message.attributes@, NL80211_ATTR_BEACON_HEAD, false);
            assert(message.attributes@.drop_last() =~= kept);
            lemma_select_variant_members(
                self.message.attributes@,
                NL80211_ATTR_BEACON_HEAD,
                false,
            );
            assert forall|i: int| 0 <= i < message.attributes@.len() - 1 implies !((
            #[trigger] message.attributes@[i]) is BeaconHead) by {
                assert(message.attributes@[i] == kept[i]);
                kept[i].lemma_variant_of_kind();
            }
        }
        Nl80211StartAp { message }
    }

    /// Set the beacon tail using high-level Information Elements: the
    /// `BeaconTail` attributes of the request are left out, the others keep
    /// their order, and the new one stands last, with the bytes of the
    /// elements. The data of each element has at most 255 bytes.
    pub fn with_beacon_tail(self, elements: &Vec<Nl80211Element>) -> (r: Self)
        requires
            elements_fit(elements@),
        ensures
            r.message.cmd == self.message.cmd,
            r.message.attributes@.len() > 0,
            r.message.attributes@.drop_last() == select_variant(
                self.message.attributes@,
                NL80211_ATTR_BEACON_TAIL,
                false,
            ),
            forall|i: int|
                0 <= i < r.message.attributes@.len() - 1 ==> !((
                #[trigger] r.message.attributes@[i]) is BeaconTail),
            r.message.attributes@.last() matches Nl80211Attr::BeaconTail(tail) && tail@
                == elements_bytes(elements@),
    {
        let beacon_tail_buffer: Vec<u8> = emit_elements(elements);
        self.replace_beacon_tail(beacon_tail_buffer)
    }

    /// Set the beacon tail using raw bytes: the `BeaconTail` attributes of
    /// the request are left out, the others keep their order, and the new
    /// one stands last, with the given bytes.
    pub fn with_beacon_tail_raw(self, elements: &[u8]) -> (r: Self)
        ensures
            r.message.cmd == self.message.cmd,
            r.message.attributes@.len() > 0,
            r.message.attributes@.drop_last() == select_variant(
                self.message.attributes@,
                NL80211_ATTR_BEACON_TAIL,
                false,
            ),
            forall|i: int|
                0 <= i < r.message.attributes@.len() - 1 ==> !((
                #[trigger] r.message.attributes@[i]) is BeaconTail),
            r.message.attributes@.last() matches Nl80211Attr::BeaconTail(tail) && tail@
                == elements@,
    {
        self.replace_beacon_tail(slice_to_vec(elements))
    }

    /// Puts `tail` in the place of the part of the beacon after the traffic
    /// indication map.
    fn replace_beacon_tail(self, tail: Vec<u8>) -> (r: Self)
        ensures
            r.message.cmd == self.message.cmd,
            r.message.attributes@ == select_variant(
                self.message.attributes@,
                NL80211_ATTR_BEACON_TAIL,
                false,
            ).push(Nl80211Attr::BeaconTail(tail)),
            forall|i: int|
                0 <= i < r.message.attributes@.len() - 1 ==> !((
                #[trigger] r.message.attributes@[i]) is BeaconTail),
    {
        let mut message = self.message;
        // Remove any existing BeaconTail attribute
        message.remove_variant(NL80211_ATTR_BEACON_TAIL);
        // Add the new BeaconTail attribute
        message.push(Nl80211Attr::BeaconTail(tail));
        proof {
            let kept = select_variant(self.message.attributes@, NL80211_ATTR_BEACON_TAIL, false);
            lemma_select_variant_members(
                self.message.attributes@,
                NL80211_ATTR_BEACON_TAIL,
                false,
            );
            assert forall|i: int| 0 <= i < message.attributes@.len() - 1 implies !((
            #[trigger] message.attributes@[i]) is BeaconTail) by {
                assert(message.attributes@[i] == kept[i]);
                kept[i].lemma_variant_of_kind();
            }
        }
        Nl80211StartAp { message }
    }
}

} // verus!
