use wl_nl80211::element::{can_emit_elements, emit_elements};
use wl_nl80211::{
    Nl80211Attr, Nl80211BssCapabilities, Nl80211ChannelWidth, Nl80211CipherSuite, Nl80211Command,
    Nl80211Element, Nl80211FrameType, Nl80211GetRegulatory, Nl80211HtWiphyChannelType,
    Nl80211InterfaceDelRequest, Nl80211InterfaceGetRequest, Nl80211InterfaceNewRequest,
    Nl80211InterfaceSetChannelRequest, Nl80211InterfaceSetRequest, Nl80211InterfaceType,
    Nl80211RegisterFrame, Nl80211ReqSetRegulatory, Nl80211StartAp, Nl80211WiphyGetRequest, RawNla,
};

#[test]
fn interface_get_request() {
    let request = Nl80211InterfaceGetRequest::new();
    assert!(request.dump);
    assert_eq!(request.message.cmd, Nl80211Command::GetInterface);
    assert!(request.message.attributes.is_empty());
    let request = request.match_index(4);
    assert!(!request.dump);
    assert_eq!(request.message.attributes, vec![Nl80211Attr::IfIndex(4)]);
    let request = Nl80211InterfaceGetRequest::new().match_name(String::from("wlan0"));
    assert!(!request.dump);
    assert_eq!(request.message.attributes, vec![Nl80211Attr::IfName(String::from("wlan0"))]);
}

#[test]
fn interface_set_request() {
    let message = Nl80211InterfaceSetRequest::new(2)
        .with_mon()
        .with_station()
        .with_ap()
        .with_mode(Nl80211InterfaceType::MeshPoint)
        .with_mac(&[1, 2, 3, 4, 5, 6])
        .into_message();
    assert_eq!(message.cmd, Nl80211Command::SetInterface);
    assert_eq!(
        message.attributes,
        vec![
            Nl80211Attr::IfIndex(2),
            Nl80211Attr::IfType(Nl80211InterfaceType::Monitor),
            Nl80211Attr::IfType(Nl80211InterfaceType::Station),
            Nl80211Attr::IfType(Nl80211InterfaceType::Ap),
            Nl80211Attr::IfType(Nl80211InterfaceType::MeshPoint),
            Nl80211Attr::Mac([1, 2, 3, 4, 5, 6]),
        ]
    );
}

#[test]
fn channel_requests_keep_nothing_but_the_interface() {
    let request = Nl80211InterfaceSetChannelRequest::new(5).with_frequency(1).with_center_freq2(2);
    assert_eq!(
        request.as_channel(2412).attrs,
        vec![
            Nl80211Attr::IfIndex(5),
            Nl80211Attr::WiphyFreq(2412),
            Nl80211Attr::ChannelWidth(Nl80211ChannelWidth::NoHt20),
        ]
    );
    assert_eq!(
        Nl80211InterfaceSetChannelRequest::new(5).as_ht40_plus_channel(2412).attrs,
        vec![
            Nl80211Attr::IfIndex(5),
            Nl80211Attr::WiphyFreq(2412),
            Nl80211Attr::ChannelWidth(Nl80211ChannelWidth::Mhz(40)),
            Nl80211Attr::WiphyChannelType(Nl80211HtWiphyChannelType::Ht40Plus),
        ]
    );
    assert_eq!(
        Nl80211InterfaceSetChannelRequest::new(5).as_ht40_minus_channel(2462).attrs,
        vec![
            Nl80211Attr::IfIndex(5),
            Nl80211Attr::WiphyFreq(2462),
            Nl80211Attr::ChannelWidth(Nl80211ChannelWidth::Mhz(40)),
            Nl80211Attr::WiphyChannelType(Nl80211HtWiphyChannelType::Ht40Minus),
        ]
    );
    assert_eq!(
        Nl80211InterfaceSetChannelRequest::new(5).as_vht80_channel(5180, 5210).attrs,
        vec![
            Nl80211Attr::IfIndex(5),
            Nl80211Attr::WiphyFreq(5180),
            Nl80211Attr::ChannelWidth(Nl80211ChannelWidth::Mhz(80)),
            Nl80211Attr::CenterFreq1(5210),
        ]
    );
    assert_eq!(
        Nl80211InterfaceSetChannelRequest::new(5).as_vht160_channel(5180, 5250).attrs[2],
        Nl80211Attr::ChannelWidth(Nl80211ChannelWidth::Mhz(160))
    );
    assert_eq!(
        Nl80211InterfaceSetChannelRequest::new(5).as_vht80p80_channel(5180, 5210, 5775).attrs,
        vec![
            Nl80211Attr::IfIndex(5),
            Nl80211Attr::WiphyFreq(5180),
            Nl80211Attr::ChannelWidth(Nl80211ChannelWidth::Mhz80Plus80),
            Nl80211Attr::CenterFreq1(5210),
            Nl80211Attr::CenterFreq2(5775),
        ]
    );
    let message = Nl80211InterfaceSetChannelRequest::new(5).as_eht320_channel(6115, 6265).into_message();
    assert_eq!(message.cmd, Nl80211Command::SetChannel);
    assert_eq!(message.attributes[2], Nl80211Attr::ChannelWidth(Nl80211ChannelWidth::Mhz(320)));
    assert_eq!(
        Nl80211InterfaceSetChannelRequest::new(5).with_channel_type(Nl80211HtWiphyChannelType::Ht20).clear_except_ifindex().attrs,
        vec![Nl80211Attr::IfIndex(5)]
    );
}

#[test]
fn virtual_interface_requests() {
    let request = Nl80211InterfaceNewRequest::new(1, String::from("mon0"), Nl80211InterfaceType::Monitor);
    assert_eq!(
        request.attrs,
        vec![
            Nl80211Attr::IfIndex(1),
            Nl80211Attr::IfName(String::from("mon0")),
            Nl80211Attr::IfType(Nl80211InterfaceType::Monitor),
        ]
    );
    let request = request.as_station(2, String::from("sta0"));
    assert_eq!(request.attrs[0], Nl80211Attr::IfIndex(2));
    assert_eq!(request.attrs[2], Nl80211Attr::IfType(Nl80211InterfaceType::Station));
    let request = request.as_ap(3, String::from("ap0"));
    assert_eq!(request.attrs[2], Nl80211Attr::IfType(Nl80211InterfaceType::Ap));
    let request = request.as_monitor(4, String::from("mon1"));
    assert_eq!(request.attrs.len(), 3);
    assert_eq!(request.attrs[1], Nl80211Attr::IfName(String::from("mon1")));
    assert_eq!(request.into_message().cmd, Nl80211Command::SetInterface);
    let message = Nl80211InterfaceDelRequest::new(9).into_message();
    assert_eq!(message.cmd, Nl80211Command::DelInterface);
    assert_eq!(message.attributes, vec![Nl80211Attr::IfIndex(9)]);
}

#[test]
fn wiphy_get_request() {
    let request = Nl80211WiphyGetRequest::new()
        .match_index(1)
        .match_name(String::from("phy1"))
        .match_phy_index(2)
        .match_iface_index(3);
    assert_eq!(request.message.cmd, Nl80211Command::GetWiphy);
    assert_eq!(
        request.message.attributes,
        vec![
            Nl80211Attr::SplitWiphyDump,
            Nl80211Attr::Wiphy(1),
            Nl80211Attr::WiphyName(String::from("phy1")),
            Nl80211Attr::Wiphy(2),
            Nl80211Attr::IfIndex(3),
        ]
    );
}

#[test]
fn regulatory_and_frame_requests() {
    let request = Nl80211GetRegulatory::new();
    assert_eq!(request.message.cmd, Nl80211Command::GetReg);
    assert!(request.message.attributes.is_empty());
    let request = Nl80211ReqSetRegulatory::new(String::from("DE"));
    assert_eq!(request.message.cmd, Nl80211Command::ReqSetReg);
    assert_eq!(request.message.attributes, vec![Nl80211Attr::RegAlpha2(String::from("DE"))]);
    let request = Nl80211RegisterFrame::new(3, Nl80211FrameType::Action, vec![0x05, 0x01]);
    assert_eq!(request.message.cmd, Nl80211Command::RegisterFrame);
    assert_eq!(
        request.message.attributes,
        vec![
            Nl80211Attr::IfIndex(3),
            Nl80211Attr::FrameType(Nl80211FrameType::Action),
            Nl80211Attr::FrameMatch(vec![0x05, 0x01]),
        ]
    );
}

#[test]
fn start_of_an_access_point() {
    let ssid = String::from("net");
    let mut request = Nl80211StartAp::new(3, &ssid, 2412, Nl80211ChannelWidth::Mhz(20));
    assert_eq!(request.message.cmd, Nl80211Command::StartAp);
    assert_eq!(
        request.message.attributes,
        vec![
            Nl80211Attr::IfIndex(3),
            Nl80211Attr::Ssid(String::from("net")),
            Nl80211Attr::HiddenSsid(0),
            Nl80211Attr::BeaconInterval(100),
            Nl80211Attr::DtimPeriod(2),
            Nl80211Attr::WiphyFreq(2412),
            Nl80211Attr::ChannelWidth(Nl80211ChannelWidth::Mhz(20)),
            Nl80211Attr::ApSettingsFlags(1),
            Nl80211Attr::ControlPortOverNl80211(true),
            Nl80211Attr::SocketOwner(true),
            Nl80211Attr::ControlPortEthertype,
            Nl80211Attr::ControlPortNoPreauth(true),
        ]
    );
    request.set_security(2, vec![Nl80211CipherSuite::Ccmp, Nl80211CipherSuite::Other(5)], Nl80211CipherSuite::Tkip, vec![0x000FAC02]);
    assert_eq!(
        request.message.attributes[12..].to_vec(),
        vec![
            Nl80211Attr::WpaVersions(2),
            Nl80211Attr::CipherSuitesPairwise(vec![0x000FAC04, 5]),
            Nl80211Attr::CipherSuiteGroup(0x000FAC02),
            Nl80211Attr::AkmSuites(vec![0x000FAC02]),
            Nl80211Attr::Privacy(true),
        ]
    );
    request.set_auth_type(1);
    request.set_auth_type(3);
    assert_eq!(request.message.attributes.len(), 18);
    assert_eq!(request.message.attributes[17], Nl80211Attr::AuthType(3));
    request.set_hidden_ssid(true);
    assert_eq!(request.message.attributes.len(), 18);
    assert_eq!(request.message.attributes[17], Nl80211Attr::HiddenSsid(1));
    request.set_hidden_ssid(false);
    assert_eq!(request.message.attributes.len(), 18);
    assert_eq!(request.message.attributes[17], Nl80211Attr::HiddenSsid(0));
    assert_eq!(request.message.attributes[2], Nl80211Attr::BeaconInterval(100));
    request.add_ies(vec![1]);
    request.add_probe_resp_ies(vec![2]);
    request.add_assoc_resp_ies(vec![3]);
    assert_eq!(
        request.message.attributes[18..].to_vec(),
        vec![Nl80211Attr::Ie(vec![1]), Nl80211Attr::IeProbeResp(vec![2]), Nl80211Attr::IeAssocResp(vec![3])]
    );
}

#[test]
fn the_head_of_a_beacon() {
    let ssid = String::from("net");
    let request = Nl80211StartAp::new(3, &ssid, 2412, Nl80211ChannelWidth::Mhz(20))
        .with_beacon_head([9; 6], Nl80211BssCapabilities::from_bits_retain(0), "old", &[], 1)
        .with_beacon_head(
            [2, 0, 0, 0, 0, 1],
            Nl80211BssCapabilities::from_bits_retain(0x0411),
            "net",
            &[0x82, 0x84, 0x0B],
            6,
        );
    assert_eq!(request.message.attributes.len(), 13);
    let expected: Vec<u8> = vec![
        0x80, 0x00, // frame control
        0x00, 0x00, // duration
        0xFF, 0xFF, 0xFF, 0xFF, 0xFF, 0xFF, // to everyone
        2, 0, 0, 0, 0, 1, // sender
        2, 0, 0, 0, 0, 1, // network
        0x00, 0x00, // sequence control
        0, 0, 0, 0, 0, 0, 0, 0, // timestamp
        100, 0, // beacon interval
        0x11, 0x04, // capabilities
        0x00, 3, b'n', b'e', b't', // name
        0x01, 3, 0x82, 0x84, 0x0B, // rates
        0x03, 1, 6, // channel
    ];
    assert_eq!(request.message.attributes[12], Nl80211Attr::BeaconHead(expected));
}

#[test]
fn the_tail_of_a_beacon() {
    let ssid = String::from("net");
    let request = Nl80211StartAp::new(3, &ssid, 2412, Nl80211ChannelWidth::Mhz(20))
        .with_beacon_tail_raw(&[1, 2, 3])
        .with_beacon_tail(&vec![
            Nl80211Element { id: 48, data: vec![1, 0] },
            Nl80211Element { id: 221, data: vec![] },
        ]);
    assert_eq!(request.message.attributes.len(), 13);
    assert_eq!(request.message.attributes[12], Nl80211Attr::BeaconTail(vec![48, 2, 1, 0, 221, 0]));
    let request = request.with_beacon_tail_raw(&[7, 7]);
    assert_eq!(request.message.attributes.len(), 13);
    assert_eq!(request.message.attributes[12], Nl80211Attr::BeaconTail(vec![7, 7]));
}

#[test]
fn header_flags_are_those_of_netlink() {
    assert_eq!(wl_nl80211::handle::NLM_F_REQUEST, netlink_packet_core::NLM_F_REQUEST);
    assert_eq!(wl_nl80211::handle::NLM_F_ACK, netlink_packet_core::NLM_F_ACK);
    assert_eq!(wl_nl80211::handle::NLM_F_DUMP, netlink_packet_core::NLM_F_DUMP);
    assert_eq!(wl_nl80211::handle::nl80211_header_flags(true), netlink_packet_core::NLM_F_REQUEST | netlink_packet_core::NLM_F_DUMP);
    assert_eq!(wl_nl80211::handle::nl80211_header_flags(false), netlink_packet_core::NLM_F_REQUEST);
    let ack = netlink_packet_core::NLM_F_REQUEST | netlink_packet_core::NLM_F_ACK;
    assert_eq!(Nl80211InterfaceGetRequest::new().header_flags(), 0x301);
    assert_eq!(Nl80211InterfaceGetRequest::new().match_index(1).header_flags(), 1);
    assert_eq!(Nl80211InterfaceSetRequest::new(1).header_flags(), ack);
    assert_eq!(Nl80211InterfaceSetChannelRequest::new(1).header_flags(), ack);
    assert_eq!(Nl80211InterfaceNewRequest::new(1, String::new(), Nl80211InterfaceType::Ap).header_flags(), 1);
    assert_eq!(Nl80211InterfaceDelRequest::new(1).header_flags(), 1);
    assert_eq!(Nl80211WiphyGetRequest::new().header_flags(), 0x301);
    assert_eq!(Nl80211RegisterFrame::new(1, Nl80211FrameType::Action, vec![]).header_flags(), ack);
    assert_eq!(Nl80211GetRegulatory::new().header_flags(), 1);
    assert_eq!(Nl80211ReqSetRegulatory::new(String::from("US")).header_flags(), 1);
    assert_eq!(Nl80211StartAp::new(1, &String::from("a"), 2412, Nl80211ChannelWidth::NoHt20).header_flags(), ack);
}

#[test]
fn requests_keep_and_leave_out_by_variant() {
    let other = |kind: u16| Nl80211Attr::Other(RawNla { kind, value: vec![1, 2] });
    // an attribute of kind 3 that is no index of an interface leaves
    let mut request = Nl80211InterfaceSetChannelRequest::new(5);
    request.attrs.insert(0, other(3));
    request.attrs.push(Nl80211Attr::IfIndex(6));
    request.attrs.push(other(38));
    let cleared = request.clear_except_ifindex();
    assert_eq!(cleared.attrs, vec![Nl80211Attr::IfIndex(5), Nl80211Attr::IfIndex(6)]);
    assert_eq!(cleared.clear_except_ifindex().attrs, vec![Nl80211Attr::IfIndex(5), Nl80211Attr::IfIndex(6)]);
    let request = Nl80211InterfaceSetChannelRequest { attrs: vec![other(3)] };
    assert_eq!(
        request.as_channel(2412).attrs,
        vec![Nl80211Attr::WiphyFreq(2412), Nl80211Attr::ChannelWidth(Nl80211ChannelWidth::NoHt20)]
    );
    // an attribute of kind 14 or 15 that is no part of a beacon stays
    let ssid = String::from("net");
    let mut request = Nl80211StartAp::new(3, &ssid, 2412, Nl80211ChannelWidth::NoHt20);
    request.message.attributes = vec![
        other(14),
        Nl80211Attr::BeaconHead(vec![1]),
        other(15),
        Nl80211Attr::BeaconTail(vec![2]),
        other(53),
        other(126),
    ];
    let request = request.with_beacon_head([0; 6], Nl80211BssCapabilities::from_bits_retain(0), "", &[], 1);
    assert_eq!(request.message.attributes.len(), 6);
    assert_eq!(
        request.message.attributes[..5].to_vec(),
        vec![other(14), other(15), Nl80211Attr::BeaconTail(vec![2]), other(53), other(126)]
    );
    assert!(matches!(&request.message.attributes[5], Nl80211Attr::BeaconHead(head) if head.len() == 43));
    let request = request.with_beacon_tail_raw(&[7]);
    assert_eq!(request.message.attributes.len(), 6);
    assert_eq!(request.message.attributes[0], other(14));
    assert_eq!(request.message.attributes[1], other(15));
    assert_eq!(request.message.attributes[5], Nl80211Attr::BeaconTail(vec![7]));
    let mut request = request.with_beacon_tail(&vec![Nl80211Element { id: 1, data: vec![9] }]);
    assert_eq!(request.message.attributes[1], other(15));
    assert_eq!(request.message.attributes[5], Nl80211Attr::BeaconTail(vec![1, 1, 9]));
    request.set_auth_type(2);
    request.set_hidden_ssid(true);
    assert_eq!(request.message.attributes.len(), 8);
    assert_eq!(request.message.attributes[2], other(53));
    assert_eq!(request.message.attributes[3], other(126));
    assert_eq!(request.message.attributes[6], Nl80211Attr::AuthType(2));
    assert_eq!(request.message.attributes[7], Nl80211Attr::HiddenSsid(1));
}

#[test]
fn the_head_of_a_beacon_has_its_length() {
    let ssid = String::from("net");
    let name = "n".repeat(255);
    let rates = vec![0x82; 255];
    let request = Nl80211StartAp::new(3, &ssid, 2412, Nl80211ChannelWidth::NoHt20).with_beacon_head(
        [2, 0, 0, 0, 0, 1],
        Nl80211BssCapabilities::from_bits_retain(1),
        &name,
        &rates,
        11,
    );
    match request.message.attributes.last() {
        Some(Nl80211Attr::BeaconHead(head)) => {
            assert_eq!(head.len(), 43 + 255 + 255);
            assert_eq!(head[36], 0x00);
            assert_eq!(head[37], 255);
            assert_eq!(head[38 + 255], 0x01);
            assert_eq!(head[39 + 255], 255);
            assert_eq!(head[head.len() - 3..].to_vec(), vec![0x03, 1, 11]);
        }
        _ => panic!("no head"),
    }
}

#[test]
fn the_data_of_an_element_has_at_most_255_bytes() {
    let longest = Nl80211Element { id: 221, data: vec![7; 255] };
    let too_long = Nl80211Element { id: 221, data: vec![7; 256] };
    assert!(longest.can_emit());
    assert!(!too_long.can_emit());
    assert_eq!(longest.buffer_len(), 257);
    let mut bytes = Vec::new();
    longest.emit(&mut bytes);
    assert_eq!(bytes.len(), 257);
    assert_eq!(bytes[..2].to_vec(), vec![221, 255]);
    assert!(can_emit_elements(&vec![longest.clone(), Nl80211Element { id: 0, data: vec![] }]));
    assert!(!can_emit_elements(&vec![longest.clone(), too_long]));
    assert!(can_emit_elements(&vec![]));
    assert_eq!(emit_elements(&vec![Nl80211Element { id: 0, data: vec![] }, Nl80211Element { id: 3, data: vec![6] }]), vec![0, 0, 3, 1, 6]);
}
