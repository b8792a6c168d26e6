use netlink_packet_utils::nla::NlasIterator;
use wl_nl80211::{
    Nl80211Attr, Nl80211Command, Nl80211DecodeError, Nl80211ErrorKind, Nl80211InterfaceType,
    Nl80211Message, RawNla,
};

fn bytes_of(message: &Nl80211Message) -> Vec<u8> {
    let mut buffer = vec![0xEE; message.buffer_len()];
    message.emit(&mut buffer);
    buffer
}

#[test]
fn get_interface_with_an_index_is_read_back() {
    let mut message = Nl80211Message::new(Nl80211Command::GetInterface);
    message.push(Nl80211Attr::IfIndex(3));
    let bytes = bytes_of(&message);
    let mut expected = Vec::new();
    expected.extend_from_slice(&8u16.to_ne_bytes());
    expected.extend_from_slice(&3u16.to_ne_bytes());
    expected.extend_from_slice(&3u32.to_ne_bytes());
    assert_eq!(bytes, expected);
    assert_eq!(message.to_bytes(), expected);
    assert_eq!(Nl80211Message::parse(Nl80211Command::GetInterface, &bytes), Ok(message));
}

#[test]
fn a_message_without_attributes_has_no_bytes() {
    let message = Nl80211Message::new(Nl80211Command::GetReg);
    assert_eq!(message.buffer_len(), 0);
    assert_eq!(bytes_of(&message), Vec::<u8>::new());
    assert_eq!(Nl80211Message::parse(Nl80211Command::GetReg, &[]), Ok(message));
}

#[test]
fn attributes_are_read_back_in_their_order() {
    let message = Nl80211Message {
        cmd: Nl80211Command::NewInterface,
        attributes: vec![
            Nl80211Attr::IfName(String::from("wlan0")),
            Nl80211Attr::IfIndex(7),
            Nl80211Attr::SplitWiphyDump,
            Nl80211Attr::IfType(Nl80211InterfaceType::Station),
            Nl80211Attr::Mac([2, 0, 0, 0, 0, 1]),
            Nl80211Attr::IfIndex(8),
            Nl80211Attr::Other(RawNla { kind: 0x1234, value: vec![1, 2, 3, 4, 5] }),
        ],
    };
    let bytes = bytes_of(&message);
    assert_eq!(bytes.len(), message.buffer_len());
    // 4 + 8, 4 + 4, 4, 4 + 4, 4 + 8, 4 + 4, 4 + 8
    assert_eq!(bytes.len(), 12 + 8 + 4 + 8 + 12 + 8 + 12);
    assert_eq!(Nl80211Message::parse(Nl80211Command::NewInterface, &bytes), Ok(message));
}

#[test]
fn the_bytes_of_a_message_are_records_for_the_outside_crate() {
    let message = Nl80211Message {
        cmd: Nl80211Command::SetInterface,
        attributes: vec![Nl80211Attr::IfIndex(7), Nl80211Attr::Ssid(String::from("net")), Nl80211Attr::RoamSupport],
    };
    let bytes = bytes_of(&message);
    let read: Vec<(u16, Vec<u8>)> = NlasIterator::new(&bytes[..])
        .map(|nla| {
            let nla = nla.unwrap();
            (nla.kind(), nla.value().to_vec())
        })
        .collect();
    assert_eq!(
        read,
        vec![(3, 7u32.to_ne_bytes().to_vec()), (52, vec![b'n', b'e', b't', 0]), (131, vec![])]
    );
}

#[test]
fn one_attribute_that_cannot_be_read_fails_the_message() {
    let good = Nl80211Message {
        cmd: Nl80211Command::GetInterface,
        attributes: vec![Nl80211Attr::IfIndex(1), Nl80211Attr::Wdev(2)],
    };
    let mut bytes = bytes_of(&good);
    // an interface name without its terminator
    bytes.extend_from_slice(&7u16.to_ne_bytes());
    bytes.extend_from_slice(&4u16.to_ne_bytes());
    bytes.extend_from_slice(&[b'a', b'b', b'c', 0]);
    assert_eq!(
        Nl80211Message::parse(Nl80211Command::GetInterface, &bytes),
        Err(Nl80211DecodeError { kind: Nl80211ErrorKind::Malformed, attr: Some(4), index: None })
    );
}

#[test]
fn a_broken_header_fails_the_message_and_tells_the_position() {
    let good = Nl80211Message {
        cmd: Nl80211Command::GetInterface,
        attributes: vec![Nl80211Attr::IfIndex(1), Nl80211Attr::Wdev(2)],
    };
    let mut bytes = bytes_of(&good);
    bytes.extend_from_slice(&[1, 2, 3]);
    assert_eq!(
        Nl80211Message::parse(Nl80211Command::GetInterface, &bytes),
        Err(Nl80211DecodeError { kind: Nl80211ErrorKind::Malformed, attr: None, index: Some(2) })
    );
}

#[test]
fn unknown_kinds_do_not_fail_the_message() {
    let mut bytes = Vec::new();
    bytes.extend_from_slice(&6u16.to_ne_bytes());
    bytes.extend_from_slice(&0xFFFFu16.to_ne_bytes());
    bytes.extend_from_slice(&[0xAB, 0xCD, 0, 0]);
    bytes.extend_from_slice(&8u16.to_ne_bytes());
    bytes.extend_from_slice(&3u16.to_ne_bytes());
    bytes.extend_from_slice(&9u32.to_ne_bytes());
    let message = Nl80211Message::parse(Nl80211Command::GetWiphy, &bytes).unwrap();
    assert_eq!(
        message.attributes,
        vec![
            Nl80211Attr::Other(RawNla { kind: 0xFFFF, value: vec![0xAB, 0xCD] }),
            Nl80211Attr::IfIndex(9),
        ]
    );
}

#[test]
fn attributes_are_removed_and_kept_by_variant() {
    let attributes = vec![
        Nl80211Attr::IfIndex(1),
        Nl80211Attr::WiphyFreq(2412),
        Nl80211Attr::IfIndex(2),
        Nl80211Attr::CenterFreq1(2422),
    ];
    let mut message = Nl80211Message { cmd: Nl80211Command::SetChannel, attributes: attributes.clone() };
    message.remove_variant(3);
    assert_eq!(message.cmd, Nl80211Command::SetChannel);
    assert_eq!(message.attributes, vec![Nl80211Attr::WiphyFreq(2412), Nl80211Attr::CenterFreq1(2422)]);
    let mut message = Nl80211Message { cmd: Nl80211Command::SetChannel, attributes };
    message.retain_variant(3);
    assert_eq!(message.attributes, vec![Nl80211Attr::IfIndex(1), Nl80211Attr::IfIndex(2)]);
    message.retain_variant(3);
    assert_eq!(message.attributes, vec![Nl80211Attr::IfIndex(1), Nl80211Attr::IfIndex(2)]);
    message.retain_variant(4);
    assert!(message.attributes.is_empty());
}

#[test]
fn an_attribute_without_a_variant_is_the_variant_of_no_kind() {
    let other = Nl80211Attr::Other(RawNla { kind: 3, value: 9u32.to_ne_bytes().to_vec() });
    assert_eq!(other.kind(), 3);
    assert!(!other.is_variant(3));
    assert!(Nl80211Attr::IfIndex(9).is_variant(3));
    assert!(!Nl80211Attr::IfIndex(9).is_variant(4));
    assert!(!Nl80211Attr::Other(RawNla { kind: 0x1234, value: vec![] }).is_variant(0x1234));
    let attributes = vec![Nl80211Attr::IfIndex(1), other.clone(), Nl80211Attr::Wiphy(0)];
    let mut message = Nl80211Message { cmd: Nl80211Command::SetChannel, attributes: attributes.clone() };
    message.remove_variant(3);
    assert_eq!(message.attributes, vec![other, Nl80211Attr::Wiphy(0)]);
    let mut message = Nl80211Message { cmd: Nl80211Command::SetChannel, attributes };
    message.retain_variant(3);
    assert_eq!(message.attributes, vec![Nl80211Attr::IfIndex(1)]);
}

#[test]
fn messages_are_equal_when_command_and_attributes_are() {
    let a = Nl80211Message { cmd: Nl80211Command::GetInterface, attributes: vec![Nl80211Attr::IfIndex(3), Nl80211Attr::Wiphy(0)] };
    let b = Nl80211Message { cmd: Nl80211Command::GetInterface, attributes: vec![Nl80211Attr::IfIndex(3), Nl80211Attr::Wiphy(0)] };
    let swapped = Nl80211Message { cmd: Nl80211Command::GetInterface, attributes: vec![Nl80211Attr::Wiphy(0), Nl80211Attr::IfIndex(3)] };
    let other_cmd = Nl80211Message { cmd: Nl80211Command::SetInterface, attributes: vec![Nl80211Attr::IfIndex(3), Nl80211Attr::Wiphy(0)] };
    assert_eq!(a, b);
    assert_ne!(a, swapped);
    assert_ne!(a, other_cmd);
    assert!(format!("{:?}", a).contains("IfIndex(3)"));
}

#[test]
fn the_length_of_a_message_is_told_if_it_can_be_written() {
    let message = Nl80211Message {
        cmd: Nl80211Command::GetInterface,
        attributes: vec![Nl80211Attr::IfIndex(1), Nl80211Attr::IfName(String::from("a"))],
    };
    assert_eq!(message.encoded_len(), Some(8 + 8));
    assert_eq!(message.buffer_len(), 16);
    let message = Nl80211Message {
        cmd: Nl80211Command::StartAp,
        attributes: vec![Nl80211Attr::BeaconHead(vec![0; 65531])],
    };
    assert_eq!(message.encoded_len(), Some(65536));
    let message = Nl80211Message {
        cmd: Nl80211Command::StartAp,
        attributes: vec![Nl80211Attr::IfIndex(1), Nl80211Attr::BeaconHead(vec![0; 65532])],
    };
    assert_eq!(message.encoded_len(), None);
}
