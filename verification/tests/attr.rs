use wl_nl80211::{
    Nl80211Attr, Nl80211ChannelWidth, Nl80211DecodeError, Nl80211ErrorKind, Nl80211InterfaceType,
    Nl80211TransmitQueueStat, RawNla,
};

fn value_of(attr: &Nl80211Attr) -> Vec<u8> {
    let mut buffer = vec![0xEE; attr.value_len()];
    attr.emit_value(&mut buffer);
    buffer
}

fn reread(attr: &Nl80211Attr) -> Result<Nl80211Attr, Nl80211DecodeError> {
    Nl80211Attr::parse(attr.kind(), &value_of(attr))
}

#[test]
fn unknown_kind_is_kept_as_it_came() {
    let attr = Nl80211Attr::parse(0xFFFF, &[1, 2, 3]).unwrap();
    assert_eq!(attr, Nl80211Attr::Other(RawNla { kind: 0xFFFF, value: vec![1, 2, 3] }));
    assert!(attr.is_unknown());
    assert_eq!(attr.kind(), 0xFFFF);
    assert_eq!(value_of(&attr), vec![1, 2, 3]);
    let attr = Nl80211Attr::parse(7, &[]).unwrap();
    assert_eq!(attr, Nl80211Attr::Other(RawNla { kind: 7, value: vec![] }));
}

#[test]
fn four_byte_integer_from_three_bytes_is_truncated() {
    assert_eq!(
        Nl80211Attr::parse(3, &[1, 2, 3]),
        Err(Nl80211DecodeError { kind: Nl80211ErrorKind::Truncated, attr: Some(3), index: None })
    );
    assert_eq!(
        Nl80211Attr::parse(3, &[1, 2, 3, 4, 5]),
        Err(Nl80211DecodeError { kind: Nl80211ErrorKind::WrongLength, attr: Some(3), index: None })
    );
}

#[test]
fn hardware_address_is_exactly_six_bytes() {
    assert_eq!(
        Nl80211Attr::parse(6, &[1, 2, 3, 4, 5]),
        Err(Nl80211DecodeError { kind: Nl80211ErrorKind::WrongLength, attr: Some(6), index: None })
    );
    assert_eq!(
        Nl80211Attr::parse(6, &[1, 2, 3, 4, 5, 6, 7]),
        Err(Nl80211DecodeError { kind: Nl80211ErrorKind::WrongLength, attr: Some(6), index: None })
    );
    assert_eq!(Nl80211Attr::parse(6, &[1, 2, 3, 4, 5, 6]), Ok(Nl80211Attr::Mac([1, 2, 3, 4, 5, 6])));
}

#[test]
fn string_is_written_with_its_terminator() {
    let attr = Nl80211Attr::IfName(String::from("abc"));
    assert_eq!(attr.value_len(), 4);
    assert_eq!(value_of(&attr), vec![0x61, 0x62, 0x63, 0x00]);
    assert_eq!(Nl80211Attr::parse(4, &[0x61, 0x62, 0x63, 0x00]), Ok(attr));
    assert_eq!(
        Nl80211Attr::parse(4, &[0x61, 0x62, 0x63]),
        Err(Nl80211DecodeError { kind: Nl80211ErrorKind::Malformed, attr: Some(4), index: None })
    );
}

#[test]
fn flag_is_present_by_being_there() {
    assert_eq!(Nl80211Attr::SupportIbssRsn.value_len(), 0);
    assert_eq!(value_of(&Nl80211Attr::SupportIbssRsn), Vec::<u8>::new());
    assert_eq!(Nl80211Attr::parse(104, &[]), Ok(Nl80211Attr::SupportIbssRsn));
    assert_eq!(Nl80211Attr::parse(104, &[1, 2]), Ok(Nl80211Attr::SupportIbssRsn));
    assert_eq!(value_of(&Nl80211Attr::Privacy(true)), Vec::<u8>::new());
    assert_eq!(value_of(&Nl80211Attr::Privacy(false)), Vec::<u8>::new());
    assert_eq!(Nl80211Attr::parse(70, &[]), Ok(Nl80211Attr::Privacy(true)));
    assert_eq!(reread(&Nl80211Attr::Privacy(false)), Ok(Nl80211Attr::Privacy(true)));
}

#[test]
fn integers_are_written_in_host_order() {
    assert_eq!(value_of(&Nl80211Attr::IfIndex(3)), 3u32.to_ne_bytes().to_vec());
    assert_eq!(value_of(&Nl80211Attr::Wdev(0x0102030405060708)), 0x0102030405060708u64.to_ne_bytes().to_vec());
    assert_eq!(value_of(&Nl80211Attr::BeaconInterval(100)), 100u16.to_ne_bytes().to_vec());
    assert_eq!(value_of(&Nl80211Attr::DtimPeriod(2)), vec![2]);
    assert_eq!(value_of(&Nl80211Attr::Use4Addr(true)), vec![1]);
    assert_eq!(Nl80211Attr::parse(83, &[7]), Ok(Nl80211Attr::Use4Addr(true)));
    assert_eq!(Nl80211Attr::parse(83, &[0]), Ok(Nl80211Attr::Use4Addr(false)));
}

#[test]
fn what_is_written_is_read_back() {
    let attrs = vec![
        Nl80211Attr::Wiphy(0xDEADBEEF),
        Nl80211Attr::WiphyName(String::from("phy0")),
        Nl80211Attr::IfType(Nl80211InterfaceType::Monitor),
        Nl80211Attr::IfType(Nl80211InterfaceType::Other(77)),
        Nl80211Attr::ChannelWidth(Nl80211ChannelWidth::Mhz(80)),
        Nl80211Attr::ChannelWidth(Nl80211ChannelWidth::Mhz80Plus80),
        Nl80211Attr::Mac([1, 2, 3, 4, 5, 6]),
        Nl80211Attr::MacAddrs(vec![[1; 6], [2; 6], [3; 6]]),
        Nl80211Attr::Wdev(u64::MAX),
        Nl80211Attr::Ssid(String::from("caf\u{e9} \u{1F4F6}")),
        Nl80211Attr::CipherSuitesPairwise(vec![0x000FAC04, 0x000FAC02]),
        Nl80211Attr::BeaconHead(vec![0x80, 0, 0, 0, 0xFF]),
        Nl80211Attr::FrameMatch(vec![]),
        Nl80211Attr::FrameMatch(vec![5, 1]),
        Nl80211Attr::TransmitQueueStats(vec![
            Nl80211TransmitQueueStat::Flows(9),
            Nl80211TransmitQueueStat::Other(RawNla { kind: 99, value: vec![1, 2, 3] }),
            Nl80211TransmitQueueStat::Drops(1),
        ]),
        Nl80211Attr::Other(RawNla { kind: 0x4007, value: vec![9, 9] }),
    ];
    for attr in attrs {
        assert_eq!(value_of(&attr).len(), attr.value_len());
        assert_eq!(reread(&attr), Ok(attr));
    }
}

#[test]
fn a_number_with_a_name_is_read_as_the_name() {
    assert_eq!(
        reread(&Nl80211Attr::IfType(Nl80211InterfaceType::Other(2))),
        Ok(Nl80211Attr::IfType(Nl80211InterfaceType::Station))
    );
}

#[test]
fn a_failure_inside_a_container_tells_the_position() {
    let mut value = Vec::new();
    wl_nl80211::nla::push_nla(&mut value, 3, &1u32.to_ne_bytes());
    wl_nl80211::nla::push_nla(&mut value, 4, &[1, 2]);
    assert_eq!(
        Nl80211Attr::parse(265, &value),
        Err(Nl80211DecodeError { kind: Nl80211ErrorKind::Truncated, attr: Some(265), index: Some(1) })
    );
    value.truncate(10);
    assert_eq!(
        Nl80211Attr::parse(265, &value),
        Err(Nl80211DecodeError { kind: Nl80211ErrorKind::Malformed, attr: Some(265), index: Some(1) })
    );
}

#[test]
fn the_length_is_told_of_what_can_be_written() {
    assert_eq!(Nl80211Attr::IfIndex(1).encoded_len(), Some(4));
    assert_eq!(Nl80211Attr::IfName(String::from("wlan0")).encoded_len(), Some(6));
    assert_eq!(Nl80211Attr::SplitWiphyDump.encoded_len(), Some(0));
    assert_eq!(Nl80211Attr::BeaconHead(vec![0; 70000]).encoded_len(), Some(70000));
    let stats = Nl80211Attr::TransmitQueueStats(vec![
        Nl80211TransmitQueueStat::Flows(1),
        Nl80211TransmitQueueStat::Other(RawNla { kind: 50, value: vec![0; 5] }),
    ]);
    assert_eq!(stats.encoded_len(), Some(8 + 12));
    assert_eq!(stats.value_len(), 20);
    // a record inside a list holds at most 65531 bytes
    let longest = Nl80211Attr::TransmitQueueStats(vec![Nl80211TransmitQueueStat::Other(RawNla {
        kind: 50,
        value: vec![0; 65531],
    })]);
    assert_eq!(longest.encoded_len(), Some(65536));
    assert_eq!(value_of(&longest).len(), 65536);
    let too_long = Nl80211Attr::TransmitQueueStats(vec![Nl80211TransmitQueueStat::Other(RawNla {
        kind: 50,
        value: vec![0; 65532],
    })]);
    assert_eq!(too_long.encoded_len(), None);
}
