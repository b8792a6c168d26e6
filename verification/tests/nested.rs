use wl_nl80211::nla::push_nla;
use wl_nl80211::{
    Nl80211Attr, Nl80211Band, Nl80211BandInfo, Nl80211BandType, Nl80211BssInfo, Nl80211Command,
    Nl80211DecodeError, Nl80211ErrorKind, Nl80211ExtendedCapability, Nl80211FrameType,
    Nl80211Frequency, Nl80211FrequencyInfo, Nl80211IfMode, Nl80211IfTypeExtCapa,
    Nl80211IfTypeExtCapaAttribute, Nl80211IfaceComb, Nl80211IfaceCombAttribute,
    Nl80211IfaceCombLimit, Nl80211IfaceCombLimitAttribute, Nl80211IfaceFrameType,
    Nl80211InterfaceType, Nl80211MloLink, Nl80211MloLinkAttribute, Nl80211BandRate, Nl80211BandRateInfo,
    Nl80211RateInfo, Nl80211StationInfo, Nl80211WowlanTrigerPatternSupport,
    Nl80211WowlanTrigersSupport, RawNla,
};

fn value_of(attr: &Nl80211Attr) -> Vec<u8> {
    let mut buffer = vec![0xEE; attr.value_len()];
    attr.emit_value(&mut buffer);
    buffer
}

fn reread(attr: &Nl80211Attr) -> Result<Nl80211Attr, Nl80211DecodeError> {
    Nl80211Attr::parse(attr.kind(), &value_of(attr))
}

fn record(kind: u16, value: &[u8]) -> Vec<u8> {
    let mut out = Vec::new();
    push_nla(&mut out, kind, value);
    out
}

#[test]
fn hardware_addresses_keep_their_order_and_positions() {
    let attr = Nl80211Attr::MacAddrs(vec![[0xA1; 6], [0xB2; 6], [0xC3; 6]]);
    let mut expected = Vec::new();
    expected.extend(record(0, &[0xA1; 6]));
    expected.extend(record(1, &[0xB2; 6]));
    expected.extend(record(2, &[0xC3; 6]));
    assert_eq!(value_of(&attr), expected);
    assert_eq!(attr.value_len(), 36);
    assert_eq!(reread(&attr), Ok(attr));
}

#[test]
fn hardware_addresses_are_numbered_whatever_their_type_fields_say() {
    let mut value = Vec::new();
    value.extend(record(7, &[1; 6]));
    value.extend(record(7, &[2; 6]));
    assert_eq!(Nl80211Attr::parse(166, &value), Ok(Nl80211Attr::MacAddrs(vec![[1; 6], [2; 6]])));
    let mut value = Vec::new();
    value.extend(record(0, &[1; 6]));
    value.extend(record(1, &[2; 5]));
    assert_eq!(
        Nl80211Attr::parse(166, &value),
        Err(Nl80211DecodeError { kind: Nl80211ErrorKind::WrongLength, attr: Some(166), index: Some(1) })
    );
}

#[test]
fn interface_combinations_keep_their_order_and_positions() {
    let limit = |index: u16, max: u32, types: Vec<Nl80211InterfaceType>| Nl80211IfaceCombLimit {
        index,
        attributes: vec![
            Nl80211IfaceCombLimitAttribute::Max(max),
            Nl80211IfaceCombLimitAttribute::Iftypes(types),
        ],
    };
    let combs = vec![
        Nl80211IfaceComb {
            index: 0,
            attributes: vec![
                Nl80211IfaceCombAttribute::Limits(vec![
                    limit(0, 1, vec![Nl80211InterfaceType::Station]),
                    limit(1, 2, vec![Nl80211InterfaceType::Ap, Nl80211InterfaceType::P2pGo]),
                ]),
                Nl80211IfaceCombAttribute::Maxnum(3),
                Nl80211IfaceCombAttribute::NumChannels(2),
            ],
        },
        Nl80211IfaceComb {
            index: 1,
            attributes: vec![
                Nl80211IfaceCombAttribute::StaApBiMatch,
                Nl80211IfaceCombAttribute::RadarDetectWidths(0x7),
            ],
        },
        Nl80211IfaceComb { index: 2, attributes: vec![] },
    ];
    let attr = Nl80211Attr::InterfaceCombination(combs.clone());
    let read = reread(&attr).unwrap();
    assert_eq!(read, attr);
    match read {
        Nl80211Attr::InterfaceCombination(read) => {
            for (position, comb) in read.iter().enumerate() {
                assert_eq!(comb.index as usize, position);
                assert_eq!(comb, &combs[position]);
            }
        }
        _ => panic!("another variant"),
    }
}

#[test]
fn a_position_that_is_not_the_place_is_read_as_the_place() {
    let attr = Nl80211Attr::InterfaceCombination(vec![
        Nl80211IfaceComb { index: 5, attributes: vec![Nl80211IfaceCombAttribute::Maxnum(1)] },
        Nl80211IfaceComb { index: 9, attributes: vec![Nl80211IfaceCombAttribute::Maxnum(2)] },
    ]);
    assert_eq!(
        reread(&attr),
        Ok(Nl80211Attr::InterfaceCombination(vec![
            Nl80211IfaceComb { index: 0, attributes: vec![Nl80211IfaceCombAttribute::Maxnum(1)] },
            Nl80211IfaceComb { index: 1, attributes: vec![Nl80211IfaceCombAttribute::Maxnum(2)] },
        ]))
    );
}

#[test]
fn station_information_is_read_by_its_own_kinds() {
    let mut value = Vec::new();
    value.extend(record(1, &250u32.to_ne_bytes()));
    value.extend(record(7, &[0xC4]));
    value.extend(record(23, &0x1_0000_0001u64.to_ne_bytes()));
    value.extend(record(38, &[3]));
    value.extend(record(15, &[1, 2, 3, 4, 5]));
    let expected = Nl80211Attr::StationInfo(vec![
        Nl80211StationInfo::InactiveTime(250),
        Nl80211StationInfo::Signal(-60),
        Nl80211StationInfo::RxBytes64(0x1_0000_0001),
        Nl80211StationInfo::ConnectedToGate(true),
        Nl80211StationInfo::Other(RawNla { kind: 15, value: vec![1, 2, 3, 4, 5] }),
    ]);
    assert_eq!(Nl80211Attr::parse(21, &value), Ok(expected));
    // the kinds of station information are not those of the attributes: 3 is
    // the index of an interface outside, the bytes sent inside
    let inside = Nl80211Attr::StationInfo(vec![Nl80211StationInfo::TxBytes(77)]);
    assert_eq!(value_of(&inside), record(3, &77u32.to_ne_bytes()));
    assert_eq!(reread(&inside), Ok(inside));
}

#[test]
fn a_failure_inside_station_information_tells_the_attribute_and_the_position() {
    let mut value = Vec::new();
    value.extend(record(1, &250u32.to_ne_bytes()));
    value.extend(record(2, &[1, 2, 3]));
    assert_eq!(
        Nl80211Attr::parse(21, &value),
        Err(Nl80211DecodeError { kind: Nl80211ErrorKind::Truncated, attr: Some(21), index: Some(1) })
    );
}

#[test]
fn scan_results_are_read_back() {
    let attr = Nl80211Attr::Bss(vec![
        Nl80211BssInfo::Bssid([1, 2, 3, 4, 5, 6]),
        Nl80211BssInfo::Frequency(2412),
        Nl80211BssInfo::Tsf(123456789012),
        Nl80211BssInfo::BeaconInterval(100),
        Nl80211BssInfo::InformationElements(vec![0, 3, b'a', b'b', b'c']),
        Nl80211BssInfo::ProbeResponseData,
        Nl80211BssInfo::SignalMbm(-5000),
        Nl80211BssInfo::SignalMbm(i32::MIN),
        Nl80211BssInfo::SignalMbm(i32::MAX),
        Nl80211BssInfo::Other(RawNla { kind: 19, value: vec![1, 2, 3] }),
    ]);
    assert_eq!(reread(&attr), Ok(attr));
}

#[test]
fn bands_are_read_back_with_their_frequencies_and_rates() {
    let attr = Nl80211Attr::WiphyBands(vec![
        Nl80211Band {
            kind: Nl80211BandType::Band2GHz,
            info: vec![
                Nl80211BandInfo::Freqs(vec![
                    Nl80211Frequency {
                        index: 0,
                        info: vec![Nl80211FrequencyInfo::Freq(2412), Nl80211FrequencyInfo::MaxTxPower(2000)],
                    },
                    Nl80211Frequency {
                        index: 1,
                        info: vec![
                            Nl80211FrequencyInfo::Freq(2484),
                            Nl80211FrequencyInfo::Disabled,
                            Nl80211FrequencyInfo::NoIr,
                        ],
                    },
                ]),
                Nl80211BandInfo::Rates(vec![
                    Nl80211BandRate { index: 0, info: vec![Nl80211BandRateInfo::Rate(10)] },
                    Nl80211BandRate {
                        index: 1,
                        info: vec![Nl80211BandRateInfo::Rate(20), Nl80211BandRateInfo::Support2GhzShortPreamble],
                    },
                ]),
                Nl80211BandInfo::HtMcsSet(vec![0xFF; 16]),
                Nl80211BandInfo::HtCapa(0x19EF),
                Nl80211BandInfo::HtAmpduFactor(3),
            ],
        },
        Nl80211Band {
            kind: Nl80211BandType::Band6GHz,
            info: vec![Nl80211BandInfo::VhtMcsSet(vec![1, 2, 3, 4, 5, 6, 7, 8]), Nl80211BandInfo::VhtCapa(0x0F8259B2)],
        },
        Nl80211Band { kind: Nl80211BandType::Other(9), info: vec![] },
    ]);
    assert_eq!(reread(&attr), Ok(attr));
}

#[test]
fn a_set_of_rates_of_the_wrong_length_is_refused() {
    let inner = record(3, &[0; 15]);
    let value = record(0, &inner);
    assert_eq!(
        Nl80211Attr::parse(22, &value),
        Err(Nl80211DecodeError { kind: Nl80211ErrorKind::WrongLength, attr: Some(22), index: Some(0) })
    );
}

#[test]
fn interface_types_are_told_by_the_kinds_of_their_records() {
    let attr = Nl80211Attr::SupportedIftypes(vec![
        Nl80211IfMode(Nl80211InterfaceType::Station),
        Nl80211IfMode(Nl80211InterfaceType::Ap),
        Nl80211IfMode(Nl80211InterfaceType::Monitor),
    ]);
    let mut expected = Vec::new();
    expected.extend(record(2, &[]));
    expected.extend(record(3, &[]));
    expected.extend(record(6, &[]));
    assert_eq!(value_of(&attr), expected);
    assert_eq!(reread(&attr), Ok(attr));
    let attr = Nl80211Attr::SoftwareIftypes(vec![Nl80211InterfaceType::ApVlan, Nl80211InterfaceType::Other(40)]);
    assert_eq!(reread(&attr), Ok(attr));
}

#[test]
fn supported_commands_are_numbered_by_position() {
    let attr = Nl80211Attr::SupportedCommand(vec![
        Nl80211Command::GetInterface,
        Nl80211Command::StartAp,
        Nl80211Command::Other(200),
    ]);
    let mut expected = Vec::new();
    expected.extend(record(0, &5u32.to_ne_bytes()));
    expected.extend(record(1, &15u32.to_ne_bytes()));
    expected.extend(record(2, &200u32.to_ne_bytes()));
    assert_eq!(value_of(&attr), expected);
    assert_eq!(reread(&attr), Ok(attr));
}

#[test]
fn frame_types_are_listed_by_interface_type() {
    let attr = Nl80211Attr::TxFrameTypes(vec![
        Nl80211IfaceFrameType {
            iface_type: Nl80211InterfaceType::Station,
            attributes: vec![Nl80211FrameType::Action, Nl80211FrameType::ProbeResponse],
        },
        Nl80211IfaceFrameType { iface_type: Nl80211InterfaceType::Ap, attributes: vec![Nl80211FrameType::Other(0xF0)] },
    ]);
    let mut inner = Vec::new();
    inner.extend(record(101, &0xD0u16.to_ne_bytes()));
    inner.extend(record(101, &0x50u16.to_ne_bytes()));
    let mut expected = record(2, &inner);
    expected.extend(record(3, &record(101, &0xF0u16.to_ne_bytes())));
    assert_eq!(value_of(&attr), expected);
    assert_eq!(reread(&attr), Ok(attr.clone()));
    let rx = Nl80211Attr::parse(100, &expected).unwrap();
    match (attr, rx) {
        (Nl80211Attr::TxFrameTypes(a), Nl80211Attr::RxFrameTypes(b)) => assert_eq!(a, b),
        _ => panic!("another variant"),
    }
}

#[test]
fn wake_up_triggers_are_read_back() {
    let attr = Nl80211Attr::WowlanTrigersSupport(vec![
        Nl80211WowlanTrigersSupport::Any,
        Nl80211WowlanTrigersSupport::MagicPkt,
        Nl80211WowlanTrigersSupport::PktPattern(Nl80211WowlanTrigerPatternSupport {
            max_patterns: 20,
            min_pattern_len: 1,
            max_pattern_len: 128,
            max_pkt_offset: 0xFFFF_0000,
        }),
        Nl80211WowlanTrigersSupport::NetDetect(11),
    ]);
    assert_eq!(reread(&attr), Ok(attr));
}

#[test]
fn links_keep_the_kinds_of_their_records() {
    let attr = Nl80211Attr::MloLinks(vec![
        Nl80211MloLink {
            index: 1,
            attributes: vec![Nl80211MloLinkAttribute::LinkId(0), Nl80211MloLinkAttribute::Mac([1; 6])],
        },
        Nl80211MloLink {
            index: 3,
            attributes: vec![Nl80211MloLinkAttribute::LinkId(2), Nl80211MloLinkAttribute::Mac([2; 6])],
        },
    ]);
    let mut first = Vec::new();
    first.extend(record(313, &[0]));
    first.extend(record(6, &[1; 6]));
    let mut second = Vec::new();
    second.extend(record(313, &[2]));
    second.extend(record(6, &[2; 6]));
    let mut expected = record(1, &first);
    expected.extend(record(3, &second));
    assert_eq!(value_of(&attr), expected);
    assert_eq!(reread(&attr), Ok(attr));
}

#[test]
fn extended_capabilities_by_interface_type_are_read_back() {
    let attr = Nl80211Attr::IfTypeExtCap(vec![
        Nl80211IfTypeExtCapa {
            index: 0,
            attributes: vec![
                Nl80211IfTypeExtCapaAttribute::IfType(Nl80211InterfaceType::Station),
                Nl80211IfTypeExtCapaAttribute::ExtCapa(Nl80211ExtendedCapability::new(&[0x04, 0, 0x40])),
                Nl80211IfTypeExtCapaAttribute::ExtCapaMask(Nl80211ExtendedCapability::new(&[0xFF, 0, 0xFF])),
                Nl80211IfTypeExtCapaAttribute::EmlCapability(7),
            ],
        },
        Nl80211IfTypeExtCapa {
            index: 1,
            attributes: vec![Nl80211IfTypeExtCapaAttribute::IfType(Nl80211InterfaceType::Ap)],
        },
    ]);
    assert_eq!(reread(&attr), Ok(attr));
}

#[test]
fn a_nested_flag_on_the_type_field_does_not_change_the_kind() {
    let inner = record(2, &9u32.to_ne_bytes());
    assert_eq!(
        Nl80211Attr::parse(0x8000 | 265, &inner),
        Ok(Nl80211Attr::TransmitQueueStats(vec![wl_nl80211::Nl80211TransmitQueueStat::BacklogPackets(9)]))
    );
}

#[test]
fn signed_numbers_are_read_in_twos_complement() {
    for signal in [i8::MIN, -60, -1, 0, 1, i8::MAX] {
        let attr = Nl80211Attr::StationInfo(vec![Nl80211StationInfo::Signal(signal), Nl80211StationInfo::SignalAvg(signal)]);
        let mut expected = record(7, &signal.to_ne_bytes());
        expected.extend(record(13, &signal.to_ne_bytes()));
        assert_eq!(value_of(&attr), expected);
        assert_eq!(reread(&attr), Ok(attr));
    }
    let attr = Nl80211Attr::Bss(vec![Nl80211BssInfo::SignalMbm(-4200)]);
    assert_eq!(value_of(&attr), record(7, &(-4200i32).to_ne_bytes()));
    assert_eq!(wl_nl80211::bytes::i8_from_byte(0xFF), -1);
    assert_eq!(wl_nl80211::bytes::i8_to_byte(-128), 0x80);
    assert_eq!(wl_nl80211::bytes::i32_from_word(0xFFFF_FFFF), -1);
    assert_eq!(wl_nl80211::bytes::i32_to_word(-2), 0xFFFF_FFFE);
}

#[test]
fn pattern_support_is_four_numbers() {
    let pattern = Nl80211WowlanTrigerPatternSupport {
        max_patterns: 1,
        min_pattern_len: 2,
        max_pattern_len: 3,
        max_pkt_offset: 4,
    };
    let mut bytes = Vec::new();
    pattern.emit(&mut bytes);
    let mut expected = Vec::new();
    for number in [1u32, 2, 3, 4] {
        expected.extend_from_slice(&number.to_ne_bytes());
    }
    assert_eq!(bytes, expected);
    assert_eq!(Nl80211WowlanTrigerPatternSupport::parse(&bytes), Ok(pattern));
    assert_eq!(Nl80211WowlanTrigerPatternSupport::parse(&bytes[..15]), Err(Nl80211ErrorKind::WrongLength));
    let mut value = Vec::new();
    value.extend(record(4, &bytes[..12]));
    assert_eq!(
        Nl80211Attr::parse(118, &value),
        Err(Nl80211DecodeError { kind: Nl80211ErrorKind::WrongLength, attr: Some(118), index: Some(0) })
    );
}

#[test]
fn bit_rates_of_a_station_are_read_back() {
    let attr = Nl80211Attr::StationInfo(vec![
        Nl80211StationInfo::TxBitrate(vec![
            Nl80211RateInfo::Bitrate(1300),
            Nl80211RateInfo::Bitrate32(1300),
            Nl80211RateInfo::VhtMcs(9),
            Nl80211RateInfo::VhtNss(2),
            Nl80211RateInfo::Mhz80Width,
            Nl80211RateInfo::ShortGi,
        ]),
        Nl80211StationInfo::RxBitrate(vec![
            Nl80211RateInfo::Bitrate32(60),
            Nl80211RateInfo::Other(RawNla { kind: 40, value: vec![1] }),
        ]),
    ]);
    let mut tx = Vec::new();
    tx.extend(record(1, &1300u16.to_ne_bytes()));
    tx.extend(record(5, &1300u32.to_ne_bytes()));
    tx.extend(record(6, &[9]));
    tx.extend(record(7, &[2]));
    tx.extend(record(8, &[]));
    tx.extend(record(4, &[]));
    assert_eq!(&value_of(&attr)[..4 + tx.len()], &record(8, &tx)[..]);
    assert_eq!(reread(&attr), Ok(attr));
}

#[test]
fn hardware_addresses_are_numbered_by_their_position() {
    let macs: Vec<[u8; 6]> = vec![[9; 6], [8; 6], [7; 6]];
    let nlas = wl_nl80211::MacAddressNlas::from_macs(&macs);
    assert_eq!(nlas.0.len(), 3);
    for (position, nla) in nlas.0.iter().enumerate() {
        assert_eq!(nla.index as usize, position);
        assert_eq!(nla.mac, macs[position]);
    }
    assert_eq!(nlas.into_macs(), macs);
    assert!(wl_nl80211::MacAddressNlas::from_macs(&vec![]).0.is_empty());
    let mut value = Vec::new();
    value.extend(record(5, &[1; 6]));
    value.extend(record(5, &[2; 6]));
    let read = wl_nl80211::MacAddressNlas::parse(&value).unwrap();
    assert_eq!(read.0[0], wl_nl80211::MacAddressNla { index: 0, mac: [1; 6] });
    assert_eq!(read.0[1], wl_nl80211::MacAddressNla { index: 1, mac: [2; 6] });
}
