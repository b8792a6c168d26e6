use wl_nl80211::wiphy::{decode_ciphers, push_ciphers};
use wl_nl80211::{
    Nl80211Attr, Nl80211BandTypes, Nl80211ChannelWidth, Nl80211CipherSuite, Nl80211Command,
    Nl80211DecodeError, Nl80211DfsRegion, Nl80211ErrorKind, Nl80211ExtFeature, Nl80211ExtFeatures,
    Nl80211ExtendedCapability, Nl80211Features, Nl80211FrameType, Nl80211HtCapabilityMask,
    Nl80211HtWiphyChannelType, Nl80211InterfaceType, Nl80211RegDomType, Nl80211RegdomInitiator,
    Nl80211StationInfo, Nl80211TransmitQueueStat, Nl80211VhtCapability,
};

fn value_of(attr: &Nl80211Attr) -> Vec<u8> {
    let mut buffer = vec![0xEE; attr.value_len()];
    attr.emit_value(&mut buffer);
    buffer
}

#[test]
fn regulatory_domain_types() {
    assert_eq!(Nl80211RegDomType::from_u8(0), Nl80211RegDomType::Country);
    assert_eq!(Nl80211RegDomType::from_u8(1), Nl80211RegDomType::World);
    assert_eq!(Nl80211RegDomType::from_u8(2), Nl80211RegDomType::CustomWorld);
    assert_eq!(Nl80211RegDomType::from_u8(3), Nl80211RegDomType::Intersection);
    assert_eq!(Nl80211RegDomType::from_u8(4), Nl80211RegDomType::Other(4));
    for value in 0..=255u8 {
        assert_eq!(Nl80211RegDomType::from_u8(value).to_u8(), value);
        assert_eq!(Nl80211RegdomInitiator::from_u8(value).to_u8(), value);
        assert_eq!(Nl80211DfsRegion::from_u8(value).to_u8(), value);
    }
    assert_eq!(Nl80211RegDomType::parse(&[1, 9, 9]), Ok(Nl80211RegDomType::World));
    assert_eq!(Nl80211RegDomType::parse(&[]), Err(Nl80211ErrorKind::Truncated));
    let mut buffer = [0xEE, 0xEE];
    Nl80211RegDomType::Intersection.emit(&mut buffer);
    assert_eq!(buffer, [3, 0xEE]);
    assert_eq!(Nl80211RegDomType::Intersection.buffer_len(), 1);
}

#[test]
fn regulatory_initiators_and_regions() {
    assert_eq!(Nl80211RegdomInitiator::from_u8(0), Nl80211RegdomInitiator::Core);
    assert_eq!(Nl80211RegdomInitiator::from_u8(1), Nl80211RegdomInitiator::User);
    assert_eq!(Nl80211RegdomInitiator::from_u8(2), Nl80211RegdomInitiator::Driver);
    assert_eq!(Nl80211RegdomInitiator::from_u8(3), Nl80211RegdomInitiator::CountryIE);
    assert_eq!(Nl80211RegdomInitiator::from_u8(9), Nl80211RegdomInitiator::Other(9));
    assert_eq!(Nl80211RegdomInitiator::parse(&[2]), Ok(Nl80211RegdomInitiator::Driver));
    assert_eq!(Nl80211RegdomInitiator::parse(&[]), Err(Nl80211ErrorKind::Truncated));
    assert_eq!(Nl80211DfsRegion::from_u8(0), Nl80211DfsRegion::Unset);
    assert_eq!(Nl80211DfsRegion::from_u8(1), Nl80211DfsRegion::FCC);
    assert_eq!(Nl80211DfsRegion::from_u8(2), Nl80211DfsRegion::ETSI);
    assert_eq!(Nl80211DfsRegion::from_u8(3), Nl80211DfsRegion::JP);
    assert_eq!(Nl80211DfsRegion::from_u8(4), Nl80211DfsRegion::CN);
    assert_eq!(Nl80211DfsRegion::from_u8(5), Nl80211DfsRegion::Unknown(5));
    assert_eq!(Nl80211DfsRegion::parse(&[4, 1]), Ok(Nl80211DfsRegion::CN));
    assert_eq!(Nl80211DfsRegion::parse(&[]), Err(Nl80211ErrorKind::Truncated));
    let mut buffer = [0u8];
    Nl80211DfsRegion::JP.emit(&mut buffer);
    assert_eq!(buffer, [3]);
}

#[test]
fn regulatory_attributes_read_the_first_byte() {
    assert_eq!(Nl80211Attr::parse(49, &[2, 7]), Ok(Nl80211Attr::RegType(Nl80211RegDomType::CustomWorld)));
    assert_eq!(Nl80211Attr::parse(48, &[1]), Ok(Nl80211Attr::RegInitiator(Nl80211RegdomInitiator::User)));
    assert_eq!(
        Nl80211Attr::parse(49, &[]),
        Err(Nl80211DecodeError { kind: Nl80211ErrorKind::Truncated, attr: Some(49), index: None })
    );
    assert_eq!(value_of(&Nl80211Attr::RegType(Nl80211RegDomType::Other(200))), vec![200]);
    assert_eq!(Nl80211Attr::parse(33, b"DE\0"), Ok(Nl80211Attr::RegAlpha2(String::from("DE"))));
}

#[test]
fn cipher_suites() {
    assert_eq!(Nl80211CipherSuite::from(0x000FAC00), Nl80211CipherSuite::UseGroup);
    assert_eq!(Nl80211CipherSuite::from(0x000FAC04), Nl80211CipherSuite::Ccmp);
    assert_eq!(Nl80211CipherSuite::from(0x000FAC0D), Nl80211CipherSuite::BipCmac256);
    assert_eq!(Nl80211CipherSuite::from(0x00147201), Nl80211CipherSuite::Sms4);
    assert_eq!(Nl80211CipherSuite::from(0x000FAC03), Nl80211CipherSuite::Other(0x000FAC03));
    assert_eq!(u32::from(Nl80211CipherSuite::Wep104), 0x000FAC05);
    assert_eq!(u32::from(Nl80211CipherSuite::Other(7)), 7);
    for selector in [0x000FAC00u32, 0x000FAC01, 0x000FAC02, 0x000FAC04, 0x000FAC05, 0x000FAC06, 0x000FAC08, 0x000FAC09, 0x000FAC0A, 0x000FAC0B, 0x000FAC0C, 0x000FAC0D, 0x00147201, 0, u32::MAX] {
        assert_eq!(u32::from(Nl80211CipherSuite::from(selector)), selector);
    }
    let mut bytes = Vec::new();
    push_ciphers(&mut bytes, &vec![Nl80211CipherSuite::Tkip, Nl80211CipherSuite::Gcmp256]);
    let mut expected = 0x000FAC02u32.to_ne_bytes().to_vec();
    expected.extend_from_slice(&0x000FAC09u32.to_ne_bytes());
    assert_eq!(bytes, expected);
    // up to three bytes behind the last selector are not read
    bytes.extend_from_slice(&[1, 2, 3]);
    assert_eq!(decode_ciphers(&bytes), vec![Nl80211CipherSuite::Tkip, Nl80211CipherSuite::Gcmp256]);
    assert_eq!(
        Nl80211Attr::parse(57, &expected),
        Ok(Nl80211Attr::CipherSuites(vec![Nl80211CipherSuite::Tkip, Nl80211CipherSuite::Gcmp256]))
    );
    assert_eq!(Nl80211Attr::CipherSuites(vec![Nl80211CipherSuite::Ccmp; 3]).value_len(), 12);
}

#[test]
fn channel_widths() {
    let named = [
        (0, Nl80211ChannelWidth::NoHt20),
        (1, Nl80211ChannelWidth::Mhz(20)),
        (2, Nl80211ChannelWidth::Mhz(40)),
        (3, Nl80211ChannelWidth::Mhz(80)),
        (4, Nl80211ChannelWidth::Mhz80Plus80),
        (5, Nl80211ChannelWidth::Mhz(160)),
        (6, Nl80211ChannelWidth::Mhz(5)),
        (7, Nl80211ChannelWidth::Mhz(10)),
        (8, Nl80211ChannelWidth::Mhz(1)),
        (9, Nl80211ChannelWidth::Mhz(2)),
        (10, Nl80211ChannelWidth::Mhz(4)),
        (11, Nl80211ChannelWidth::Mhz(8)),
        (12, Nl80211ChannelWidth::Mhz(16)),
        (13, Nl80211ChannelWidth::Mhz(320)),
        (14, Nl80211ChannelWidth::Other(14)),
    ];
    for (number, width) in named {
        assert_eq!(Nl80211ChannelWidth::from(number), width);
        assert_eq!(u32::from(width), number);
    }
    assert_eq!(u32::from(Nl80211ChannelWidth::Mhz(7)), u32::MAX);
    assert_eq!(Nl80211HtWiphyChannelType::from(3), Nl80211HtWiphyChannelType::Ht40Plus);
    assert_eq!(u32::from(Nl80211HtWiphyChannelType::Ht40Minus), 2);
    assert_eq!(Nl80211HtWiphyChannelType::from(9), Nl80211HtWiphyChannelType::Other(9));
}

#[test]
fn interface_types_commands_and_frame_types() {
    assert_eq!(Nl80211InterfaceType::from_u32(2), Nl80211InterfaceType::Station);
    assert_eq!(Nl80211InterfaceType::from_u32(6), Nl80211InterfaceType::Monitor);
    assert_eq!(Nl80211InterfaceType::from_u32(13), Nl80211InterfaceType::Other(13));
    assert_eq!(Nl80211InterfaceType::Nan.to_u32(), 12);
    assert_eq!(Nl80211InterfaceType::parse(&3u32.to_ne_bytes()), Ok(Nl80211InterfaceType::Ap));
    assert_eq!(Nl80211InterfaceType::parse(&[3]), Err(Nl80211ErrorKind::Truncated));
    assert_eq!(Nl80211Command::from_u32(5), Nl80211Command::GetInterface);
    assert_eq!(Nl80211Command::RegisterFrame.to_u32(), 58);
    assert_eq!(Nl80211Command::SetChannel.to_u32(), 65);
    assert_eq!(Nl80211Command::from_u32(250), Nl80211Command::Other(250));
    assert_eq!(Nl80211FrameType::from_u16(0xD0), Nl80211FrameType::Action);
    assert_eq!(Nl80211FrameType::Beacon.to_u16(), 0x80);
    let mut bytes = Vec::new();
    Nl80211FrameType::Auth.emit(&mut bytes);
    assert_eq!(bytes, 0xB0u16.to_ne_bytes().to_vec());
    assert_eq!(
        Nl80211Attr::parse(101, &0x40u16.to_ne_bytes()),
        Ok(Nl80211Attr::FrameType(Nl80211FrameType::ProbeRequest))
    );
}

#[test]
fn capability_blocks_are_written_as_they_were_read() {
    for fill in [0x00u8, 0xFF, 0xA5] {
        let bytes = vec![fill; 26];
        let attr = Nl80211Attr::parse(148, &bytes).unwrap();
        assert_eq!(attr.value_len(), 26);
        assert_eq!(value_of(&attr), bytes);
        assert_eq!(Nl80211Attr::parse(148, &value_of(&attr)), Ok(attr));
        let bytes = vec![fill; 12];
        let cap = Nl80211Attr::parse(157, &bytes).unwrap();
        let mask = Nl80211Attr::parse(176, &bytes).unwrap();
        assert_eq!(value_of(&cap), bytes);
        assert_eq!(value_of(&mask), bytes);
        match (cap, mask) {
            (Nl80211Attr::VhtCap(a), Nl80211Attr::VhtCapMask(b)) => assert_eq!(a, b),
            _ => panic!("another variant"),
        }
        let bytes = vec![fill; 9];
        assert_eq!(value_of(&Nl80211Attr::parse(217, &bytes).unwrap()), bytes);
    }
    assert_eq!(Nl80211HtCapabilityMask::parse(&[0; 25]), Err(Nl80211ErrorKind::WrongLength));
    assert_eq!(Nl80211VhtCapability::parse(&[0; 13]), Err(Nl80211ErrorKind::WrongLength));
    assert_eq!(Nl80211ExtFeatures::parse(&[0; 8]), Err(Nl80211ErrorKind::WrongLength));
    assert_eq!(
        Nl80211Attr::parse(148, &[0; 27]),
        Err(Nl80211DecodeError { kind: Nl80211ErrorKind::WrongLength, attr: Some(148), index: None })
    );
}

#[test]
fn bits_of_blocks() {
    let mut bytes = [0u8; 9];
    bytes[0] = 0b0000_0101;
    bytes[3] = 0b1000_0000;
    let features = Nl80211ExtFeatures::parse(&bytes).unwrap();
    assert!(features.bit(0));
    assert!(!features.bit(1));
    assert!(features.bit(2));
    assert!(features.bit(31));
    assert!(!features.bit(30));
    assert!(!features.bit(72));
    assert!(!features.bit(usize::MAX));
    assert_eq!(features.as_bytes(), &bytes);
    assert_eq!(features.buffer_len(), 9);
    let capability = Nl80211ExtendedCapability::new(&[0x01, 0x80]);
    assert_eq!(capability.len(), 2);
    assert!(capability.bit(0));
    assert!(capability.bit(15));
    assert!(!capability.bit(16));
    assert_eq!(capability.as_bytes(), &[0x01, 0x80]);
    assert_eq!(value_of(&Nl80211Attr::ExtCap(capability.clone())), vec![0x01, 0x80]);
    assert_eq!(Nl80211Attr::parse(170, &[0x01, 0x80]), Ok(Nl80211Attr::ExtCapMask(capability)));
    assert_eq!(Nl80211Attr::parse(169, &[]), Ok(Nl80211Attr::ExtCap(Nl80211ExtendedCapability::new(&[]))));
}

#[test]
fn sets_of_bits() {
    let features = Nl80211Features::from_bits_retain(0x8000_0005);
    assert_eq!(features.bits(), 0x8000_0005);
    assert!(features.contains(Nl80211Features::from_bits_retain(0x5)));
    assert!(!features.contains(Nl80211Features::from_bits_retain(0x2)));
    assert_eq!(value_of(&Nl80211Attr::Features(features)), 0x8000_0005u32.to_ne_bytes().to_vec());
    assert_eq!(Nl80211Attr::parse(143, &0x8000_0005u32.to_ne_bytes()), Ok(Nl80211Attr::Features(features)));
    let bands = Nl80211BandTypes::from_bits_retain(0b1010);
    assert_eq!(bands.bits(), 0b1010);
    assert!(bands.has_band(1));
    assert!(bands.has_band(3));
    assert!(!bands.has_band(0));
    assert_eq!(Nl80211Attr::parse(239, &0b1010u32.to_ne_bytes()), Ok(Nl80211Attr::Bands(bands)));
}

#[test]
fn every_kind_of_the_table_is_read_back() {
    let attrs = vec![
        Nl80211Attr::Generation(1),
        Nl80211Attr::WiphyFreqOffset(2),
        Nl80211Attr::WiphyChannelType(Nl80211HtWiphyChannelType::Ht20),
        Nl80211Attr::CenterFreq1(3),
        Nl80211Attr::CenterFreq2(4),
        Nl80211Attr::WiphyTxPowerLevel(5),
        Nl80211Attr::PsState(6),
        Nl80211Attr::StationInfo(vec![Nl80211StationInfo::TxRetries(1)]),
        Nl80211Attr::TransmitQueueStats(vec![Nl80211TransmitQueueStat::MaxFlows(1)]),
        Nl80211Attr::TransmitQueueLimit(7),
        Nl80211Attr::TransmitQueueMemoryLimit(8),
        Nl80211Attr::TransmitQueueQuantum(9),
        Nl80211Attr::WiphyRetryShort(10),
        Nl80211Attr::WiphyRetryLong(11),
        Nl80211Attr::WiphyFragThreshold(12),
        Nl80211Attr::WiphyRtsThreshold(13),
        Nl80211Attr::WiphyCoverageClass(14),
        Nl80211Attr::MaxNumScanSsids(15),
        Nl80211Attr::MaxNumSchedScanSsids(16),
        Nl80211Attr::MaxScanIeLen(17),
        Nl80211Attr::MaxSchedScanIeLen(18),
        Nl80211Attr::MaxMatchSets(19),
        Nl80211Attr::SupportIbssRsn,
        Nl80211Attr::SupportMeshAuth,
        Nl80211Attr::SupportApUapsd,
        Nl80211Attr::RoamSupport,
        Nl80211Attr::TdlsSupport,
        Nl80211Attr::TdlsExternalSetup,
        Nl80211Attr::MaxNumPmkids(20),
        Nl80211Attr::ControlPortEthertype,
        Nl80211Attr::WiphyAntennaAvailTx(21),
        Nl80211Attr::WiphyAntennaAvailRx(22),
        Nl80211Attr::ApProbeRespOffload(23),
        Nl80211Attr::WiphyAntennaTx(24),
        Nl80211Attr::WiphyAntennaRx(25),
        Nl80211Attr::SplitWiphyDump,
        Nl80211Attr::MaxRemainOnChannelDuration(26),
        Nl80211Attr::OffchannelTxOk,
        Nl80211Attr::MaxNumSchedScanPlans(27),
        Nl80211Attr::MaxScanPlanInterval(28),
        Nl80211Attr::MaxScanPlanIterations(29),
        Nl80211Attr::MaxCsaCounters(30),
        Nl80211Attr::WiphySelfManagedReg,
        Nl80211Attr::SchedScanMaxReqs(31),
        Nl80211Attr::EmlCapability(32),
        Nl80211Attr::MldCapaAndOps(33),
        Nl80211Attr::MaxNumAkmSuites(34),
        Nl80211Attr::MaxHwTimestampPeers(0xFFFF),
        Nl80211Attr::RegType(Nl80211RegDomType::Country),
        Nl80211Attr::RegAlpha2(String::from("00")),
        Nl80211Attr::RegInitiator(Nl80211RegdomInitiator::CountryIE),
        Nl80211Attr::HiddenSsid(1),
        Nl80211Attr::BeaconInterval(100),
        Nl80211Attr::DtimPeriod(2),
        Nl80211Attr::BeaconTail(vec![1, 2, 3]),
        Nl80211Attr::Privacy(true),
        Nl80211Attr::WpaVersions(3),
        Nl80211Attr::CipherSuiteGroup(0x000FAC04),
        Nl80211Attr::AkmSuites(vec![0x000FAC02, 0x000FAC08]),
        Nl80211Attr::AuthType(4),
        Nl80211Attr::ApSettingsFlags(1),
        Nl80211Attr::Ie(vec![]),
        Nl80211Attr::IeProbeResp(vec![221, 0]),
        Nl80211Attr::IeAssocResp(vec![221, 1, 7]),
        Nl80211Attr::ControlPortOverNl80211(true),
        Nl80211Attr::SocketOwner(true),
        Nl80211Attr::ControlPortNoPreauth(true),
    ];
    let mut kinds = std::collections::BTreeSet::new();
    for attr in attrs {
        let value = value_of(&attr);
        assert_eq!(value.len(), attr.value_len());
        assert!(!attr.is_unknown());
        assert!(kinds.insert(attr.kind()));
        assert_eq!(Nl80211Attr::parse(attr.kind(), &value), Ok(attr));
    }
}

#[test]
fn extended_features_by_name() {
    let mut bytes = [0u8; 9];
    bytes[0] = 0b0000_0010; // radio resource measurement, bit 1
    bytes[3] = 0b0000_0100; // control port over messages, bit 26
    bytes[8] = 0b0001_0000; // bit 68
    let features = Nl80211ExtFeatures::parse(&bytes).unwrap();
    assert!(features.has(Nl80211ExtFeature::Rrm));
    assert!(features.has(Nl80211ExtFeature::ControlPortOverNl80211));
    assert!(features.has(Nl80211ExtFeature::SppAmsduSupport));
    assert!(!features.has(Nl80211ExtFeature::VhtIbss));
    assert!(!features.has(Nl80211ExtFeature::DfsOffload));
    assert!(!features.has(Nl80211ExtFeature::Other(71)));
    assert!(!features.has(Nl80211ExtFeature::Other(72)));
    assert!(!features.has(Nl80211ExtFeature::Other(u16::MAX)));
    assert_eq!(Nl80211ExtFeature::from_u16(26), Nl80211ExtFeature::ControlPortOverNl80211);
    assert_eq!(Nl80211ExtFeature::SppAmsduSupport.to_u16(), 68);
    assert_eq!(Nl80211ExtFeature::FourWayHandshakeStaPsk.to_u16(), 15);
    assert_eq!(Nl80211ExtFeature::from_u16(69), Nl80211ExtFeature::Other(69));
    assert_eq!(wl_nl80211::feature::NL80211_FEATURE_SAE, 1 << 5);
    assert_eq!(wl_nl80211::feature::NL80211_FEATURE_ND_RANDOM_MAC_ADDR, 1 << 31);
    assert!(Nl80211Features::from_bits_retain(0x20).contains(Nl80211Features::from_bits_retain(
        wl_nl80211::feature::NL80211_FEATURE_SAE
    )));
}
