// SPDX-License-Identifier: MIT

//! The attributes of a message: the kinds that are known and the value that
//! each of them carries.

use vstd::prelude::*;

use crate::bytes::ETH_ALEN;
use crate::channel::Nl80211ChannelWidth;
use crate::codec::{all_canonical, records_of, Nl80211Nla};
use crate::command::Nl80211Command;
use crate::error::{Nl80211DecodeError, Nl80211ErrorKind};
use crate::ext_cap::{Nl80211ExtendedCapability, Nl80211IfTypeExtCapa};
use crate::feature::{Nl80211BandTypes, Nl80211ExtFeatures, Nl80211Features};
use crate::frame_type::{Nl80211FrameType, Nl80211IfaceFrameType};
use crate::iface::{Nl80211IfMode, Nl80211IfaceComb, Nl80211InterfaceType};
use crate::mlo::Nl80211MloLink;
use crate::nla::{nla_type, Frame, RawNla};
use crate::reg::{Nl80211RegDomType, Nl80211RegdomInitiator};
use crate::scan::Nl80211BssInfo;
use crate::schema::Namespace;
use crate::station::Nl80211StationInfo;
use crate::stats::Nl80211TransmitQueueStat;
use crate::wifi4::{Nl80211HtCapabilityMask, Nl80211HtWiphyChannelType};
use crate::wifi5::Nl80211VhtCapability;
use crate::wiphy::{
    cipher_words, ciphers_canonical, Nl80211Band, Nl80211CipherSuite,
    Nl80211WowlanTrigersSupport,
};
use crate::wire::{decode_record, decode_records, decode_value, Record, Shape, Value};
mod emit;
mod laws;
mod mac;
mod parse;

pub use self::mac::{
    lemma_mac_addrs_roundtrip, lemma_mac_records_conform, mac_records, mac_records_from,
    MacAddressNla, MacAddressNlas,
};

verus! {

pub const NL80211_ATTR_WIPHY: u16 = 1;
pub const NL80211_ATTR_WIPHY_NAME: u16 = 2;
pub const NL80211_ATTR_IFINDEX: u16 = 3;
pub const NL80211_ATTR_IFNAME: u16 = 4;
pub const NL80211_ATTR_IFTYPE: u16 = 5;
pub const NL80211_ATTR_MAC: u16 = 6;
pub const NL80211_ATTR_BEACON_INTERVAL: u16 = 12;
pub const NL80211_ATTR_DTIM_PERIOD: u16 = 13;
pub const NL80211_ATTR_BEACON_HEAD: u16 = 14;
pub const NL80211_ATTR_BEACON_TAIL: u16 = 15;
pub const NL80211_ATTR_STA_INFO: u16 = 21;
pub const NL80211_ATTR_WIPHY_BANDS: u16 = 22;
pub const NL80211_ATTR_SUPPORTED_IFTYPES: u16 = 32;
pub const NL80211_ATTR_REG_ALPHA2: u16 = 33;
pub const NL80211_ATTR_WIPHY_FREQ: u16 = 38;
pub const NL80211_ATTR_WIPHY_CHANNEL_TYPE: u16 = 39;
pub const NL80211_ATTR_IE: u16 = 42;
pub const NL80211_ATTR_MAX_NUM_SCAN_SSIDS: u16 = 43;
pub const NL80211_ATTR_GENERATION: u16 = 46;
pub const NL80211_ATTR_BSS: u16 = 47;
pub const NL80211_ATTR_REG_INITIATOR: u16 = 48;
pub const NL80211_ATTR_REG_TYPE: u16 = 49;
pub const NL80211_ATTR_SUPPORTED_COMMANDS: u16 = 50;
pub const NL80211_ATTR_SSID: u16 = 52;
pub const NL80211_ATTR_AUTH_TYPE: u16 = 53;
pub const NL80211_ATTR_MAX_SCAN_IE_LEN: u16 = 56;
pub const NL80211_ATTR_CIPHER_SUITES: u16 = 57;
pub const NL80211_ATTR_WIPHY_RETRY_SHORT: u16 = 61;
pub const NL80211_ATTR_WIPHY_RETRY_LONG: u16 = 62;
pub const NL80211_ATTR_WIPHY_FRAG_THRESHOLD: u16 = 63;
pub const NL80211_ATTR_WIPHY_RTS_THRESHOLD: u16 = 64;
pub const NL80211_ATTR_PRIVACY: u16 = 70;
pub const NL80211_ATTR_CIPHER_SUITES_PAIRWISE: u16 = 73;
pub const NL80211_ATTR_CIPHER_SUITE_GROUP: u16 = 74;
pub const NL80211_ATTR_WPA_VERSIONS: u16 = 75;
pub const NL80211_ATTR_AKM_SUITES: u16 = 76;
pub const NL80211_ATTR_4ADDR: u16 = 83;
pub const NL80211_ATTR_MAX_NUM_PMKIDS: u16 = 86;
pub const NL80211_ATTR_WIPHY_COVERAGE_CLASS: u16 = 89;
pub const NL80211_ATTR_FRAME_MATCH: u16 = 91;
pub const NL80211_ATTR_PS_STATE: u16 = 93;
pub const NL80211_ATTR_WIPHY_TX_POWER_LEVEL: u16 = 98;
pub const NL80211_ATTR_TX_FRAME_TYPES: u16 = 99;
pub const NL80211_ATTR_RX_FRAME_TYPES: u16 = 100;
pub const NL80211_ATTR_FRAME_TYPE: u16 = 101;
pub const NL80211_ATTR_CONTROL_PORT_ETHERTYPE: u16 = 102;
pub const NL80211_ATTR_SUPPORT_IBSS_RSN: u16 = 104;
pub const NL80211_ATTR_WIPHY_ANTENNA_TX: u16 = 105;
pub const NL80211_ATTR_WIPHY_ANTENNA_RX: u16 = 106;
pub const NL80211_ATTR_OFFCHANNEL_TX_OK: u16 = 108;
pub const NL80211_ATTR_MAX_REMAIN_ON_CHANNEL_DURATION: u16 = 111;
pub const NL80211_ATTR_WIPHY_ANTENNA_AVAIL_TX: u16 = 113;
pub const NL80211_ATTR_WIPHY_ANTENNA_AVAIL_RX: u16 = 114;
pub const NL80211_ATTR_SUPPORT_MESH_AUTH: u16 = 115;
pub const NL80211_ATTR_WOWLAN_TRIGGERS_SUPPORTED: u16 = 118;
pub const NL80211_ATTR_INTERFACE_COMBINATIONS: u16 = 120;
pub const NL80211_ATTR_SOFTWARE_IFTYPES: u16 = 121;
pub const NL80211_ATTR_MAX_NUM_SCHED_SCAN_SSIDS: u16 = 123;
pub const NL80211_ATTR_MAX_SCHED_SCAN_IE_LEN: u16 = 124;
pub const NL80211_ATTR_HIDDEN_SSID: u16 = 126;
pub const NL80211_ATTR_IE_PROBE_RESP: u16 = 127;
pub const NL80211_ATTR_IE_ASSOC_RESP: u16 = 128;
pub const NL80211_ATTR_SUPPORT_AP_UAPSD: u16 = 130;
pub const NL80211_ATTR_ROAM_SUPPORT: u16 = 131;
pub const NL80211_ATTR_MAX_MATCH_SETS: u16 = 133;
pub const NL80211_ATTR_TDLS_SUPPORT: u16 = 139;
pub const NL80211_ATTR_TDLS_EXTERNAL_SETUP: u16 = 140;
pub const NL80211_ATTR_FEATURE_FLAGS: u16 = 143;
pub const NL80211_ATTR_PROBE_RESP_OFFLOAD: u16 = 144;
pub const NL80211_ATTR_HT_CAPABILITY_MASK: u16 = 148;
pub const NL80211_ATTR_WDEV: u16 = 153;
pub const NL80211_ATTR_VHT_CAPABILITY: u16 = 157;
pub const NL80211_ATTR_CHANNEL_WIDTH: u16 = 159;
pub const NL80211_ATTR_CENTER_FREQ1: u16 = 160;
pub const NL80211_ATTR_CENTER_FREQ2: u16 = 161;
pub const NL80211_ATTR_MAC_ADDRS: u16 = 166;
pub const NL80211_ATTR_EXT_CAPA: u16 = 169;
pub const NL80211_ATTR_EXT_CAPA_MASK: u16 = 170;
pub const NL80211_ATTR_SPLIT_WIPHY_DUMP: u16 = 174;
pub const NL80211_ATTR_VHT_CAPABILITY_MASK: u16 = 176;
pub const NL80211_ATTR_SOCKET_OWNER: u16 = 204;
pub const NL80211_ATTR_MAX_CSA_COUNTERS: u16 = 206;
pub const NL80211_ATTR_WIPHY_SELF_MANAGED_REG: u16 = 216;
pub const NL80211_ATTR_EXT_FEATURES: u16 = 217;
pub const NL80211_ATTR_MAX_NUM_SCHED_SCAN_PLANS: u16 = 222;
pub const NL80211_ATTR_MAX_SCAN_PLAN_INTERVAL: u16 = 223;
pub const NL80211_ATTR_MAX_SCAN_PLAN_ITERATIONS: u16 = 224;
pub const NL80211_ATTR_IFTYPE_EXT_CAPA: u16 = 230;
pub const NL80211_ATTR_BANDS: u16 = 239;
pub const NL80211_ATTR_SCHED_SCAN_MAX_REQS: u16 = 256;
pub const NL80211_ATTR_CONTROL_PORT_OVER_NL80211: u16 = 264;
pub const NL80211_ATTR_TXQ_STATS: u16 = 265;
pub const NL80211_ATTR_TXQ_LIMIT: u16 = 266;
pub const NL80211_ATTR_TXQ_MEMORY_LIMIT: u16 = 267;
pub const NL80211_ATTR_TXQ_QUANTUM: u16 = 268;
pub const NL80211_ATTR_CONTROL_PORT_NO_PREAUTH: u16 = 286;
pub const NL80211_ATTR_WIPHY_FREQ_OFFSET: u16 = 290;
pub const NL80211_ATTR_AP_SETTINGS_FLAGS: u16 = 309;
pub const NL80211_ATTR_MLO_LINKS: u16 = 312;
pub const NL80211_ATTR_MAX_NUM_AKM_SUITES: u16 = 316;
pub const NL80211_ATTR_EML_CAPABILITY: u16 = 317;
pub const NL80211_ATTR_MLD_CAPA_AND_OPS: u16 = 318;
pub const NL80211_ATTR_MAX_HW_TIMESTAMP_PEERS: u16 = 323;

/// An attribute of a message.
#[derive(Debug, PartialEq, Eq, Clone)]
#[non_exhaustive]
pub enum Nl80211Attr {
    /// Index of the wireless device
    Wiphy(u32),
    /// Name of the wireless device
    WiphyName(String),
    /// Index of the network interface
    IfIndex(u32),
    /// Name of the network interface
    IfName(String),
    /// Type of the interface
    IfType(Nl80211InterfaceType),
    /// Extended capabilities by interface type
    IfTypeExtCap(Vec<Nl80211IfTypeExtCapa>),
    /// Hardware address
    Mac([u8; ETH_ALEN]),
    /// Hardware addresses, numbered by their position
    MacAddrs(Vec<[u8; ETH_ALEN]>),
    /// Identifier of the wireless device interface
    Wdev(u64),
    /// Counter that changes when the dumped data changes
    Generation(u32),
    /// Whether frames with four addresses are used
    Use4Addr(bool),
    /// Frequency of the control channel, in MHz
    WiphyFreq(u32),
    /// Offset of the frequency, in kHz
    WiphyFreqOffset(u32),
    /// High throughput type of the channel
    WiphyChannelType(Nl80211HtWiphyChannelType),
    /// Width of the channel
    ChannelWidth(Nl80211ChannelWidth),
    /// Center frequency of the first segment, in MHz
    CenterFreq1(u32),
    /// Center frequency of the second segment, in MHz
    CenterFreq2(u32),
    /// Transmission power, in hundredths of dBm
    WiphyTxPowerLevel(u32),
    /// State of power saving
    PsState(u32),
    /// Name of the network
    Ssid(String),
    /// Information about a station
    StationInfo(Vec<Nl80211StationInfo>),
    /// Statistics of the transmit queue
    TransmitQueueStats(Vec<Nl80211TransmitQueueStat>),
    /// Limit of the transmit queue, in packets
    TransmitQueueLimit(u32),
    /// Limit of the memory of the transmit queue, in bytes
    TransmitQueueMemoryLimit(u32),
    /// Quantum of the transmit queue, in bytes
    TransmitQueueQuantum(u32),
    /// Links of a multi-link device
    MloLinks(Vec<Nl80211MloLink>),
    /// Retry limit for short frames
    WiphyRetryShort(u8),
    /// Retry limit for long frames
    WiphyRetryLong(u8),
    /// Length above which frames are fragmented
    WiphyFragThreshold(u32),
    /// Length above which a frame is announced before it is sent
    WiphyRtsThreshold(u32),
    /// Coverage class
    WiphyCoverageClass(u8),
    /// How many network names one scan request may hold
    MaxNumScanSsids(u8),
    /// How many network names one scheduled scan request may hold
    MaxNumSchedScanSsids(u8),
    /// Longest information element that a scan request may hold
    MaxScanIeLen(u16),
    /// Longest information element that a scheduled scan request may hold
    MaxSchedScanIeLen(u16),
    /// How many match sets a scheduled scan may hold
    MaxMatchSets(u8),
    /// The device supports robust security in independent networks
    SupportIbssRsn,
    /// The device supports authenticated mesh links
    SupportMeshAuth,
    /// The device supports unscheduled automatic power save delivery as an
    /// access point
    SupportApUapsd,
    /// The device roams by itself
    RoamSupport,
    /// The device supports tunneled direct links
    TdlsSupport,
    /// Tunneled direct links are set up outside the device
    TdlsExternalSetup,
    /// The cipher suites that the device supports
    CipherSuites(Vec<Nl80211CipherSuite>),
    /// How many cached keys the device can hold
    MaxNumPmkids(u8),
    /// The device can use a protocol other than the usual one for the control
    /// port
    ControlPortEthertype,
    /// Bitmap of the antennas that can be set up for sending
    WiphyAntennaAvailTx(u32),
    /// Bitmap of the antennas that can be set up for receiving
    WiphyAntennaAvailRx(u32),
    /// Bitmap of the protocols for which the device answers probe requests by
    /// itself
    ApProbeRespOffload(u32),
    /// Bitmap of the antennas that are used for sending
    WiphyAntennaTx(u32),
    /// Bitmap of the antennas that are used for receiving
    WiphyAntennaRx(u32),
    /// The interface types that the device supports
    SupportedIftypes(Vec<Nl80211IfMode>),
    /// The bands of the device
    WiphyBands(Vec<Nl80211Band>),
    /// flag attribute, indicate userspace supports
    /// receiving the data for a single wiphy split across multiple
    /// messages, given with wiphy dump message
    SplitWiphyDump,
    /// The commands that the device supports
    SupportedCommand(Vec<Nl80211Command>),
    /// in milliseconds
    MaxRemainOnChannelDuration(u32),
    /// Frames may be sent on another channel than the operating one
    OffchannelTxOk,
    /// The triggers on which the device can wake the system
    WowlanTrigersSupport(Vec<Nl80211WowlanTrigersSupport>),
    /// The interface types that exist in software only
    SoftwareIftypes(Vec<Nl80211InterfaceType>),
    /// The feature flags of the device
    Features(Nl80211Features),
    /// The extended features of the device
    ExtFeatures(Nl80211ExtFeatures),
    /// The combinations of interfaces that the device supports
    InterfaceCombination(Vec<Nl80211IfaceComb>),
    /// The high throughput capabilities that can be overridden
    HtCapabilityMask(Nl80211HtCapabilityMask),
    /// The bytes that the start of a frame must match; none match every frame
    FrameMatch(Vec<u8>),
    /// Type of a management frame
    FrameType(Nl80211FrameType),
    /// The frame types that can be sent, by interface type
    TxFrameTypes(Vec<Nl80211IfaceFrameType>),
    /// The frame types that can be received, by interface type
    RxFrameTypes(Vec<Nl80211IfaceFrameType>),
    /// How many plans a scheduled scan may hold
    MaxNumSchedScanPlans(u32),
    /// Longest interval of a scan plan, in seconds
    MaxScanPlanInterval(u32),
    /// How often a scan plan may be repeated
    MaxScanPlanIterations(u32),
    /// The extended capabilities of the device
    ExtCap(Nl80211ExtendedCapability),
    /// The extended capabilities that can be changed
    ExtCapMask(Nl80211ExtendedCapability),
    /// The very high throughput capabilities
    VhtCap(Nl80211VhtCapability),
    /// The very high throughput capabilities that can be overridden
    VhtCapMask(Nl80211VhtCapability),
    /// How many counters a channel switch announcement may hold
    MaxCsaCounters(u8),
    /// The device manages its regulatory domain by itself
    WiphySelfManagedReg,
    /// How many scheduled scans can run at the same time
    SchedScanMaxReqs(u32),
    /// The enhanced multi-link capabilities
    EmlCapability(u16),
    /// The capabilities and operations of the multi-link device
    MldCapaAndOps(u16),
    /// A set of bands
    Bands(Nl80211BandTypes),
    /// Maximum number of AKM suites allowed for connect command.
    MaxNumAkmSuites(u16),
    /// Maximum number of peers that HW timestamping can be enabled for
    /// concurrently. A value of 0xffff indicates setting for all peers(i.e.
    /// not specifying an address with set hardware timestamp) is
    /// supported.
    MaxHwTimestampPeers(u16),
    /// Basic Service Set (BSS)
    Bss(Vec<Nl80211BssInfo>),
    /// Kind of the regulatory domain
    RegType(Nl80211RegDomType),
    /// Country code of the regulatory domain
    RegAlpha2(String),
    /// Who asked for the regulatory domain
    RegInitiator(Nl80211RegdomInitiator),
    /// How the network name is hidden
    HiddenSsid(u8),
    /// Beacon interval, in time units
    BeaconInterval(u16),
    /// Number of beacon intervals between two delivery traffic indications
    DtimPeriod(u8),
    /// The part of the beacon before the traffic indication map
    BeaconHead(Vec<u8>),
    /// The part of the beacon after the traffic indication map
    BeaconTail(Vec<u8>),
    /// The network protects its data frames
    Privacy(bool),
    /// Bitmap of the versions of protected access
    WpaVersions(u32),
    /// The selectors of the pairwise cipher suites
    CipherSuitesPairwise(Vec<u32>),
    /// The selector of the group cipher suite
    CipherSuiteGroup(u32),
    /// The selectors of the suites for authentication and key management
    AkmSuites(Vec<u32>),
    /// Type of the authentication
    AuthType(u32),
    /// Flags of the settings of an access point
    ApSettingsFlags(u32),
    /// Information elements
    Ie(Vec<u8>),
    /// Information elements of probe responses
    IeProbeResp(Vec<u8>),
    /// Information elements of association responses
    IeAssocResp(Vec<u8>),
    /// Control port frames are exchanged with user space by messages
    ControlPortOverNl80211(bool),
    /// What the message sets up ends when the socket that sent it is closed
    SocketOwner(bool),
    /// Pre-authentication frames are not handled as control port frames
    ControlPortNoPreauth(bool),
    /// An attribute of a kind that has no variant: its type field and its bytes
    Other(RawNla),
}

impl View for Nl80211Attr {
    type V = Record;

    open spec fn view(&self) -> Record {
        Record { kind: self.spec_kind(), value: self.spec_value() }
    }
}

impl Nl80211Attr {
    /// The kind of the attribute.
    pub open spec fn spec_kind(&self) -> u16 {
        match self {
            Self::Wiphy(_) => NL80211_ATTR_WIPHY,
            Self::WiphyName(_) => NL80211_ATTR_WIPHY_NAME,
            Self::IfIndex(_) => NL80211_ATTR_IFINDEX,
            Self::IfName(_) => NL80211_ATTR_IFNAME,
            Self::IfType(_) => NL80211_ATTR_IFTYPE,
            Self::IfTypeExtCap(_) => NL80211_ATTR_IFTYPE_EXT_CAPA,
            Self::Mac(_) => NL80211_ATTR_MAC,
            Self::MacAddrs(_) => NL80211_ATTR_MAC_ADDRS,
            Self::Wdev(_) => NL80211_ATTR_WDEV,
            Self::Generation(_) => NL80211_ATTR_GENERATION,
            Self::Use4Addr(_) => NL80211_ATTR_4ADDR,
            Self::WiphyFreq(_) => NL80211_ATTR_WIPHY_FREQ,
            Self::WiphyFreqOffset(_) => NL80211_ATTR_WIPHY_FREQ_OFFSET,
            Self::WiphyChannelType(_) => NL80211_ATTR_WIPHY_CHANNEL_TYPE,
            Self::ChannelWidth(_) => NL80211_ATTR_CHANNEL_WIDTH,
            Self::CenterFreq1(_) => NL80211_ATTR_CENTER_FREQ1,
            Self::CenterFreq2(_) => NL80211_ATTR_CENTER_FREQ2,
            Self::WiphyTxPowerLevel(_) => NL80211_ATTR_WIPHY_TX_POWER_LEVEL,
            Self::PsState(_) => NL80211_ATTR_PS_STATE,
            Self::Ssid(_) => NL80211_ATTR_SSID,
            Self::StationInfo(_) => NL80211_ATTR_STA_INFO,
            Self::TransmitQueueStats(_) => NL80211_ATTR_TXQ_STATS,
            Self::TransmitQueueLimit(_) => NL80211_ATTR_TXQ_LIMIT,
            Self::TransmitQueueMemoryLimit(_) => NL80211_ATTR_TXQ_MEMORY_LIMIT,
            Self::TransmitQueueQuantum(_) => NL80211_ATTR_TXQ_QUANTUM,
            Self::MloLinks(_) => NL80211_ATTR_MLO_LINKS,
            Self::WiphyRetryShort(_) => NL80211_ATTR_WIPHY_RETRY_SHORT,
            Self::WiphyRetryLong(_) => NL80211_ATTR_WIPHY_RETRY_LONG,
            Self::WiphyFragThreshold(_) => NL80211_ATTR_WIPHY_FRAG_THRESHOLD,
            Self::WiphyRtsThreshold(_) => NL80211_ATTR_WIPHY_RTS_THRESHOLD,
            Self::WiphyCoverageClass(_) => NL80211_ATTR_WIPHY_COVERAGE_CLASS,
            Self::MaxNumScanSsids(_) => NL80211_ATTR_MAX_NUM_SCAN_SSIDS,
            Self::MaxNumSchedScanSsids(_) => NL80211_ATTR_MAX_NUM_SCHED_SCAN_SSIDS,
            Self::MaxScanIeLen(_) => NL80211_ATTR_MAX_SCAN_IE_LEN,
            Self::MaxSchedScanIeLen(_) => NL80211_ATTR_MAX_SCHED_SCAN_IE_LEN,
            Self::MaxMatchSets(_) => NL80211_ATTR_MAX_MATCH_SETS,
            Self::SupportIbssRsn => NL80211_ATTR_SUPPORT_IBSS_RSN,
            Self::SupportMeshAuth => NL80211_ATTR_SUPPORT_MESH_AUTH,
            Self::SupportApUapsd => NL80211_ATTR_SUPPORT_AP_UAPSD,
            Self::RoamSupport => NL80211_ATTR_ROAM_SUPPORT,
            Self::TdlsSupport => NL80211_ATTR_TDLS_SUPPORT,
            Self::TdlsExternalSetup => NL80211_ATTR_TDLS_EXTERNAL_SETUP,
            Self::CipherSuites(_) => NL80211_ATTR_CIPHER_SUITES,
            Self::MaxNumPmkids(_) => NL80211_ATTR_MAX_NUM_PMKIDS,
            Self::ControlPortEthertype => NL80211_ATTR_CONTROL_PORT_ETHERTYPE,
            Self::WiphyAntennaAvailTx(_) => NL80211_ATTR_WIPHY_ANTENNA_AVAIL_TX,
            Self::WiphyAntennaAvailRx(_) => NL80211_ATTR_WIPHY_ANTENNA_AVAIL_RX,
            Self::ApProbeRespOffload(_) => NL80211_ATTR_PROBE_RESP_OFFLOAD,
            Self::WiphyAntennaTx(_) => NL80211_ATTR_WIPHY_ANTENNA_TX,
            Self::WiphyAntennaRx(_) => NL80211_ATTR_WIPHY_ANTENNA_RX,
            Self::SupportedIftypes(_) => NL80211_ATTR_SUPPORTED_IFTYPES,
            Self::WiphyBands(_) => NL80211_ATTR_WIPHY_BANDS,
            Self::SplitWiphyDump => NL80211_ATTR_SPLIT_WIPHY_DUMP,
            Self::SupportedCommand(_) => NL80211_ATTR_SUPPORTED_COMMANDS,
            Self::MaxRemainOnChannelDuration(_) => NL80211_ATTR_MAX_REMAIN_ON_CHANNEL_DURATION,
            Self::OffchannelTxOk => NL80211_ATTR_OFFCHANNEL_TX_OK,
            Self::WowlanTrigersSupport(_) => NL80211_ATTR_WOWLAN_TRIGGERS_SUPPORTED,
            Self::SoftwareIftypes(_) => NL80211_ATTR_SOFTWARE_IFTYPES,
            Self::Features(_) => NL80211_ATTR_FEATURE_FLAGS,
            Self::ExtFeatures(_) => NL80211_ATTR_EXT_FEATURES,
            Self::InterfaceCombination(_) => NL80211_ATTR_INTERFACE_COMBINATIONS,
            Self::HtCapabilityMask(_) => NL80211_ATTR_HT_CAPABILITY_MASK,
            Self::FrameMatch(_) => NL80211_ATTR_FRAME_MATCH,
            Self::FrameType(_) => NL80211_ATTR_FRAME_TYPE,
            Self::TxFrameTypes(_) => NL80211_ATTR_TX_FRAME_TYPES,
            Self::RxFrameTypes(_) => NL80211_ATTR_RX_FRAME_TYPES,
            Self::MaxNumSchedScanPlans(_) => NL80211_ATTR_MAX_NUM_SCHED_SCAN_PLANS,
            Self::MaxScanPlanInterval(_) => NL80211_ATTR_MAX_SCAN_PLAN_INTERVAL,
            Self::MaxScanPlanIterations(_) => NL80211_ATTR_MAX_SCAN_PLAN_ITERATIONS,
            Self::ExtCap(_) => NL80211_ATTR_EXT_CAPA,
            Self::ExtCapMask(_) => NL80211_ATTR_EXT_CAPA_MASK,
            Self::VhtCap(_) => NL80211_ATTR_VHT_CAPABILITY,
            Self::VhtCapMask(_) => NL80211_ATTR_VHT_CAPABILITY_MASK,
            Self::MaxCsaCounters(_) => NL80211_ATTR_MAX_CSA_COUNTERS,
            Self::WiphySelfManagedReg => NL80211_ATTR_WIPHY_SELF_MANAGED_REG,
            Self::SchedScanMaxReqs(_) => NL80211_ATTR_SCHED_SCAN_MAX_REQS,
            Self::EmlCapability(_) => NL80211_ATTR_EML_CAPABILITY,
            Self::MldCapaAndOps(_) => NL80211_ATTR_MLD_CAPA_AND_OPS,
            Self::Bands(_) => NL80211_ATTR_BANDS,
            Self::MaxNumAkmSuites(_) => NL80211_ATTR_MAX_NUM_AKM_SUITES,
            Self::MaxHwTimestampPeers(_) => NL80211_ATTR_MAX_HW_TIMESTAMP_PEERS,
            Self::Bss(_) => NL80211_ATTR_BSS,
            Self::RegType(_) => NL80211_ATTR_REG_TYPE,
            Self::RegAlpha2(_) => NL80211_ATTR_REG_ALPHA2,
            Self::RegInitiator(_) => NL80211_ATTR_REG_INITIATOR,
            Self::HiddenSsid(_) => NL80211_ATTR_HIDDEN_SSID,
            Self::BeaconInterval(_) => NL80211_ATTR_BEACON_INTERVAL,
            Self::DtimPeriod(_) => NL80211_ATTR_DTIM_PERIOD,
            Self::BeaconHead(_) => NL80211_ATTR_BEACON_HEAD,
            Self::BeaconTail(_) => NL80211_ATTR_BEACON_TAIL,
            Self::Privacy(_) => NL80211_ATTR_PRIVACY,
            Self::WpaVersions(_) => NL80211_ATTR_WPA_VERSIONS,
            Self::CipherSuitesPairwise(_) => NL80211_ATTR_CIPHER_SUITES_PAIRWISE,
            Self::CipherSuiteGroup(_) => NL80211_ATTR_CIPHER_SUITE_GROUP,
            Self::AkmSuites(_) => NL80211_ATTR_AKM_SUITES,
            Self::AuthType(_) => NL80211_ATTR_AUTH_TYPE,
            Self::ApSettingsFlags(_) => NL80211_ATTR_AP_SETTINGS_FLAGS,
            Self::Ie(_) => NL80211_ATTR_IE,
            Self::IeProbeResp(_) => NL80211_ATTR_IE_PROBE_RESP,
            Self::IeAssocResp(_) => NL80211_ATTR_IE_ASSOC_RESP,
            Self::ControlPortOverNl80211(_) => NL80211_ATTR_CONTROL_PORT_OVER_NL80211,
            Self::SocketOwner(_) => NL80211_ATTR_SOCKET_OWNER,
            Self::ControlPortNoPreauth(_) => NL80211_ATTR_CONTROL_PORT_NO_PREAUTH,
            Self::Other(nla) => nla.kind,
        }
    }

    /// What the attribute says.
    pub open spec fn spec_value(&self) -> Value {
        match self {
            Self::Wiphy(d)
            | Self::IfIndex(d)
            | Self::Generation(d)
            | Self::WiphyFreq(d)
            | Self::WiphyFreqOffset(d)
            | Self::CenterFreq1(d)
            | Self::CenterFreq2(d)
            | Self::WiphyTxPowerLevel(d)
            | Self::PsState(d)
            | Self::TransmitQueueLimit(d)
            | Self::TransmitQueueMemoryLimit(d)
            | Self::TransmitQueueQuantum(d)
            | Self::WiphyFragThreshold(d)
            | Self::WiphyRtsThreshold(d)
            | Self::WiphyAntennaAvailTx(d)
            | Self::WiphyAntennaAvailRx(d)
            | Self::ApProbeRespOffload(d)
            | Self::WiphyAntennaTx(d)
            | Self::WiphyAntennaRx(d)
            | Self::MaxRemainOnChannelDuration(d)
            | Self::MaxNumSchedScanPlans(d)
            | Self::MaxScanPlanInterval(d)
            | Self::MaxScanPlanIterations(d)
            | Self::SchedScanMaxReqs(d)
            | Self::WpaVersions(d)
            | Self::CipherSuiteGroup(d)
            | Self::AuthType(d)
            | Self::ApSettingsFlags(d) => Value::U32(*d),
            Self::WiphyName(d)
            | Self::IfName(d)
            | Self::Ssid(d)
            | Self::RegAlpha2(d) => Value::Text(d@),
            Self::IfType(d) => Value::U32(d.spec_to_u32()),
            Self::IfTypeExtCap(d) => Value::List(records_of(d@, 0)),
            Self::Mac(d) => Value::Bytes(d@),
            Self::MacAddrs(d) => Value::List(mac_records(d@)),
            Self::Wdev(d) => Value::U64(*d),
            Self::Use4Addr(d) => Value::U8(if *d { 1u8 } else { 0u8 }),
            Self::WiphyChannelType(d) => Value::U32(d.spec_to_u32()),
            Self::ChannelWidth(d) => Value::U32(d.spec_to_u32()),
            Self::StationInfo(d) => Value::List(records_of(d@, 0)),
            Self::TransmitQueueStats(d) => Value::List(records_of(d@, 0)),
            Self::MloLinks(d) => Value::List(records_of(d@, 0)),
            Self::WiphyRetryShort(d)
            | Self::WiphyRetryLong(d)
            | Self::WiphyCoverageClass(d)
            | Self::MaxNumScanSsids(d)
            | Self::MaxNumSchedScanSsids(d)
            | Self::MaxMatchSets(d)
            | Self::MaxNumPmkids(d)
            | Self::MaxCsaCounters(d)
            | Self::HiddenSsid(d)
            | Self::DtimPeriod(d) => Value::U8(*d),
            Self::MaxScanIeLen(d)
            | Self::MaxSchedScanIeLen(d)
            | Self::EmlCapability(d)
            | Self::MldCapaAndOps(d)
            | Self::MaxNumAkmSuites(d)
            | Self::MaxHwTimestampPeers(d)
            | Self::BeaconInterval(d) => Value::U16(*d),
            Self::SupportIbssRsn
            | Self::SupportMeshAuth
            | Self::SupportApUapsd
            | Self::RoamSupport
            | Self::TdlsSupport
            | Self::TdlsExternalSetup
            | Self::ControlPortEthertype
            | Self::SplitWiphyDump
            | Self::OffchannelTxOk
            | Self::WiphySelfManagedReg
            | Self::Privacy(_)
            | Self::ControlPortOverNl80211(_)
            | Self::SocketOwner(_)
            | Self::ControlPortNoPreauth(_) => Value::Flag,
            Self::CipherSuites(d) => Value::Words(cipher_words(d@)),
            Self::SupportedIftypes(d) => Value::List(records_of(d@, 0)),
            Self::WiphyBands(d) => Value::List(records_of(d@, 0)),
            Self::SupportedCommand(d) => Value::List(records_of(d@, 0)),
            Self::WowlanTrigersSupport(d) => Value::List(records_of(d@, 0)),
            Self::SoftwareIftypes(d) => Value::List(records_of(d@, 0)),
            Self::Features(d) => Value::U32(d@),
            Self::ExtFeatures(d) => Value::Bytes(d@),
            Self::InterfaceCombination(d) => Value::List(records_of(d@, 0)),
            Self::HtCapabilityMask(d) => Value::Bytes(d@),
            Self::FrameMatch(d)
            | Self::BeaconHead(d)
            | Self::BeaconTail(d)
            | Self::Ie(d)
            | Self::IeProbeResp(d)
            | Self::IeAssocResp(d) => Value::Bytes(d@),
            Self::FrameType(d) => Value::U16(d.spec_to_u16()),
            Self::TxFrameTypes(d)
            | Self::RxFrameTypes(d) => Value::List(records_of(d@, 0)),
            Self::ExtCap(d)
            | Self::ExtCapMask(d) => Value::Bytes(d@),
            Self::VhtCap(d)
            | Self::VhtCapMask(d) => Value::Bytes(d@),
            Self::Bands(d) => Value::U32(d@),
            Self::Bss(d) => Value::List(records_of(d@, 0)),
            Self::RegType(d) => Value::U8(d.spec_to_u8()),
            Self::RegInitiator(d) => Value::U8(d.spec_to_u8()),
            Self::CipherSuitesPairwise(d)
            | Self::AkmSuites(d) => Value::Words(d@),
            Self::Other(nla) => Value::Bytes(nla.value@),
        }
    }

    /// Whether the attribute is written in the one way in which reading gives
    /// it: a flag holds `true`, a number that has a name does not stand in an
    /// `Other`, a block has its length, and a kind that has a variant does not
    /// stand in `Nl80211Attr::Other`.
    pub open spec fn canonical(&self) -> bool {
        match self {
            Self::IfType(d) => Nl80211InterfaceType::canonical(*d),
            Self::IfTypeExtCap(d) => all_canonical(d@, 0),
            Self::WiphyChannelType(d) => Nl80211HtWiphyChannelType::canonical(*d),
            Self::ChannelWidth(d) => Nl80211ChannelWidth::canonical(*d),
            Self::StationInfo(d) => all_canonical(d@, 0),
            Self::TransmitQueueStats(d) => all_canonical(d@, 0),
            Self::MloLinks(d) => all_canonical(d@, 0),
            Self::CipherSuites(d) => ciphers_canonical(d@),
            Self::SupportedIftypes(d) => all_canonical(d@, 0),
            Self::WiphyBands(d) => all_canonical(d@, 0),
            Self::SupportedCommand(d) => all_canonical(d@, 0),
            Self::WowlanTrigersSupport(d) => all_canonical(d@, 0),
            Self::SoftwareIftypes(d) => all_canonical(d@, 0),
            Self::ExtFeatures(d) => d.wf(),
            Self::InterfaceCombination(d) => all_canonical(d@, 0),
            Self::HtCapabilityMask(d) => d.wf(),
            Self::FrameType(d) => Nl80211FrameType::canonical(*d),
            Self::TxFrameTypes(d)
            | Self::RxFrameTypes(d) => all_canonical(d@, 0),
            Self::VhtCap(d)
            | Self::VhtCapMask(d) => d.wf(),
            Self::Bss(d) => all_canonical(d@, 0),
            Self::RegType(d) => Nl80211RegDomType::canonical(*d),
            Self::RegInitiator(d) => Nl80211RegdomInitiator::canonical(*d),
            Self::Privacy(d)
            | Self::ControlPortOverNl80211(d)
            | Self::SocketOwner(d)
            | Self::ControlPortNoPreauth(d) => *d,
            Self::Other(nla) => Namespace::Attr.shape(nla_type(nla.kind)) is None,
            _ => true,
        }
    }

    /// What reading the value of an attribute of the known kind `k` gives,
    /// where `shape` is the shape of its value.
    pub open spec fn spec_parse_known(k: u16, shape: Shape, payload: Seq<u8>) -> Result<
        Record,
        Nl80211DecodeError,
    > {
        match shape {
            Shape::List(ns) => match decode_records(ns, payload, 0) {
                Ok(rs) => Ok(Record { kind: k, value: Value::List(rs) }),
                Err(e) => Err(Nl80211DecodeError::of_list(k, e)),
            },
            _ => match decode_value(shape, payload) {
                Ok(v) => Ok(Record { kind: k, value: v }),
                Err(e) => Err(Nl80211DecodeError::of_value(k, e)),
            },
        }
    }

    /// What reading an attribute of type field `kind` and value `payload`
    /// gives. The kind that the type field selects decides how the value is
    /// read. A kind that is not known is no error: the attribute is kept as it
    /// came.
    pub open spec fn spec_parse(kind: u16, payload: Seq<u8>) -> Result<Record, Nl80211DecodeError> {
        match Namespace::Attr.shape(nla_type(kind)) {
            None => Ok(Record { kind, value: Value::Bytes(payload) }),
            Some(shape) => Nl80211Attr::spec_parse_known(nla_type(kind), shape, payload),
        }
    }

    /// Reading an attribute as a record of a list gives what reading it alone
    /// gives, with less said of an error.
    pub proof fn lemma_parse_as_record(index: nat, kind: u16, payload: Seq<u8>)
        ensures
            decode_record(Namespace::Attr, index, (Frame { kind, value: payload })) == (
            match Nl80211Attr::spec_parse(kind, payload) {
                Ok(r) => Ok::<Record, Nl80211ErrorKind>(r),
                Err(e) => Err::<Record, Nl80211ErrorKind>(e.kind),
            }),
    {
    }
}

impl Nl80211Nla for Nl80211Attr {
    open spec fn namespace() -> Namespace {
        Namespace::Attr
    }

    open spec fn spec_kind(&self, index: nat) -> u16 {
        self@.kind
    }

    open spec fn spec_value(&self) -> Value {
        self@.value
    }

    open spec fn canonical(&self, index: nat) -> bool {
        Nl80211Attr::canonical(self)
    }

    open spec fn lossless(&self) -> bool {
        Nl80211Attr::lossless(self)
    }

    proof fn lemma_conforms(&self, index: nat) {
        Nl80211Attr::lemma_conforms(self);
    }

    fn nla_kind(&self, index: usize) -> (k: u16) {
        self.kind()
    }

    fn nla_value_len(&self) -> (n: usize) {
        self.value_len()
    }

    fn nla_encoded_len(&self) -> (r: Option<usize>) {
        self.encoded_len()
    }

    fn nla_emit_value(&self, out: &mut Vec<u8>) {
        self.append_value(out);
    }

    fn nla_parse(index: usize, kind: u16, payload: &[u8]) -> (r: Result<Self, Nl80211ErrorKind>) {
        proof {
            Nl80211Attr::lemma_parse_as_record(index as nat, kind, payload@);
        }
        match Nl80211Attr::parse(kind, payload) {
            Ok(a) => Ok(a),
            Err(e) => Err(e.kind),
        }
    }
}

} // verus!
