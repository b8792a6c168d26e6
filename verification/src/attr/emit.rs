// SPDX-License-Identifier: MIT

//! The writing of attributes.

use vstd::prelude::*;

use crate::attr::{
    MacAddressNlas, Nl80211Attr, NL80211_ATTR_4ADDR, NL80211_ATTR_AKM_SUITES,
    NL80211_ATTR_AP_SETTINGS_FLAGS, NL80211_ATTR_AUTH_TYPE, NL80211_ATTR_BANDS,
    NL80211_ATTR_BEACON_HEAD, NL80211_ATTR_BEACON_INTERVAL, NL80211_ATTR_BEACON_TAIL,
    NL80211_ATTR_BSS, NL80211_ATTR_CENTER_FREQ1, NL80211_ATTR_CENTER_FREQ2,
    NL80211_ATTR_CHANNEL_WIDTH, NL80211_ATTR_CIPHER_SUITES, NL80211_ATTR_CIPHER_SUITES_PAIRWISE,
    NL80211_ATTR_CIPHER_SUITE_GROUP, NL80211_ATTR_CONTROL_PORT_ETHERTYPE,
    NL80211_ATTR_CONTROL_PORT_NO_PREAUTH, NL80211_ATTR_CONTROL_PORT_OVER_NL80211,
    NL80211_ATTR_DTIM_PERIOD, NL80211_ATTR_EML_CAPABILITY, NL80211_ATTR_EXT_CAPA,
    NL80211_ATTR_EXT_CAPA_MASK, NL80211_ATTR_EXT_FEATURES, NL80211_ATTR_FEATURE_FLAGS,
    NL80211_ATTR_FRAME_MATCH, NL80211_ATTR_FRAME_TYPE, NL80211_ATTR_GENERATION,
    NL80211_ATTR_HIDDEN_SSID, NL80211_ATTR_HT_CAPABILITY_MASK, NL80211_ATTR_IE,
    NL80211_ATTR_IE_ASSOC_RESP, NL80211_ATTR_IE_PROBE_RESP, NL80211_ATTR_IFINDEX,
    NL80211_ATTR_IFNAME, NL80211_ATTR_IFTYPE, NL80211_ATTR_IFTYPE_EXT_CAPA,
    NL80211_ATTR_INTERFACE_COMBINATIONS, NL80211_ATTR_MAC, NL80211_ATTR_MAC_ADDRS,
    NL80211_ATTR_MAX_CSA_COUNTERS, NL80211_ATTR_MAX_HW_TIMESTAMP_PEERS,
    NL80211_ATTR_MAX_MATCH_SETS, NL80211_ATTR_MAX_NUM_AKM_SUITES, NL80211_ATTR_MAX_NUM_PMKIDS,
    NL80211_ATTR_MAX_NUM_SCAN_SSIDS, NL80211_ATTR_MAX_NUM_SCHED_SCAN_PLANS,
    NL80211_ATTR_MAX_NUM_SCHED_SCAN_SSIDS, NL80211_ATTR_MAX_REMAIN_ON_CHANNEL_DURATION,
    NL80211_ATTR_MAX_SCAN_IE_LEN, NL80211_ATTR_MAX_SCAN_PLAN_INTERVAL,
    NL80211_ATTR_MAX_SCAN_PLAN_ITERATIONS, NL80211_ATTR_MAX_SCHED_SCAN_IE_LEN,
    NL80211_ATTR_MLD_CAPA_AND_OPS, NL80211_ATTR_MLO_LINKS, NL80211_ATTR_OFFCHANNEL_TX_OK,
    NL80211_ATTR_PRIVACY, NL80211_ATTR_PROBE_RESP_OFFLOAD, NL80211_ATTR_PS_STATE,
    NL80211_ATTR_REG_ALPHA2, NL80211_ATTR_REG_INITIATOR, NL80211_ATTR_REG_TYPE,
    NL80211_ATTR_ROAM_SUPPORT, NL80211_ATTR_RX_FRAME_TYPES, NL80211_ATTR_SCHED_SCAN_MAX_REQS,
    NL80211_ATTR_SOCKET_OWNER, NL80211_ATTR_SOFTWARE_IFTYPES, NL80211_ATTR_SPLIT_WIPHY_DUMP,
    NL80211_ATTR_SSID, NL80211_ATTR_STA_INFO, NL80211_ATTR_SUPPORTED_COMMANDS,
    NL80211_ATTR_SUPPORTED_IFTYPES, NL80211_ATTR_SUPPORT_AP_UAPSD, NL80211_ATTR_SUPPORT_IBSS_RSN,
    NL80211_ATTR_SUPPORT_MESH_AUTH, NL80211_ATTR_TDLS_EXTERNAL_SETUP, NL80211_ATTR_TDLS_SUPPORT,
    NL80211_ATTR_TXQ_LIMIT, NL80211_ATTR_TXQ_MEMORY_LIMIT, NL80211_ATTR_TXQ_QUANTUM,
    NL80211_ATTR_TXQ_STATS, NL80211_ATTR_TX_FRAME_TYPES, NL80211_ATTR_VHT_CAPABILITY,
    NL80211_ATTR_VHT_CAPABILITY_MASK, NL80211_ATTR_WDEV, NL80211_ATTR_WIPHY,
    NL80211_ATTR_WIPHY_ANTENNA_AVAIL_RX, NL80211_ATTR_WIPHY_ANTENNA_AVAIL_TX,
    NL80211_ATTR_WIPHY_ANTENNA_RX, NL80211_ATTR_WIPHY_ANTENNA_TX, NL80211_ATTR_WIPHY_BANDS,
    NL80211_ATTR_WIPHY_CHANNEL_TYPE, NL80211_ATTR_WIPHY_COVERAGE_CLASS,
    NL80211_ATTR_WIPHY_FRAG_THRESHOLD, NL80211_ATTR_WIPHY_FREQ, NL80211_ATTR_WIPHY_FREQ_OFFSET,
    NL80211_ATTR_WIPHY_NAME, NL80211_ATTR_WIPHY_RETRY_LONG, NL80211_ATTR_WIPHY_RETRY_SHORT,
    NL80211_ATTR_WIPHY_RTS_THRESHOLD, NL80211_ATTR_WIPHY_SELF_MANAGED_REG,
    NL80211_ATTR_WIPHY_TX_POWER_LEVEL, NL80211_ATTR_WOWLAN_TRIGGERS_SUPPORTED,
    NL80211_ATTR_WPA_VERSIONS,
};
use crate::bytes::{
    copy_into, push_bytes, push_string, push_u16, push_u32, push_u64, push_u8, ETH_ALEN,
};
use crate::codec::{
    checked_len, checked_words_len, emit_list, list_encoded_len, list_len, push_words,
    words_len,
};
use crate::wiphy::push_ciphers;
use crate::wire::{encodable, value_bytes, value_size};

verus! {

impl Nl80211Attr {
    /// The kind of the attribute.
    pub fn kind(&self) -> (k: u16)
        ensures
            k == self@.kind,
    {
        match self {
            Self::Wiphy(_) => NL80211_ATTR_WIPHY,
            Self::WiphyName(_) => NL80211_ATTR_WIPHY_NAME,
            Self::IfIndex(_) => NL80211_ATTR_IFINDEX,
            Self::IfName(_) => NL80211_ATTR_IFNAME,
            Self::IfType(_) => NL80211_ATTR_IFTYPE,
            Self::IfTypeExtCap(_) => NL80211_ATTR_IFTYPE_EXT_CAPA,
            Self::Mac(_) => NL80211_ATTR_MAC,
            Self::MacAddrs(_) => NL80211_ATTR_MAC_ADDRS,
            Self::Wdev(_) => NL80211_ATTR_WDEV,
            Self::Generation(_) => NL80211_ATTR_GENERATION,
            Self::Use4Addr(_) => NL80211_ATTR_4ADDR,
            Self::WiphyFreq(_) => NL80211_ATTR_WIPHY_FREQ,
            Self::WiphyFreqOffset(_) => NL80211_ATTR_WIPHY_FREQ_OFFSET,
            Self::WiphyChannelType(_) => NL80211_ATTR_WIPHY_CHANNEL_TYPE,
            Self::ChannelWidth(_) => NL80211_ATTR_CHANNEL_WIDTH,
            Self::CenterFreq1(_) => NL80211_ATTR_CENTER_FREQ1,
            Self::CenterFreq2(_) => NL80211_ATTR_CENTER_FREQ2,
            Self::WiphyTxPowerLevel(_) => NL80211_ATTR_WIPHY_TX_POWER_LEVEL,
            Self::PsState(_) => NL80211_ATTR_PS_STATE,
            Self::Ssid(_) => NL80211_ATTR_SSID,
            Self::StationInfo(_) => NL80211_ATTR_STA_INFO,
            Self::TransmitQueueStats(_) => NL80211_ATTR_TXQ_STATS,
            Self::TransmitQueueLimit(_) => NL80211_ATTR_TXQ_LIMIT,
            Self::TransmitQueueMemoryLimit(_) => NL80211_ATTR_TXQ_MEMORY_LIMIT,
            Self::TransmitQueueQuantum(_) => NL80211_ATTR_TXQ_QUANTUM,
            Self::MloLinks(_) => NL80211_ATTR_MLO_LINKS,
            Self::WiphyRetryShort(_) => NL80211_ATTR_WIPHY_RETRY_SHORT,
            Self::WiphyRetryLong(_) => NL80211_ATTR_WIPHY_RETRY_LONG,
            Self::WiphyFragThreshold(_) => NL80211_ATTR_WIPHY_FRAG_THRESHOLD,
            Self::WiphyRtsThreshold(_) => NL80211_ATTR_WIPHY_RTS_THRESHOLD,
            Self::WiphyCoverageClass(_) => NL80211_ATTR_WIPHY_COVERAGE_CLASS,
            Self::MaxNumScanSsids(_) => NL80211_ATTR_MAX_NUM_SCAN_SSIDS,
            Self::MaxNumSchedScanSsids(_) => NL80211_ATTR_MAX_NUM_SCHED_SCAN_SSIDS,
            Self::MaxScanIeLen(_) => NL80211_ATTR_MAX_SCAN_IE_LEN,
            Self::MaxSchedScanIeLen(_) => NL80211_ATTR_MAX_SCHED_SCAN_IE_LEN,
            Self::MaxMatchSets(_) => NL80211_ATTR_MAX_MATCH_SETS,
            Self::SupportIbssRsn => NL80211_ATTR_SUPPORT_IBSS_RSN,
            Self::SupportMeshAuth => NL80211_ATTR_SUPPORT_MESH_AUTH,
            Self::SupportApUapsd => NL80211_ATTR_SUPPORT_AP_UAPSD,
            Self::RoamSupport => NL80211_ATTR_ROAM_SUPPORT,
            Self::TdlsSupport => NL80211_ATTR_TDLS_SUPPORT,
            Self::TdlsExternalSetup => NL80211_ATTR_TDLS_EXTERNAL_SETUP,
            Self::CipherSuites(_) => NL80211_ATTR_CIPHER_SUITES,
            Self::MaxNumPmkids(_) => NL80211_ATTR_MAX_NUM_PMKIDS,
            Self::ControlPortEthertype => NL80211_ATTR_CONTROL_PORT_ETHERTYPE,
            Self::WiphyAntennaAvailTx(_) => NL80211_ATTR_WIPHY_ANTENNA_AVAIL_TX,
            Self::WiphyAntennaAvailRx(_) => NL80211_ATTR_WIPHY_ANTENNA_AVAIL_RX,
            Self::ApProbeRespOffload(_) => NL80211_ATTR_PROBE_RESP_OFFLOAD,
            Self::WiphyAntennaTx(_) => NL80211_ATTR_WIPHY_ANTENNA_TX,
            Self::WiphyAntennaRx(_) => NL80211_ATTR_WIPHY_ANTENNA_RX,
            Self::SupportedIftypes(_) => NL80211_ATTR_SUPPORTED_IFTYPES,
            Self::WiphyBands(_) => NL80211_ATTR_WIPHY_BANDS,
            Self::SplitWiphyDump => NL80211_ATTR_SPLIT_WIPHY_DUMP,
            Self::SupportedCommand(_) => NL80211_ATTR_SUPPORTED_COMMANDS,
            Self::MaxRemainOnChannelDuration(_) => NL80211_ATTR_MAX_REMAIN_ON_CHANNEL_DURATION,
            Self::OffchannelTxOk => NL80211_ATTR_OFFCHANNEL_TX_OK,
            Self::WowlanTrigersSupport(_) => NL80211_ATTR_WOWLAN_TRIGGERS_SUPPORTED,
            Self::SoftwareIftypes(_) => NL80211_ATTR_SOFTWARE_IFTYPES,
            Self::Features(_) => NL80211_ATTR_FEATURE_FLAGS,
            Self::ExtFeatures(_) => NL80211_ATTR_EXT_FEATURES,
            Self::InterfaceCombination(_) => NL80211_ATTR_INTERFACE_COMBINATIONS,
            Self::HtCapabilityMask(_) => NL80211_ATTR_HT_CAPABILITY_MASK,
            Self::FrameMatch(_) => NL80211_ATTR_FRAME_MATCH,
            Self::FrameType(_) => NL80211_ATTR_FRAME_TYPE,
            Self::TxFrameTypes(_) => NL80211_ATTR_TX_FRAME_TYPES,
            Self::RxFrameTypes(_) => NL80211_ATTR_RX_FRAME_TYPES,
            Self::MaxNumSchedScanPlans(_) => NL80211_ATTR_MAX_NUM_SCHED_SCAN_PLANS,
            Self::MaxScanPlanInterval(_) => NL80211_ATTR_MAX_SCAN_PLAN_INTERVAL,
            Self::MaxScanPlanIterations(_) => NL80211_ATTR_MAX_SCAN_PLAN_ITERATIONS,
            Self::ExtCap(_) => NL80211_ATTR_EXT_CAPA,
            Self::ExtCapMask(_) => NL80211_ATTR_EXT_CAPA_MASK,
            Self::VhtCap(_) => NL80211_ATTR_VHT_CAPABILITY,
            Self::VhtCapMask(_) => NL80211_ATTR_VHT_CAPABILITY_MASK,
            Self::MaxCsaCounters(_) => NL80211_ATTR_MAX_CSA_COUNTERS,
            Self::WiphySelfManagedReg => NL80211_ATTR_WIPHY_SELF_MANAGED_REG,
            Self::SchedScanMaxReqs(_) => NL80211_ATTR_SCHED_SCAN_MAX_REQS,
            Self::EmlCapability(_) => NL80211_ATTR_EML_CAPABILITY,
            Self::MldCapaAndOps(_) => NL80211_ATTR_MLD_CAPA_AND_OPS,
            Self::Bands(_) => NL80211_ATTR_BANDS,
            Self::MaxNumAkmSuites(_) => NL80211_ATTR_MAX_NUM_AKM_SUITES,
            Self::MaxHwTimestampPeers(_) => NL80211_ATTR_MAX_HW_TIMESTAMP_PEERS,
            Self::Bss(_) => NL80211_ATTR_BSS,
            Self::RegType(_) => NL80211_ATTR_REG_TYPE,
            Self::RegAlpha2(_) => NL80211_ATTR_REG_ALPHA2,
            Self::RegInitiator(_) => NL80211_ATTR_REG_INITIATOR,
            Self::HiddenSsid(_) => NL80211_ATTR_HIDDEN_SSID,
            Self::BeaconInterval(_) => NL80211_ATTR_BEACON_INTERVAL,
            Self::DtimPeriod(_) => NL80211_ATTR_DTIM_PERIOD,
            Self::BeaconHead(_) => NL80211_ATTR_BEACON_HEAD,
            Self::BeaconTail(_) => NL80211_ATTR_BEACON_TAIL,
            Self::Privacy(_) => NL80211_ATTR_PRIVACY,
            Self::WpaVersions(_) => NL80211_ATTR_WPA_VERSIONS,
            Self::CipherSuitesPairwise(_) => NL80211_ATTR_CIPHER_SUITES_PAIRWISE,
            Self::CipherSuiteGroup(_) => NL80211_ATTR_CIPHER_SUITE_GROUP,
            Self::AkmSuites(_) => NL80211_ATTR_AKM_SUITES,
            Self::AuthType(_) => NL80211_ATTR_AUTH_TYPE,
            Self::ApSettingsFlags(_) => NL80211_ATTR_AP_SETTINGS_FLAGS,
            Self::Ie(_) => NL80211_ATTR_IE,
            Self::IeProbeResp(_) => NL80211_ATTR_IE_PROBE_RESP,
            Self::IeAssocResp(_) => NL80211_ATTR_IE_ASSOC_RESP,
            Self::ControlPortOverNl80211(_) => NL80211_ATTR_CONTROL_PORT_OVER_NL80211,
            Self::SocketOwner(_) => NL80211_ATTR_SOCKET_OWNER,
            Self::ControlPortNoPreauth(_) => NL80211_ATTR_CONTROL_PORT_NO_PREAUTH,
            Self::Other(nla) => nla.kind,
        }
    }

    /// Number of bytes of the value.
    pub fn value_len(&self) -> (n: usize)
        requires
            value_size(self@.value) <= usize::MAX,
        ensures
            n == value_size(self@.value),
    {
        match self {
            Self::Wiphy(_)
            | Self::IfIndex(_)
            | Self::IfType(_)
            | Self::Generation(_)
            | Self::WiphyFreq(_)
            | Self::WiphyFreqOffset(_)
            | Self::WiphyChannelType(_)
            | Self::ChannelWidth(_)
            | Self::CenterFreq1(_)
            | Self::CenterFreq2(_)
            | Self::WiphyTxPowerLevel(_)
            | Self::PsState(_)
            | Self::TransmitQueueLimit(_)
            | Self::TransmitQueueMemoryLimit(_)
            | Self::TransmitQueueQuantum(_)
            | Self::WiphyFragThreshold(_)
            | Self::WiphyRtsThreshold(_)
            | Self::WiphyAntennaAvailTx(_)
            | Self::WiphyAntennaAvailRx(_)
            | Self::ApProbeRespOffload(_)
            | Self::WiphyAntennaTx(_)
            | Self::WiphyAntennaRx(_)
            | Self::MaxRemainOnChannelDuration(_)
            | Self::Features(_)
            | Self::MaxNumSchedScanPlans(_)
            | Self::MaxScanPlanInterval(_)
            | Self::MaxScanPlanIterations(_)
            | Self::SchedScanMaxReqs(_)
            | Self::Bands(_)
            | Self::WpaVersions(_)
            | Self::CipherSuiteGroup(_)
            | Self::AuthType(_)
            | Self::ApSettingsFlags(_) => 4,
            Self::WiphyName(d)
            | Self::IfName(d)
            | Self::Ssid(d)
            | Self::RegAlpha2(d) => d.as_str().as_bytes().len() + 1,
            Self::IfTypeExtCap(d) => list_len(d),
            Self::Mac(_) => ETH_ALEN,
            Self::MacAddrs(d) => list_len(&MacAddressNlas::from_macs(d).0),
            Self::Wdev(_) => 8,
            Self::Use4Addr(_)
            | Self::WiphyRetryShort(_)
            | Self::WiphyRetryLong(_)
            | Self::WiphyCoverageClass(_)
            | Self::MaxNumScanSsids(_)
            | Self::MaxNumSchedScanSsids(_)
            | Self::MaxMatchSets(_)
            | Self::MaxNumPmkids(_)
            | Self::MaxCsaCounters(_)
            | Self::RegType(_)
            | Self::RegInitiator(_)
            | Self::HiddenSsid(_)
            | Self::DtimPeriod(_) => 1,
            Self::StationInfo(d) => list_len(d),
            Self::TransmitQueueStats(d) => list_len(d),
            Self::MloLinks(d) => list_len(d),
            Self::MaxScanIeLen(_)
            | Self::MaxSchedScanIeLen(_)
            | Self::FrameType(_)
            | Self::EmlCapability(_)
            | Self::MldCapaAndOps(_)
            | Self::MaxNumAkmSuites(_)
            | Self::MaxHwTimestampPeers(_)
            | Self::BeaconInterval(_) => 2,
            Self::SupportIbssRsn
            | Self::SupportMeshAuth
            | Self::SupportApUapsd
            | Self::RoamSupport
            | Self::TdlsSupport
            | Self::TdlsExternalSetup
            | Self::ControlPortEthertype
            | Self::SplitWiphyDump
            | Self::OffchannelTxOk
            | Self::WiphySelfManagedReg
            | Self::Privacy(_)
            | Self::ControlPortOverNl80211(_)
            | Self::SocketOwner(_)
            | Self::ControlPortNoPreauth(_) => 0,
            Self::CipherSuites(d) => words_len(d),
            Self::SupportedIftypes(d) => list_len(d),
            Self::WiphyBands(d) => list_len(d),
            Self::SupportedCommand(d) => list_len(d),
            Self::WowlanTrigersSupport(d) => list_len(d),
            Self::SoftwareIftypes(d) => list_len(d),
            Self::ExtFeatures(d) => d.buffer_len(),
            Self::InterfaceCombination(d) => list_len(d),
            Self::HtCapabilityMask(d) => d.buffer_len(),
            Self::FrameMatch(d)
            | Self::BeaconHead(d)
            | Self::BeaconTail(d)
            | Self::Ie(d)
            | Self::IeProbeResp(d)
            | Self::IeAssocResp(d) => d.len(),
            Self::TxFrameTypes(d)
            | Self::RxFrameTypes(d) => list_len(d),
            Self::ExtCap(d)
            | Self::ExtCapMask(d) => d.len(),
            Self::VhtCap(d)
            | Self::VhtCapMask(d) => d.buffer_len(),
            Self::Bss(d) => list_len(d),
            Self::CipherSuitesPairwise(d)
            | Self::AkmSuites(d) => words_len(d),
            Self::Other(nla) => nla.value.len(),
        }
    }

    /// Number of bytes of the value, if the value can be written and the
    /// number fits a `usize`. A value cannot be written where a record
    /// inside it, at any depth, has a value of more than 65531 bytes.
    pub fn encoded_len(&self) -> (r: Option<usize>)
        ensures
            match r {
                Some(n) => encodable(self@.value) && n == value_size(self@.value),
                None => !encodable(self@.value) || value_size(self@.value) > usize::MAX,
            },
    {
        match self {
            Self::Wiphy(_)
            | Self::IfIndex(_)
            | Self::IfType(_)
            | Self::Generation(_)
            | Self::WiphyFreq(_)
            | Self::WiphyFreqOffset(_)
            | Self::WiphyChannelType(_)
            | Self::ChannelWidth(_)
            | Self::CenterFreq1(_)
            | Self::CenterFreq2(_)
            | Self::WiphyTxPowerLevel(_)
            | Self::PsState(_)
            | Self::TransmitQueueLimit(_)
            | Self::TransmitQueueMemoryLimit(_)
            | Self::TransmitQueueQuantum(_)
            | Self::WiphyFragThreshold(_)
            | Self::WiphyRtsThreshold(_)
            | Self::WiphyAntennaAvailTx(_)
            | Self::WiphyAntennaAvailRx(_)
            | Self::ApProbeRespOffload(_)
            | Self::WiphyAntennaTx(_)
            | Self::WiphyAntennaRx(_)
            | Self::MaxRemainOnChannelDuration(_)
            | Self::Features(_)
            | Self::MaxNumSchedScanPlans(_)
            | Self::MaxScanPlanInterval(_)
            | Self::MaxScanPlanIterations(_)
            | Self::SchedScanMaxReqs(_)
            | Self::Bands(_)
            | Self::WpaVersions(_)
            | Self::CipherSuiteGroup(_)
            | Self::AuthType(_)
            | Self::ApSettingsFlags(_) => Some(4),
            Self::WiphyName(d)
            | Self::IfName(d)
            | Self::Ssid(d)
            | Self::RegAlpha2(d) => checked_len(d.as_str().as_bytes().len(), 1),
            Self::IfTypeExtCap(d) => list_encoded_len(d),
            Self::Mac(_) => Some(ETH_ALEN),
            Self::MacAddrs(d) => list_encoded_len(&MacAddressNlas::from_macs(d).0),
            Self::Wdev(_) => Some(8),
            Self::Use4Addr(_)
            | Self::WiphyRetryShort(_)
            | Self::WiphyRetryLong(_)
            | Self::WiphyCoverageClass(_)
            | Self::MaxNumScanSsids(_)
            | Self::MaxNumSchedScanSsids(_)
            | Self::MaxMatchSets(_)
            | Self::MaxNumPmkids(_)
            | Self::MaxCsaCounters(_)
            | Self::RegType(_)
            | Self::RegInitiator(_)
            | Self::HiddenSsid(_)
            | Self::DtimPeriod(_) => Some(1),
            Self::StationInfo(d) => list_encoded_len(d),
            Self::TransmitQueueStats(d) => list_encoded_len(d),
            Self::MloLinks(d) => list_encoded_len(d),
            Self::MaxScanIeLen(_)
            | Self::MaxSchedScanIeLen(_)
            | Self::FrameType(_)
            | Self::EmlCapability(_)
            | Self::MldCapaAndOps(_)
            | Self::MaxNumAkmSuites(_)
            | Self::MaxHwTimestampPeers(_)
            | Self::BeaconInterval(_) => Some(2),
            Self::SupportIbssRsn
            | Self::SupportMeshAuth
            | Self::SupportApUapsd
            | Self::RoamSupport
            | Self::TdlsSupport
            | Self::TdlsExternalSetup
            | Self::ControlPortEthertype
            | Self::SplitWiphyDump
            | Self::OffchannelTxOk
            | Self::WiphySelfManagedReg
            | Self::Privacy(_)
            | Self::ControlPortOverNl80211(_)
            | Self::SocketOwner(_)
            | Self::ControlPortNoPreauth(_) => Some(0),
            Self::CipherSuites(d) => checked_words_len(d),
            Self::SupportedIftypes(d) => list_encoded_len(d),
            Self::WiphyBands(d) => list_encoded_len(d),
            Self::SupportedCommand(d) => list_encoded_len(d),
            Self::WowlanTrigersSupport(d) => list_encoded_len(d),
            Self::SoftwareIftypes(d) => list_encoded_len(d),
            Self::ExtFeatures(d) => Some(d.buffer_len()),
            Self::InterfaceCombination(d) => list_encoded_len(d),
            Self::HtCapabilityMask(d) => Some(d.buffer_len()),
            Self::FrameMatch(d)
            | Self::BeaconHead(d)
            | Self::BeaconTail(d)
            | Self::Ie(d)
            | Self::IeProbeResp(d)
            | Self::IeAssocResp(d) => Some(d.len()),
            Self::TxFrameTypes(d)
            | Self::RxFrameTypes(d) => list_encoded_len(d),
            Self::ExtCap(d)
            | Self::ExtCapMask(d) => Some(d.len()),
            Self::VhtCap(d)
            | Self::VhtCapMask(d) => Some(d.buffer_len()),
            Self::Bss(d) => list_encoded_len(d),
            Self::CipherSuitesPairwise(d)
            | Self::AkmSuites(d) => checked_words_len(d),
            Self::Other(nla) => Some(nla.value.len()),
        }
    }

    /// Appends the bytes of the value to `out`.
    pub fn append_value(&self, out: &mut Vec<u8>)
        requires
            encodable(self@.value),
        ensures
            final(out)@ == old(out)@ + value_bytes(self@.value),
    {
        match self {
            Self::Wiphy(d)
            | Self::IfIndex(d)
            | Self::Generation(d)
            | Self::WiphyFreq(d)
            | Self::WiphyFreqOffset(d)
            | Self::CenterFreq1(d)
            | Self::CenterFreq2(d)
            | Self::WiphyTxPowerLevel(d)
            | Self::PsState(d)
            | Self::TransmitQueueLimit(d)
            | Self::TransmitQueueMemoryLimit(d)
            | Self::TransmitQueueQuantum(d)
            | Self::WiphyFragThreshold(d)
            | Self::WiphyRtsThreshold(d)
            | Self::WiphyAntennaAvailTx(d)
            | Self::WiphyAntennaAvailRx(d)
            | Self::ApProbeRespOffload(d)
            | Self::WiphyAntennaTx(d)
            | Self::WiphyAntennaRx(d)
            | Self::MaxRemainOnChannelDuration(d)
            | Self::MaxNumSchedScanPlans(d)
            | Self::MaxScanPlanInterval(d)
            | Self::MaxScanPlanIterations(d)
            | Self::SchedScanMaxReqs(d)
            | Self::WpaVersions(d)
            | Self::CipherSuiteGroup(d)
            | Self::AuthType(d)
            | Self::ApSettingsFlags(d) => push_u32(out, *d),
            Self::WiphyName(d)
            | Self::IfName(d)
            | Self::Ssid(d)
            | Self::RegAlpha2(d) => push_string(out, d.as_str()),
            Self::IfType(d) => push_u32(out, d.to_u32()),
            Self::IfTypeExtCap(d) => emit_list(d, out),
            Self::Mac(d) => push_bytes(out, d.as_slice()),
            Self::MacAddrs(d) => emit_list(&MacAddressNlas::from_macs(d).0, out),
            Self::Wdev(d) => push_u64(out, *d),
            Self::Use4Addr(d) => push_u8(out, if *d { 1 } else { 0 }),
            Self::WiphyChannelType(d) => push_u32(out, d.to_u32()),
            Self::ChannelWidth(d) => push_u32(out, d.to_u32()),
            Self::StationInfo(d) => emit_list(d, out),
            Self::TransmitQueueStats(d) => emit_list(d, out),
            Self::MloLinks(d) => emit_list(d, out),
            Self::WiphyRetryShort(d)
            | Self::WiphyRetryLong(d)
            | Self::WiphyCoverageClass(d)
            | Self::MaxNumScanSsids(d)
            | Self::MaxNumSchedScanSsids(d)
            | Self::MaxMatchSets(d)
            | Self::MaxNumPmkids(d)
            | Self::MaxCsaCounters(d)
            | Self::HiddenSsid(d)
            | Self::DtimPeriod(d) => push_u8(out, *d),
            Self::MaxScanIeLen(d)
            | Self::MaxSchedScanIeLen(d)
            | Self::EmlCapability(d)
            | Self::MldCapaAndOps(d)
            | Self::MaxNumAkmSuites(d)
            | Self::MaxHwTimestampPeers(d)
            | Self::BeaconInterval(d) => push_u16(out, *d),
            Self::SupportIbssRsn
            | Self::SupportMeshAuth
            | Self::SupportApUapsd
            | Self::RoamSupport
            | Self::TdlsSupport
            | Self::TdlsExternalSetup
            | Self::ControlPortEthertype
            | Self::SplitWiphyDump
            | Self::OffchannelTxOk
            | Self::WiphySelfManagedReg
            | Self::Privacy(_)
            | Self::ControlPortOverNl80211(_)
            | Self::SocketOwner(_)
            | Self::ControlPortNoPreauth(_) => {
                assert(out@ + Seq::<u8>::empty() =~= out@);
            },
            Self::CipherSuites(d) => push_ciphers(out, d),
            Self::SupportedIftypes(d) => emit_list(d, out),
            Self::WiphyBands(d) => emit_list(d, out),
            Self::SupportedCommand(d) => emit_list(d, out),
            Self::WowlanTrigersSupport(d) => emit_list(d, out),
            Self::SoftwareIftypes(d) => emit_list(d, out),
            Self::Features(d) => push_u32(out, d.bits()),
            Self::ExtFeatures(d) => d.emit(out),
            Self::InterfaceCombination(d) => emit_list(d, out),
            Self::HtCapabilityMask(d) => d.emit(out),
            Self::FrameMatch(d)
            | Self::BeaconHead(d)
            | Self::BeaconTail(d)
            | Self::Ie(d)
            | Self::IeProbeResp(d)
            | Self::IeAssocResp(d) => push_bytes(out, d.as_slice()),
            Self::FrameType(d) => push_u16(out, d.to_u16()),
            Self::TxFrameTypes(d)
            | Self::RxFrameTypes(d) => emit_list(d, out),
            Self::ExtCap(d)
            | Self::ExtCapMask(d) => d.emit(out),
            Self::VhtCap(d)
            | Self::VhtCapMask(d) => d.emit(out),
            Self::Bands(d) => push_u32(out, d.bits()),
            Self::Bss(d) => emit_list(d, out),
            Self::RegType(d) => push_u8(out, d.to_u8()),
            Self::RegInitiator(d) => push_u8(out, d.to_u8()),
            Self::CipherSuitesPairwise(d)
            | Self::AkmSuites(d) => push_words(out, d),
            Self::Other(nla) => push_bytes(out, nla.value.as_slice()),
        }
    }

    /// Writes the bytes of the value over `buffer`, which holds as many bytes
    /// as `value_len` says.
    pub fn emit_value(&self, buffer: &mut [u8])
        requires
            encodable(self@.value),
            old(buffer)@.len() == value_size(self@.value),
        ensures
            final(buffer)@ == value_bytes(self@.value),
    {
        let mut out: Vec<u8> = Vec::new();
        self.append_value(&mut out);
        proof {
            crate::wire::lemma_value_bytes_len(self@.value);
            assert(out@ =~= value_bytes(self@.value));
        }
        copy_into(buffer, out.as_slice());
    }

    /// Whether the attribute is of a kind that has no variant.
    pub fn is_unknown(&self) -> (b: bool)
        ensures
            b == (self is Other),
    {
        match self {
            Self::Other(_) => true,
            _ => false,
        }
    }

    /// Whether the attribute is the variant that stands for the given kind.
    /// An attribute of a kind that has no variant is the variant of no kind.
    pub fn is_variant(&self, kind: u16) -> (b: bool)
        ensures
            b == self.is_variant_of(kind),
    {
        !self.is_unknown() && self.kind() == kind
    }
}

} // verus!
