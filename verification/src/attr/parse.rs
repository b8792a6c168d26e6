// SPDX-License-Identifier: MIT

//! The reading of attributes.

use vstd::prelude::*;
use vstd::slice::slice_to_vec;

use crate::attr::{
    MacAddressNlas, Nl80211Attr, NL80211_ATTR_4ADDR, NL80211_ATTR_AKM_SUITES,
    NL80211_ATTR_AP_SETTINGS_FLAGS, NL80211_ATTR_AUTH_TYPE, NL80211_ATTR_BANDS,
    NL80211_ATTR_BEACON_HEAD, NL80211_ATTR_BEACON_INTERVAL, NL80211_ATTR_BEACON_TAIL,
    NL80211_ATTR_BSS, NL80211_ATTR_CENTER_FREQ1, NL80211_ATTR_CENTER_FREQ2,
    NL80211_ATTR_CHANNEL_WIDTH, NL80211_ATTR_CIPHER_SUITES, NL80211_ATTR_CIPHER_SUITES_PAIRWISE,
    NL80211_ATTR_CIPHER_SUITE_GROUP, NL80211_ATTR_CONTROL_PORT_ETHERTYPE,
    NL80211_ATTR_CONTROL_PORT_NO_PREAUTH, NL80211_ATTR_CONTROL_PORT_OVER_NL80211,
    NL80211_ATTR_DTIM_PERIOD, NL80211_ATTR_EML_CAPABILITY, NL80211_ATTR_EXT_CAPA,
    NL80211_ATTR_EXT_CAPA_MASK, NL80211_ATTR_EXT_FEATURES, NL80211_ATTR_FEATURE_FLAGS,
    NL80211_ATTR_FRAME_MATCH, NL80211_ATTR_FRAME_TYPE, NL80211_ATTR_GENERATION,
    NL80211_ATTR_HIDDEN_SSID, NL80211_ATTR_HT_CAPABILITY_MASK, NL80211_ATTR_IE,
    NL80211_ATTR_IE_ASSOC_RESP, NL80211_ATTR_IE_PROBE_RESP, NL80211_ATTR_IFINDEX,
    NL80211_ATTR_IFNAME, NL80211_ATTR_IFTYPE, NL80211_ATTR_IFTYPE_EXT_CAPA,
    NL80211_ATTR_INTERFACE_COMBINATIONS, NL80211_ATTR_MAC, NL80211_ATTR_MAC_ADDRS,
    NL80211_ATTR_MAX_CSA_COUNTERS, NL80211_ATTR_MAX_HW_TIMESTAMP_PEERS,
    NL80211_ATTR_MAX_MATCH_SETS, NL80211_ATTR_MAX_NUM_AKM_SUITES, NL80211_ATTR_MAX_NUM_PMKIDS,
    NL80211_ATTR_MAX_NUM_SCAN_SSIDS, NL80211_ATTR_MAX_NUM_SCHED_SCAN_PLANS,
    NL80211_ATTR_MAX_NUM_SCHED_SCAN_SSIDS, NL80211_ATTR_MAX_REMAIN_ON_CHANNEL_DURATION,
    NL80211_ATTR_MAX_SCAN_IE_LEN, NL80211_ATTR_MAX_SCAN_PLAN_INTERVAL,
    NL80211_ATTR_MAX_SCAN_PLAN_ITERATIONS, NL80211_ATTR_MAX_SCHED_SCAN_IE_LEN,
    NL80211_ATTR_MLD_CAPA_AND_OPS, NL80211_ATTR_MLO_LINKS, NL80211_ATTR_OFFCHANNEL_TX_OK,
    NL80211_ATTR_PRIVACY, NL80211_ATTR_PROBE_RESP_OFFLOAD, NL80211_ATTR_PS_STATE,
    NL80211_ATTR_REG_ALPHA2, NL80211_ATTR_REG_INITIATOR, NL80211_ATTR_REG_TYPE,
    NL80211_ATTR_ROAM_SUPPORT, NL80211_ATTR_RX_FRAME_TYPES, NL80211_ATTR_SCHED_SCAN_MAX_REQS,
    NL80211_ATTR_SOCKET_OWNER, NL80211_ATTR_SOFTWARE_IFTYPES, NL80211_ATTR_SPLIT_WIPHY_DUMP,
    NL80211_ATTR_SSID, NL80211_ATTR_STA_INFO, NL80211_ATTR_SUPPORTED_COMMANDS,
    NL80211_ATTR_SUPPORTED_IFTYPES, NL80211_ATTR_SUPPORT_AP_UAPSD, NL80211_ATTR_SUPPORT_IBSS_RSN,
    NL80211_ATTR_SUPPORT_MESH_AUTH, NL80211_ATTR_TDLS_EXTERNAL_SETUP, NL80211_ATTR_TDLS_SUPPORT,
    NL80211_ATTR_TXQ_LIMIT, NL80211_ATTR_TXQ_MEMORY_LIMIT, NL80211_ATTR_TXQ_QUANTUM,
    NL80211_ATTR_TXQ_STATS, NL80211_ATTR_TX_FRAME_TYPES, NL80211_ATTR_VHT_CAPABILITY,
    NL80211_ATTR_VHT_CAPABILITY_MASK, NL80211_ATTR_WDEV, NL80211_ATTR_WIPHY,
    NL80211_ATTR_WIPHY_ANTENNA_AVAIL_RX, NL80211_ATTR_WIPHY_ANTENNA_AVAIL_TX,
    NL80211_ATTR_WIPHY_ANTENNA_RX, NL80211_ATTR_WIPHY_ANTENNA_TX, NL80211_ATTR_WIPHY_BANDS,
    NL80211_ATTR_WIPHY_CHANNEL_TYPE, NL80211_ATTR_WIPHY_COVERAGE_CLASS,
    NL80211_ATTR_WIPHY_FRAG_THRESHOLD, NL80211_ATTR_WIPHY_FREQ, NL80211_ATTR_WIPHY_FREQ_OFFSET,
    NL80211_ATTR_WIPHY_NAME, NL80211_ATTR_WIPHY_RETRY_LONG, NL80211_ATTR_WIPHY_RETRY_SHORT,
    NL80211_ATTR_WIPHY_RTS_THRESHOLD, NL80211_ATTR_WIPHY_SELF_MANAGED_REG,
    NL80211_ATTR_WIPHY_TX_POWER_LEVEL, NL80211_ATTR_WOWLAN_TRIGGERS_SUPPORTED,
    NL80211_ATTR_WPA_VERSIONS,
};
use crate::bytes::{decode_mac, decode_string, decode_u16, decode_u32, decode_u64, decode_u8};
use crate::channel::Nl80211ChannelWidth;
use crate::codec::{decode_words, parse_list};
use crate::command::Nl80211Command;
use crate::error::{Nl80211DecodeError, Nl80211ErrorKind, Nl80211ListError};
use crate::ext_cap::{Nl80211ExtendedCapability, Nl80211IfTypeExtCapa};
use crate::feature::{Nl80211BandTypes, Nl80211ExtFeatures, Nl80211Features};
use crate::frame_type::{Nl80211FrameType, Nl80211IfaceFrameType};
use crate::iface::{Nl80211IfMode, Nl80211IfaceComb, Nl80211InterfaceType};
use crate::mlo::Nl80211MloLink;
use crate::nla::{RawNla, NLA_TYPE_MASK};
use crate::reg::{Nl80211RegDomType, Nl80211RegdomInitiator};
use crate::scan::Nl80211BssInfo;
use crate::schema::Namespace;
use crate::station::Nl80211StationInfo;
use crate::stats::Nl80211TransmitQueueStat;
use crate::wifi4::{Nl80211HtCapabilityMask, Nl80211HtWiphyChannelType};
use crate::wifi5::Nl80211VhtCapability;
use crate::wiphy::{decode_ciphers, Nl80211Band, Nl80211WowlanTrigersSupport};
use crate::wire::Record;

verus! {

/// The error of a value of the attribute `attr`.
fn value_of<T>(attr: u16, r: Result<T, Nl80211ErrorKind>) -> (out: Result<T, Nl80211DecodeError>)
    ensures
        match r {
            Ok(v) => out == Ok::<T, Nl80211DecodeError>(v),
            Err(e) => out == Err::<T, Nl80211DecodeError>(Nl80211DecodeError::of_value(attr, e)),
        },
{
    match r {
        Ok(v) => Ok(v),
        Err(e) => Err(Nl80211DecodeError { kind: e, attr: Some(attr), index: None }),
    }
}

/// The error of a list that is the value of the attribute `attr`.
fn list_of<T>(attr: u16, r: Result<T, Nl80211ListError>) -> (out: Result<T, Nl80211DecodeError>)
    ensures
        match r {
            Ok(v) => out == Ok::<T, Nl80211DecodeError>(v),
            Err(e) => out == Err::<T, Nl80211DecodeError>(Nl80211DecodeError::of_list(attr, e)),
        },
{
    match r {
        Ok(v) => Ok(v),
        Err(e) => Err(Nl80211DecodeError { kind: e.kind, attr: Some(attr), index: Some(e.index) }),
    }
}

impl Nl80211Attr {
    /// Whether `r` is what reading an attribute of the known kind `k` from
    /// `payload` gives.
    pub open spec fn reads_as(k: u16, payload: Seq<u8>, r: Result<Nl80211Attr, Nl80211DecodeError>)
        -> bool {
        match Namespace::Attr.shape(k) {
            None => false,
            Some(shape) => match r {
                Ok(a) => Nl80211Attr::spec_parse_known(k, shape, payload) == Ok::<
                    Record,
                    Nl80211DecodeError,
                >(a@) && a.canonical(),
                Err(e) => Nl80211Attr::spec_parse_known(k, shape, payload) == Err::<
                    Record,
                    Nl80211DecodeError,
                >(e),
            },
        }
    }

    /// Reads an attribute whose value is a 32-bit integer.
    #[verifier::rlimit(50)]
    fn parse_word(k: u16, payload: &[u8]) -> (r: Option<Result<Self, Nl80211DecodeError>>)
        ensures
            match r {
                Some(x) => Nl80211Attr::reads_as(k, payload@, x),
                None => !(Namespace::Attr.shape(k) matches Some(s) && (s is U32)),
            },
    {
        match k {
            NL80211_ATTR_WIPHY
            | NL80211_ATTR_IFINDEX
            | NL80211_ATTR_IFTYPE
            | NL80211_ATTR_GENERATION
            | NL80211_ATTR_WIPHY_FREQ
            | NL80211_ATTR_WIPHY_FREQ_OFFSET
            | NL80211_ATTR_WIPHY_CHANNEL_TYPE
            | NL80211_ATTR_CHANNEL_WIDTH
            | NL80211_ATTR_CENTER_FREQ1
            | NL80211_ATTR_CENTER_FREQ2
            | NL80211_ATTR_WIPHY_TX_POWER_LEVEL
            | NL80211_ATTR_PS_STATE
            | NL80211_ATTR_TXQ_LIMIT
            | NL80211_ATTR_TXQ_MEMORY_LIMIT
            | NL80211_ATTR_TXQ_QUANTUM
            | NL80211_ATTR_WIPHY_FRAG_THRESHOLD
            | NL80211_ATTR_WIPHY_RTS_THRESHOLD
            | NL80211_ATTR_WIPHY_ANTENNA_AVAIL_TX
            | NL80211_ATTR_WIPHY_ANTENNA_AVAIL_RX
            | NL80211_ATTR_PROBE_RESP_OFFLOAD
            | NL80211_ATTR_WIPHY_ANTENNA_TX
            | NL80211_ATTR_WIPHY_ANTENNA_RX
            | NL80211_ATTR_MAX_REMAIN_ON_CHANNEL_DURATION
            | NL80211_ATTR_FEATURE_FLAGS
            | NL80211_ATTR_MAX_NUM_SCHED_SCAN_PLANS
            | NL80211_ATTR_MAX_SCAN_PLAN_INTERVAL
            | NL80211_ATTR_MAX_SCAN_PLAN_ITERATIONS
            | NL80211_ATTR_SCHED_SCAN_MAX_REQS
            | NL80211_ATTR_BANDS
            | NL80211_ATTR_WPA_VERSIONS
            | NL80211_ATTR_CIPHER_SUITE_GROUP
            | NL80211_ATTR_AUTH_TYPE
            | NL80211_ATTR_AP_SETTINGS_FLAGS => {},
            _ => {
                return None;
            },
        }
        let d: u32 = match value_of(k, decode_u32(payload)) {
            Ok(d) => d,
            Err(e) => {
                return Some(Err(e));
            },
        };
        Some(
            Ok(
                match k {
                    NL80211_ATTR_WIPHY => Self::Wiphy(d),
                    NL80211_ATTR_IFINDEX => Self::IfIndex(d),
                    NL80211_ATTR_IFTYPE => {
                        proof {
                            Nl80211InterfaceType::lemma_from_to(d);
                        }
                        Self::IfType(Nl80211InterfaceType::from_u32(d))
                    },
                    NL80211_ATTR_GENERATION => Self::Generation(d),
                    NL80211_ATTR_WIPHY_FREQ => Self::WiphyFreq(d),
                    NL80211_ATTR_WIPHY_FREQ_OFFSET => Self::WiphyFreqOffset(d),
                    NL80211_ATTR_WIPHY_CHANNEL_TYPE => {
                        proof {
                            Nl80211HtWiphyChannelType::lemma_from_to(d);
                        }
                        Self::WiphyChannelType(Nl80211HtWiphyChannelType::from_u32(d))
                    },
                    NL80211_ATTR_CHANNEL_WIDTH => {
                        proof {
                            Nl80211ChannelWidth::lemma_from_to(d);
                        }
                        Self::ChannelWidth(Nl80211ChannelWidth::from_u32(d))
                    },
                    NL80211_ATTR_CENTER_FREQ1 => Self::CenterFreq1(d),
                    NL80211_ATTR_CENTER_FREQ2 => Self::CenterFreq2(d),
                    NL80211_ATTR_WIPHY_TX_POWER_LEVEL => Self::WiphyTxPowerLevel(d),
                    NL80211_ATTR_PS_STATE => Self::PsState(d),
                    NL80211_ATTR_TXQ_LIMIT => Self::TransmitQueueLimit(d),
                    NL80211_ATTR_TXQ_MEMORY_LIMIT => Self::TransmitQueueMemoryLimit(d),
                    NL80211_ATTR_TXQ_QUANTUM => Self::TransmitQueueQuantum(d),
                    NL80211_ATTR_WIPHY_FRAG_THRESHOLD => Self::WiphyFragThreshold(d),
                    NL80211_ATTR_WIPHY_RTS_THRESHOLD => Self::WiphyRtsThreshold(d),
                    NL80211_ATTR_WIPHY_ANTENNA_AVAIL_TX => Self::WiphyAntennaAvailTx(d),
                    NL80211_ATTR_WIPHY_ANTENNA_AVAIL_RX => Self::WiphyAntennaAvailRx(d),
                    NL80211_ATTR_PROBE_RESP_OFFLOAD => Self::ApProbeRespOffload(d),
                    NL80211_ATTR_WIPHY_ANTENNA_TX => Self::WiphyAntennaTx(d),
                    NL80211_ATTR_WIPHY_ANTENNA_RX => Self::WiphyAntennaRx(d),
                    NL80211_ATTR_MAX_REMAIN_ON_CHANNEL_DURATION =>
                        Self::MaxRemainOnChannelDuration(d),
                    NL80211_ATTR_FEATURE_FLAGS =>
                        Self::Features(Nl80211Features::from_bits_retain(d)),
                    NL80211_ATTR_MAX_NUM_SCHED_SCAN_PLANS => Self::MaxNumSchedScanPlans(d),
                    NL80211_ATTR_MAX_SCAN_PLAN_INTERVAL => Self::MaxScanPlanInterval(d),
                    NL80211_ATTR_MAX_SCAN_PLAN_ITERATIONS => Self::MaxScanPlanIterations(d),
                    NL80211_ATTR_SCHED_SCAN_MAX_REQS => Self::SchedScanMaxReqs(d),
                    NL80211_ATTR_BANDS => Self::Bands(Nl80211BandTypes::from_bits_retain(d)),
                    NL80211_ATTR_WPA_VERSIONS => Self::WpaVersions(d),
                    NL80211_ATTR_CIPHER_SUITE_GROUP => Self::CipherSuiteGroup(d),
                    NL80211_ATTR_AUTH_TYPE => Self::AuthType(d),
                    NL80211_ATTR_AP_SETTINGS_FLAGS => Self::ApSettingsFlags(d),
                    _ => unreached(),
                },
            ),
        )
    }

    /// Reads an attribute whose value is a 16-bit integer.
    #[verifier::rlimit(50)]
    fn parse_short(k: u16, payload: &[u8]) -> (r: Option<Result<Self, Nl80211DecodeError>>)
        ensures
            match r {
                Some(x) => Nl80211Attr::reads_as(k, payload@, x),
                None => !(Namespace::Attr.shape(k) matches Some(s) && (s is U16)),
            },
    {
        match k {
            NL80211_ATTR_MAX_SCAN_IE_LEN
            | NL80211_ATTR_MAX_SCHED_SCAN_IE_LEN
            | NL80211_ATTR_FRAME_TYPE
            | NL80211_ATTR_EML_CAPABILITY
            | NL80211_ATTR_MLD_CAPA_AND_OPS
            | NL80211_ATTR_MAX_NUM_AKM_SUITES
            | NL80211_ATTR_MAX_HW_TIMESTAMP_PEERS
            | NL80211_ATTR_BEACON_INTERVAL => {},
            _ => {
                return None;
            },
        }
        let d: u16 = match value_of(k, decode_u16(payload)) {
            Ok(d) => d,
            Err(e) => {
                return Some(Err(e));
            },
        };
        Some(
            Ok(
                match k {
                    NL80211_ATTR_MAX_SCAN_IE_LEN => Self::MaxScanIeLen(d),
                    NL80211_ATTR_MAX_SCHED_SCAN_IE_LEN => Self::MaxSchedScanIeLen(d),
                    NL80211_ATTR_FRAME_TYPE => {
                        proof {
                            Nl80211FrameType::lemma_from_to(d);
                        }
                        Self::FrameType(Nl80211FrameType::from_u16(d))
                    },
                    NL80211_ATTR_EML_CAPABILITY => Self::EmlCapability(d),
                    NL80211_ATTR_MLD_CAPA_AND_OPS => Self::MldCapaAndOps(d),
                    NL80211_ATTR_MAX_NUM_AKM_SUITES => Self::MaxNumAkmSuites(d),
                    NL80211_ATTR_MAX_HW_TIMESTAMP_PEERS => Self::MaxHwTimestampPeers(d),
                    NL80211_ATTR_BEACON_INTERVAL => Self::BeaconInterval(d),
                    _ => unreached(),
                },
            ),
        )
    }

    /// Reads an attribute whose value is an 8-bit integer.
    #[verifier::rlimit(50)]
    fn parse_byte(k: u16, payload: &[u8]) -> (r: Option<Result<Self, Nl80211DecodeError>>)
        ensures
            match r {
                Some(x) => Nl80211Attr::reads_as(k, payload@, x),
                None => !(Namespace::Attr.shape(k) matches Some(s) && (s is U8)),
            },
    {
        match k {
            NL80211_ATTR_WIPHY_RETRY_SHORT
            | NL80211_ATTR_WIPHY_RETRY_LONG
            | NL80211_ATTR_WIPHY_COVERAGE_CLASS
            | NL80211_ATTR_MAX_NUM_SCAN_SSIDS
            | NL80211_ATTR_MAX_NUM_SCHED_SCAN_SSIDS
            | NL80211_ATTR_MAX_MATCH_SETS
            | NL80211_ATTR_MAX_NUM_PMKIDS
            | NL80211_ATTR_MAX_CSA_COUNTERS
            | NL80211_ATTR_HIDDEN_SSID
            | NL80211_ATTR_DTIM_PERIOD => {},
            _ => {
                return None;
            },
        }
        let d: u8 = match value_of(k, decode_u8(payload)) {
            Ok(d) => d,
            Err(e) => {
                return Some(Err(e));
            },
        };
        Some(
            Ok(
                match k {
                    NL80211_ATTR_WIPHY_RETRY_SHORT => Self::WiphyRetryShort(d),
                    NL80211_ATTR_WIPHY_RETRY_LONG => Self::WiphyRetryLong(d),
                    NL80211_ATTR_WIPHY_COVERAGE_CLASS => Self::WiphyCoverageClass(d),
                    NL80211_ATTR_MAX_NUM_SCAN_SSIDS => Self::MaxNumScanSsids(d),
                    NL80211_ATTR_MAX_NUM_SCHED_SCAN_SSIDS => Self::MaxNumSchedScanSsids(d),
                    NL80211_ATTR_MAX_MATCH_SETS => Self::MaxMatchSets(d),
                    NL80211_ATTR_MAX_NUM_PMKIDS => Self::MaxNumPmkids(d),
                    NL80211_ATTR_MAX_CSA_COUNTERS => Self::MaxCsaCounters(d),
                    NL80211_ATTR_HIDDEN_SSID => Self::HiddenSsid(d),
                    NL80211_ATTR_DTIM_PERIOD => Self::DtimPeriod(d),
                    _ => unreached(),
                },
            ),
        )
    }

    /// Reads an attribute whose value is a 64-bit integer, a truth value, or a
    /// number in the first byte.
    #[verifier::rlimit(50)]
    fn parse_number(k: u16, payload: &[u8]) -> (r: Option<Result<Self, Nl80211DecodeError>>)
        ensures
            match r {
                Some(x) => Nl80211Attr::reads_as(k, payload@, x),
                None =>
                    !(Namespace::Attr.shape(k) matches Some(s) && (s is U64 || s is Bool || s is FirstByte)),
            },
    {
        Some(
            Ok(
                match k {
                    NL80211_ATTR_WDEV => match value_of(k, decode_u64(payload)) {
                        Ok(d) => Self::Wdev(d),
                        Err(e) => {
                            return Some(Err(e));
                        },
                    },
                    NL80211_ATTR_4ADDR => match value_of(k, decode_u8(payload)) {
                        Ok(d) => Self::Use4Addr(d > 0),
                        Err(e) => {
                            return Some(Err(e));
                        },
                    },
                    NL80211_ATTR_REG_TYPE => {
                        proof {
                            if payload@.len() > 0 {
                                Nl80211RegDomType::lemma_from_to(payload@[0]);
                            }
                        }
                        match value_of(k, Nl80211RegDomType::parse(payload)) {
                            Ok(d) => Self::RegType(d),
                            Err(e) => {
                                return Some(Err(e));
                            },
                        }
                    },
                    NL80211_ATTR_REG_INITIATOR => {
                        proof {
                            if payload@.len() > 0 {
                                Nl80211RegdomInitiator::lemma_from_to(payload@[0]);
                            }
                        }
                        match value_of(k, Nl80211RegdomInitiator::parse(payload)) {
                            Ok(d) => Self::RegInitiator(d),
                            Err(e) => {
                                return Some(Err(e));
                            },
                        }
                    },
                    _ => {
                        return None;
                    },
                },
            ),
        )
    }

    /// Reads an attribute that says all by being there: its value is not read.
    #[verifier::rlimit(50)]
    fn parse_flag(k: u16, payload: &[u8]) -> (r: Option<Result<Self, Nl80211DecodeError>>)
        ensures
            match r {
                Some(x) => Nl80211Attr::reads_as(k, payload@, x),
                None => !(Namespace::Attr.shape(k) matches Some(s) && (s is Flag)),
            },
    {
        Some(
            Ok(
                match k {
                    NL80211_ATTR_SUPPORT_IBSS_RSN => Self::SupportIbssRsn,
                    NL80211_ATTR_SUPPORT_MESH_AUTH => Self::SupportMeshAuth,
                    NL80211_ATTR_SUPPORT_AP_UAPSD => Self::SupportApUapsd,
                    NL80211_ATTR_ROAM_SUPPORT => Self::RoamSupport,
                    NL80211_ATTR_TDLS_SUPPORT => Self::TdlsSupport,
                    NL80211_ATTR_TDLS_EXTERNAL_SETUP => Self::TdlsExternalSetup,
                    NL80211_ATTR_CONTROL_PORT_ETHERTYPE => Self::ControlPortEthertype,
                    NL80211_ATTR_SPLIT_WIPHY_DUMP => Self::SplitWiphyDump,
                    NL80211_ATTR_OFFCHANNEL_TX_OK => Self::OffchannelTxOk,
                    NL80211_ATTR_WIPHY_SELF_MANAGED_REG => Self::WiphySelfManagedReg,
                    NL80211_ATTR_PRIVACY => Self::Privacy(true),
                    NL80211_ATTR_CONTROL_PORT_OVER_NL80211 => Self::ControlPortOverNl80211(true),
                    NL80211_ATTR_SOCKET_OWNER => Self::SocketOwner(true),
                    NL80211_ATTR_CONTROL_PORT_NO_PREAUTH => Self::ControlPortNoPreauth(true),
                    _ => {
                        return None;
                    },
                },
            ),
        )
    }

    /// Reads an attribute whose value is text.
    #[verifier::rlimit(50)]
    fn parse_text(k: u16, payload: &[u8]) -> (r: Option<Result<Self, Nl80211DecodeError>>)
        ensures
            match r {
                Some(x) => Nl80211Attr::reads_as(k, payload@, x),
                None => !(Namespace::Attr.shape(k) matches Some(s) && (s is Text)),
            },
    {
        Some(
            Ok(
                match k {
                    NL80211_ATTR_WIPHY_NAME => match value_of(k, decode_string(payload)) {
                        Ok(d) => Self::WiphyName(d),
                        Err(e) => {
                            return Some(Err(e));
                        },
                    },
                    NL80211_ATTR_IFNAME => match value_of(k, decode_string(payload)) {
                        Ok(d) => Self::IfName(d),
                        Err(e) => {
                            return Some(Err(e));
                        },
                    },
                    NL80211_ATTR_SSID => match value_of(k, decode_string(payload)) {
                        Ok(d) => Self::Ssid(d),
                        Err(e) => {
                            return Some(Err(e));
                        },
                    },
                    NL80211_ATTR_REG_ALPHA2 => match value_of(k, decode_string(payload)) {
                        Ok(d) => Self::RegAlpha2(d),
                        Err(e) => {
                            return Some(Err(e));
                        },
                    },
                    _ => {
                        return None;
                    },
                },
            ),
        )
    }

    /// Reads an attribute whose value is bytes that are kept as they are, or a
    /// list of 32-bit integers.
    #[verifier::rlimit(50)]
    fn parse_bytes(k: u16, payload: &[u8]) -> (r: Option<Result<Self, Nl80211DecodeError>>)
        ensures
            match r {
                Some(x) => Nl80211Attr::reads_as(k, payload@, x),
                None => !(Namespace::Attr.shape(k) matches Some(s) && (s is Bytes || s is Words)),
            },
    {
        Some(
            Ok(
                match k {
                    NL80211_ATTR_CIPHER_SUITES => Self::CipherSuites(decode_ciphers(payload)),
                    NL80211_ATTR_FRAME_MATCH => Self::FrameMatch(slice_to_vec(payload)),
                    NL80211_ATTR_EXT_CAPA => Self::ExtCap(Nl80211ExtendedCapability::new(payload)),
                    NL80211_ATTR_EXT_CAPA_MASK =>
                        Self::ExtCapMask(Nl80211ExtendedCapability::new(payload)),
                    NL80211_ATTR_BEACON_HEAD => Self::BeaconHead(slice_to_vec(payload)),
                    NL80211_ATTR_BEACON_TAIL => Self::BeaconTail(slice_to_vec(payload)),
                    NL80211_ATTR_CIPHER_SUITES_PAIRWISE =>
                        Self::CipherSuitesPairwise(decode_words(payload)),
                    NL80211_ATTR_AKM_SUITES => Self::AkmSuites(decode_words(payload)),
                    NL80211_ATTR_IE => Self::Ie(slice_to_vec(payload)),
                    NL80211_ATTR_IE_PROBE_RESP => Self::IeProbeResp(slice_to_vec(payload)),
                    NL80211_ATTR_IE_ASSOC_RESP => Self::IeAssocResp(slice_to_vec(payload)),
                    _ => {
                        return None;
                    },
                },
            ),
        )
    }

    /// Reads an attribute whose value has a fixed number of bytes.
    #[verifier::rlimit(50)]
    fn parse_block(k: u16, payload: &[u8]) -> (r: Option<Result<Self, Nl80211DecodeError>>)
        ensures
            match r {
                Some(x) => Nl80211Attr::reads_as(k, payload@, x),
                None => !(Namespace::Attr.shape(k) matches Some(s) && (s is Fixed)),
            },
    {
        Some(
            Ok(
                match k {
                    NL80211_ATTR_MAC => match value_of(k, decode_mac(payload)) {
                        Ok(d) => Self::Mac(d),
                        Err(e) => {
                            return Some(Err(e));
                        },
                    },
                    NL80211_ATTR_EXT_FEATURES =>
                        match value_of(k, Nl80211ExtFeatures::parse(payload)) {
                        Ok(d) => Self::ExtFeatures(d),
                        Err(e) => {
                            return Some(Err(e));
                        },
                    },
                    NL80211_ATTR_HT_CAPABILITY_MASK =>
                        match value_of(k, Nl80211HtCapabilityMask::parse(payload)) {
                        Ok(d) => Self::HtCapabilityMask(d),
                        Err(e) => {
                            return Some(Err(e));
                        },
                    },
                    NL80211_ATTR_VHT_CAPABILITY =>
                        match value_of(k, Nl80211VhtCapability::parse(payload)) {
                        Ok(d) => Self::VhtCap(d),
                        Err(e) => {
                            return Some(Err(e));
                        },
                    },
                    NL80211_ATTR_VHT_CAPABILITY_MASK =>
                        match value_of(k, Nl80211VhtCapability::parse(payload)) {
                        Ok(d) => Self::VhtCapMask(d),
                        Err(e) => {
                            return Some(Err(e));
                        },
                    },
                    _ => {
                        return None;
                    },
                },
            ),
        )
    }

    /// Reads an attribute whose value is a list of records.
    #[verifier::rlimit(50)]
    fn parse_nested(k: u16, payload: &[u8]) -> (r: Option<Result<Self, Nl80211DecodeError>>)
        ensures
            match r {
                Some(x) => Nl80211Attr::reads_as(k, payload@, x),
                None => !(Namespace::Attr.shape(k) matches Some(s) && (s is List)),
            },
    {
        Some(
            Ok(
                match k {
                    NL80211_ATTR_IFTYPE_EXT_CAPA =>
                        match list_of(k, parse_list::<Nl80211IfTypeExtCapa>(payload)) {
                        Ok(d) => Self::IfTypeExtCap(d),
                        Err(e) => {
                            return Some(Err(e));
                        },
                    },
                    NL80211_ATTR_MAC_ADDRS => match list_of(k, MacAddressNlas::parse(payload)) {
                        Ok(d) => Self::MacAddrs(d.into_macs()),
                        Err(e) => {
                            return Some(Err(e));
                        },
                    },
                    NL80211_ATTR_STA_INFO =>
                        match list_of(k, parse_list::<Nl80211StationInfo>(payload)) {
                        Ok(d) => Self::StationInfo(d),
                        Err(e) => {
                            return Some(Err(e));
                        },
                    },
                    NL80211_ATTR_TXQ_STATS =>
                        match list_of(k, parse_list::<Nl80211TransmitQueueStat>(payload)) {
                        Ok(d) => Self::TransmitQueueStats(d),
                        Err(e) => {
                            return Some(Err(e));
                        },
                    },
                    NL80211_ATTR_MLO_LINKS =>
                        match list_of(k, parse_list::<Nl80211MloLink>(payload)) {
                        Ok(d) => Self::MloLinks(d),
                        Err(e) => {
                            return Some(Err(e));
                        },
                    },
                    NL80211_ATTR_SUPPORTED_IFTYPES =>
                        match list_of(k, parse_list::<Nl80211IfMode>(payload)) {
                        Ok(d) => Self::SupportedIftypes(d),
                        Err(e) => {
                            return Some(Err(e));
                        },
                    },
                    NL80211_ATTR_WIPHY_BANDS =>
                        match list_of(k, parse_list::<Nl80211Band>(payload)) {
                        Ok(d) => Self::WiphyBands(d),
                        Err(e) => {
                            return Some(Err(e));
                        },
                    },
                    NL80211_ATTR_SUPPORTED_COMMANDS =>
                        match list_of(k, parse_list::<Nl80211Command>(payload)) {
                        Ok(d) => Self::SupportedCommand(d),
                        Err(e) => {
                            return Some(Err(e));
                        },
                    },
                    NL80211_ATTR_WOWLAN_TRIGGERS_SUPPORTED =>
                        match list_of(k, parse_list::<Nl80211WowlanTrigersSupport>(payload)) {
                        Ok(d) => Self::WowlanTrigersSupport(d),
                        Err(e) => {
                            return Some(Err(e));
                        },
                    },
                    NL80211_ATTR_SOFTWARE_IFTYPES =>
                        match list_of(k, parse_list::<Nl80211InterfaceType>(payload)) {
                        Ok(d) => Self::SoftwareIftypes(d),
                        Err(e) => {
                            return Some(Err(e));
                        },
                    },
                    NL80211_ATTR_INTERFACE_COMBINATIONS =>
                        match list_of(k, parse_list::<Nl80211IfaceComb>(payload)) {
                        Ok(d) => Self::InterfaceCombination(d),
                        Err(e) => {
                            return Some(Err(e));
                        },
                    },
                    NL80211_ATTR_TX_FRAME_TYPES =>
                        match list_of(k, parse_list::<Nl80211IfaceFrameType>(payload)) {
                        Ok(d) => Self::TxFrameTypes(d),
                        Err(e) => {
                            return Some(Err(e));
                        },
                    },
                    NL80211_ATTR_RX_FRAME_TYPES =>
                        match list_of(k, parse_list::<Nl80211IfaceFrameType>(payload)) {
                        Ok(d) => Self::RxFrameTypes(d),
                        Err(e) => {
                            return Some(Err(e));
                        },
                    },
                    NL80211_ATTR_BSS => match list_of(k, parse_list::<Nl80211BssInfo>(payload)) {
                        Ok(d) => Self::Bss(d),
                        Err(e) => {
                            return Some(Err(e));
                        },
                    },
                    _ => {
                        return None;
                    },
                },
            ),
        )
    }

    /// Reads the attribute of type field `kind` and value `payload`. A kind
    /// that is not known is no error: it gives `Other`, with the type field
    /// and the bytes as they came.
    pub fn parse(kind: u16, payload: &[u8]) -> (r: Result<Self, Nl80211DecodeError>)
        ensures
            match r {
                Ok(a) =>
                    Nl80211Attr::spec_parse(kind, payload@) == Ok::<Record, Nl80211DecodeError>(
                    a@,
                ) && a.canonical(),
                Err(e) => Nl80211Attr::spec_parse(kind, payload@) == Err::<
                    Record,
                    Nl80211DecodeError,
                >(e),
            },
    {
        let k: u16 = kind & NLA_TYPE_MASK;
        match Self::parse_word(k, payload) {
            Some(r) => return r,
            None => {},
        }
        match Self::parse_short(k, payload) {
            Some(r) => return r,
            None => {},
        }
        match Self::parse_byte(k, payload) {
            Some(r) => return r,
            None => {},
        }
        match Self::parse_number(k, payload) {
            Some(r) => return r,
            None => {},
        }
        match Self::parse_flag(k, payload) {
            Some(r) => return r,
            None => {},
        }
        match Self::parse_text(k, payload) {
            Some(r) => return r,
            None => {},
        }
        match Self::parse_bytes(k, payload) {
            Some(r) => return r,
            None => {},
        }
        match Self::parse_block(k, payload) {
            Some(r) => return r,
            None => {},
        }
        match Self::parse_nested(k, payload) {
            Some(r) => return r,
            None => {},
        }
        Ok(Self::Other(RawNla::new(kind, slice_to_vec(payload))))
    }
}

} // verus!
