// SPDX-License-Identifier: MIT

//! The tables of kinds: for each namespace, which kinds are known and how the
//! value of each is laid out.

use vstd::prelude::*;

use crate::attr::{
    NL80211_ATTR_4ADDR, NL80211_ATTR_AKM_SUITES, NL80211_ATTR_AP_SETTINGS_FLAGS,
    NL80211_ATTR_AUTH_TYPE, NL80211_ATTR_BANDS, NL80211_ATTR_BEACON_HEAD,
    NL80211_ATTR_BEACON_INTERVAL, NL80211_ATTR_BEACON_TAIL, NL80211_ATTR_BSS,
    NL80211_ATTR_CENTER_FREQ1, NL80211_ATTR_CENTER_FREQ2, NL80211_ATTR_CHANNEL_WIDTH,
    NL80211_ATTR_CIPHER_SUITES, NL80211_ATTR_CIPHER_SUITES_PAIRWISE,
    NL80211_ATTR_CIPHER_SUITE_GROUP, NL80211_ATTR_CONTROL_PORT_ETHERTYPE,
    NL80211_ATTR_CONTROL_PORT_NO_PREAUTH, NL80211_ATTR_CONTROL_PORT_OVER_NL80211,
    NL80211_ATTR_DTIM_PERIOD, NL80211_ATTR_EML_CAPABILITY, NL80211_ATTR_EXT_CAPA,
    NL80211_ATTR_EXT_CAPA_MASK, NL80211_ATTR_EXT_FEATURES, NL80211_ATTR_FEATURE_FLAGS,
    NL80211_ATTR_FRAME_MATCH, NL80211_ATTR_FRAME_TYPE, NL80211_ATTR_GENERATION,
    NL80211_ATTR_HIDDEN_SSID, NL80211_ATTR_HT_CAPABILITY_MASK, NL80211_ATTR_IE,
    NL80211_ATTR_IE_ASSOC_RESP, NL80211_ATTR_IE_PROBE_RESP, NL80211_ATTR_IFINDEX,
    NL80211_ATTR_IFNAME, NL80211_ATTR_IFTYPE, NL80211_ATTR_IFTYPE_EXT_CAPA,
    NL80211_ATTR_INTERFACE_COMBINATIONS, NL80211_ATTR_MAC, NL80211_ATTR_MAC_ADDRS,
    NL80211_ATTR_MAX_CSA_COUNTERS, NL80211_ATTR_MAX_HW_TIMESTAMP_PEERS,
    NL80211_ATTR_MAX_MATCH_SETS, NL80211_ATTR_MAX_NUM_AKM_SUITES, NL80211_ATTR_MAX_NUM_PMKIDS,
    NL80211_ATTR_MAX_NUM_SCAN_SSIDS, NL80211_ATTR_MAX_NUM_SCHED_SCAN_PLANS,
    NL80211_ATTR_MAX_NUM_SCHED_SCAN_SSIDS, NL80211_ATTR_MAX_REMAIN_ON_CHANNEL_DURATION,
    NL80211_ATTR_MAX_SCAN_IE_LEN, NL80211_ATTR_MAX_SCAN_PLAN_INTERVAL,
    NL80211_ATTR_MAX_SCAN_PLAN_ITERATIONS, NL80211_ATTR_MAX_SCHED_SCAN_IE_LEN,
    NL80211_ATTR_MLD_CAPA_AND_OPS, NL80211_ATTR_MLO_LINKS, NL80211_ATTR_OFFCHANNEL_TX_OK,
    NL80211_ATTR_PRIVACY, NL80211_ATTR_PROBE_RESP_OFFLOAD, NL80211_ATTR_PS_STATE,
    NL80211_ATTR_REG_ALPHA2, NL80211_ATTR_REG_INITIATOR, NL80211_ATTR_REG_TYPE,
    NL80211_ATTR_ROAM_SUPPORT, NL80211_ATTR_RX_FRAME_TYPES, NL80211_ATTR_SCHED_SCAN_MAX_REQS,
    NL80211_ATTR_SOCKET_OWNER, NL80211_ATTR_SOFTWARE_IFTYPES, NL80211_ATTR_SPLIT_WIPHY_DUMP,
    NL80211_ATTR_SSID, NL80211_ATTR_STA_INFO, NL80211_ATTR_SUPPORTED_COMMANDS,
    NL80211_ATTR_SUPPORTED_IFTYPES, NL80211_ATTR_SUPPORT_AP_UAPSD, NL80211_ATTR_SUPPORT_IBSS_RSN,
    NL80211_ATTR_SUPPORT_MESH_AUTH, NL80211_ATTR_TDLS_EXTERNAL_SETUP, NL80211_ATTR_TDLS_SUPPORT,
    NL80211_ATTR_TXQ_LIMIT, NL80211_ATTR_TXQ_MEMORY_LIMIT, NL80211_ATTR_TXQ_QUANTUM,
    NL80211_ATTR_TXQ_STATS, NL80211_ATTR_TX_FRAME_TYPES, NL80211_ATTR_VHT_CAPABILITY,
    NL80211_ATTR_VHT_CAPABILITY_MASK, NL80211_ATTR_WDEV, NL80211_ATTR_WIPHY,
    NL80211_ATTR_WIPHY_ANTENNA_AVAIL_RX, NL80211_ATTR_WIPHY_ANTENNA_AVAIL_TX,
    NL80211_ATTR_WIPHY_ANTENNA_RX, NL80211_ATTR_WIPHY_ANTENNA_TX, NL80211_ATTR_WIPHY_BANDS,
    NL80211_ATTR_WIPHY_CHANNEL_TYPE, NL80211_ATTR_WIPHY_COVERAGE_CLASS,
    NL80211_ATTR_WIPHY_FRAG_THRESHOLD, NL80211_ATTR_WIPHY_FREQ, NL80211_ATTR_WIPHY_FREQ_OFFSET,
    NL80211_ATTR_WIPHY_NAME, NL80211_ATTR_WIPHY_RETRY_LONG, NL80211_ATTR_WIPHY_RETRY_SHORT,
    NL80211_ATTR_WIPHY_RTS_THRESHOLD, NL80211_ATTR_WIPHY_SELF_MANAGED_REG,
    NL80211_ATTR_WIPHY_TX_POWER_LEVEL, NL80211_ATTR_WOWLAN_TRIGGERS_SUPPORTED,
    NL80211_ATTR_WPA_VERSIONS,
};
use crate::iface::combination::{
    NL80211_IFACE_COMB_BI_MIN_GCD, NL80211_IFACE_COMB_LIMITS, NL80211_IFACE_COMB_MAXNUM,
    NL80211_IFACE_COMB_NUM_CHANNELS, NL80211_IFACE_COMB_RADAR_DETECT_REGIONS,
    NL80211_IFACE_COMB_RADAR_DETECT_WIDTHS, NL80211_IFACE_COMB_STA_AP_BI_MATCH,
    NL80211_IFACE_LIMIT_MAX, NL80211_IFACE_LIMIT_TYPES,
};
use crate::mlo::NL80211_ATTR_MLO_LINK_ID;
use crate::nla::nla_type;
use crate::scan::{
    NL80211_BSS_BEACON_IES, NL80211_BSS_BEACON_INTERVAL, NL80211_BSS_BEACON_TSF,
    NL80211_BSS_BSSID, NL80211_BSS_CAPABILITY, NL80211_BSS_CHAN_WIDTH, NL80211_BSS_FREQUENCY,
    NL80211_BSS_FREQUENCY_OFFSET, NL80211_BSS_INFORMATION_ELEMENTS,
    NL80211_BSS_LAST_SEEN_BOOTTIME, NL80211_BSS_MLD_ADDR, NL80211_BSS_MLO_LINK_ID,
    NL80211_BSS_PARENT_BSSID, NL80211_BSS_PARENT_TSF, NL80211_BSS_PRESP_DATA,
    NL80211_BSS_SEEN_MS_AGO, NL80211_BSS_SIGNAL_MBM, NL80211_BSS_SIGNAL_UNSPEC,
    NL80211_BSS_STATUS, NL80211_BSS_TSF,
};
use crate::station::{
    NL80211_RATE_INFO_10_MHZ_WIDTH, NL80211_RATE_INFO_160_MHZ_WIDTH,
    NL80211_RATE_INFO_320_MHZ_WIDTH, NL80211_RATE_INFO_40_MHZ_WIDTH,
    NL80211_RATE_INFO_5_MHZ_WIDTH, NL80211_RATE_INFO_80P80_MHZ_WIDTH,
    NL80211_RATE_INFO_80_MHZ_WIDTH, NL80211_RATE_INFO_BITRATE, NL80211_RATE_INFO_BITRATE32,
    NL80211_RATE_INFO_EHT_GI, NL80211_RATE_INFO_EHT_MCS, NL80211_RATE_INFO_EHT_NSS,
    NL80211_RATE_INFO_EHT_RU_ALLOC, NL80211_RATE_INFO_HE_DCM, NL80211_RATE_INFO_HE_GI,
    NL80211_RATE_INFO_HE_MCS, NL80211_RATE_INFO_HE_NSS, NL80211_RATE_INFO_HE_RU_ALLOC,
    NL80211_RATE_INFO_MCS, NL80211_RATE_INFO_SHORT_GI, NL80211_RATE_INFO_VHT_MCS,
    NL80211_RATE_INFO_VHT_NSS, NL80211_STA_INFO_ACK_SIGNAL, NL80211_STA_INFO_ACK_SIGNAL_AVG,
    NL80211_STA_INFO_AIRTIME_LINK_METRIC, NL80211_STA_INFO_AIRTIME_WEIGHT,
    NL80211_STA_INFO_ASSOC_AT_BOOTTIME, NL80211_STA_INFO_BEACON_LOSS, NL80211_STA_INFO_BEACON_RX,
    NL80211_STA_INFO_BEACON_SIGNAL_AVG, NL80211_STA_INFO_CONNECTED_TIME,
    NL80211_STA_INFO_CONNECTED_TO_AS, NL80211_STA_INFO_CONNECTED_TO_GATE,
    NL80211_STA_INFO_EXPECTED_THROUGHPUT, NL80211_STA_INFO_FCS_ERROR_COUNT,
    NL80211_STA_INFO_INACTIVE_TIME, NL80211_STA_INFO_LLID, NL80211_STA_INFO_PLID,
    NL80211_STA_INFO_PLINK_STATE, NL80211_STA_INFO_RX_BITRATE, NL80211_STA_INFO_RX_BYTES,
    NL80211_STA_INFO_RX_BYTES64, NL80211_STA_INFO_RX_DROP_MISC, NL80211_STA_INFO_RX_DURATION,
    NL80211_STA_INFO_RX_MPDUS, NL80211_STA_INFO_RX_PACKETS, NL80211_STA_INFO_SIGNAL,
    NL80211_STA_INFO_SIGNAL_AVG, NL80211_STA_INFO_TX_BITRATE, NL80211_STA_INFO_TX_BYTES,
    NL80211_STA_INFO_TX_BYTES64, NL80211_STA_INFO_TX_DURATION, NL80211_STA_INFO_TX_FAILED,
    NL80211_STA_INFO_TX_PACKETS, NL80211_STA_INFO_TX_RETRIES,
};
use crate::stats::{
    NL80211_TXQ_STATS_BACKLOG_BYTES, NL80211_TXQ_STATS_BACKLOG_PACKETS,
    NL80211_TXQ_STATS_COLLISIONS, NL80211_TXQ_STATS_DROPS, NL80211_TXQ_STATS_ECN_MARKS,
    NL80211_TXQ_STATS_FLOWS, NL80211_TXQ_STATS_MAX_FLOWS, NL80211_TXQ_STATS_OVERLIMIT,
    NL80211_TXQ_STATS_OVERMEMORY, NL80211_TXQ_STATS_TX_BYTES, NL80211_TXQ_STATS_TX_PACKETS,
};
use crate::wiphy::band::{
    NL80211_BAND_ATTR_FREQS, NL80211_BAND_ATTR_HT_AMPDU_DENSITY,
    NL80211_BAND_ATTR_HT_AMPDU_FACTOR, NL80211_BAND_ATTR_HT_CAPA, NL80211_BAND_ATTR_HT_MCS_SET,
    NL80211_BAND_ATTR_RATES, NL80211_BAND_ATTR_VHT_CAPA, NL80211_BAND_ATTR_VHT_MCS_SET,
    NL80211_BITRATE_ATTR_2GHZ_SHORTPREAMBLE, NL80211_BITRATE_ATTR_RATE,
    NL80211_FREQUENCY_ATTR_DFS_CAC_TIME, NL80211_FREQUENCY_ATTR_DFS_STATE,
    NL80211_FREQUENCY_ATTR_DFS_TIME, NL80211_FREQUENCY_ATTR_DISABLED, NL80211_FREQUENCY_ATTR_FREQ,
    NL80211_FREQUENCY_ATTR_INDOOR_ONLY, NL80211_FREQUENCY_ATTR_IR_CONCURRENT,
    NL80211_FREQUENCY_ATTR_MAX_TX_POWER, NL80211_FREQUENCY_ATTR_NO_10MHZ,
    NL80211_FREQUENCY_ATTR_NO_160MHZ, NL80211_FREQUENCY_ATTR_NO_20MHZ,
    NL80211_FREQUENCY_ATTR_NO_80MHZ, NL80211_FREQUENCY_ATTR_NO_HE,
    NL80211_FREQUENCY_ATTR_NO_HT40_MINUS, NL80211_FREQUENCY_ATTR_NO_HT40_PLUS,
    NL80211_FREQUENCY_ATTR_NO_IR, NL80211_FREQUENCY_ATTR_OFFSET, NL80211_FREQUENCY_ATTR_RADAR,
};
use crate::wiphy::wowlan::{
    NL80211_WOWLAN_TRIG_4WAY_HANDSHAKE, NL80211_WOWLAN_TRIG_ANY, NL80211_WOWLAN_TRIG_DISCONNECT,
    NL80211_WOWLAN_TRIG_EAP_IDENT_REQUEST, NL80211_WOWLAN_TRIG_GTK_REKEY_FAILURE,
    NL80211_WOWLAN_TRIG_GTK_REKEY_SUPPORTED, NL80211_WOWLAN_TRIG_MAGIC_PKT,
    NL80211_WOWLAN_TRIG_NET_DETECT, NL80211_WOWLAN_TRIG_PKT_PATTERN,
    NL80211_WOWLAN_TRIG_RFKILL_RELEASE,
};
use crate::wire::Shape;

verus! {

/// The namespaces of kinds. The kinds of one have nothing to do with the
/// kinds of another, though they may be the same numbers.
pub enum Namespace {
    /// The attributes of a message.
    Attr,
    /// Hardware addresses, numbered by their position.
    MacAddrs,
    /// Information about a station.
    Station,
    /// Statistics of a transmit queue.
    TxqStats,
    /// Information about a basic service set.
    Bss,
    /// Commands, numbered by their position.
    Commands,
    /// Interface types: the kind of a record is the type, and it has no value.
    IfTypes,
    /// Frame types by interface type: the kind of a record is the interface type.
    IfaceFrameTypes,
    /// Frame types: each record has the kind of the frame type attribute.
    FrameTypes,
    /// Wake-up triggers.
    Wowlan,
    /// Interface combinations, numbered by their position.
    IfaceCombs,
    /// Attributes of an interface combination.
    IfaceCombAttrs,
    /// Limits of an interface combination, numbered by their position.
    IfaceLimits,
    /// Attributes of a limit of an interface combination.
    IfaceLimitAttrs,
    /// Bands: the kind of a record is the band.
    Bands,
    /// Information about a band.
    BandInfo,
    /// Frequencies of a band, numbered by their position.
    Frequencies,
    /// Information about a frequency.
    FrequencyInfo,
    /// Bit rates of a band, numbered by their position.
    BandRates,
    /// Information about a bit rate of a band.
    BandRateInfo,
    /// Information about the bit rate of a station.
    RateInfo,
    /// Extended capabilities by interface type, numbered by their position.
    IfTypeExtCapas,
    /// Attributes of the extended capabilities of an interface type.
    IfTypeExtCapaAttrs,
    /// Links of a multi-link device: the kind of a record tells the link.
    MloLinks,
    /// Attributes of a link of a multi-link device.
    MloLinkAttrs,
}

impl Namespace {
    /// The shape of the value of a record of the given kind, or `None` for a
    /// kind that the namespace does not know.
    pub open spec fn shape(self, kind: u16) -> Option<Shape> {
        match self {
            Namespace::Attr => attr_shape(kind),
            Namespace::MacAddrs => Some(Shape::Fixed(6)),
            Namespace::Station => station_shape(kind),
            Namespace::TxqStats => txq_stats_shape(kind),
            Namespace::Bss => bss_shape(kind),
            Namespace::Commands => Some(Shape::U32),
            Namespace::IfTypes => Some(Shape::Flag),
            Namespace::IfaceFrameTypes => Some(Shape::List(Namespace::FrameTypes)),
            Namespace::FrameTypes => Some(Shape::U16),
            Namespace::Wowlan => wowlan_shape(kind),
            Namespace::IfaceCombs => Some(Shape::List(Namespace::IfaceCombAttrs)),
            Namespace::IfaceCombAttrs => iface_comb_shape(kind),
            Namespace::IfaceLimits => Some(Shape::List(Namespace::IfaceLimitAttrs)),
            Namespace::IfaceLimitAttrs => iface_limit_shape(kind),
            Namespace::Bands => Some(Shape::List(Namespace::BandInfo)),
            Namespace::BandInfo => band_shape(kind),
            Namespace::Frequencies => Some(Shape::List(Namespace::FrequencyInfo)),
            Namespace::FrequencyInfo => frequency_shape(kind),
            Namespace::BandRates => Some(Shape::List(Namespace::BandRateInfo)),
            Namespace::BandRateInfo => band_rate_shape(kind),
            Namespace::RateInfo => rate_info_shape(kind),
            Namespace::IfTypeExtCapas => Some(Shape::List(Namespace::IfTypeExtCapaAttrs)),
            Namespace::IfTypeExtCapaAttrs => iftype_ext_capa_shape(kind),
            Namespace::MloLinks => Some(Shape::List(Namespace::MloLinkAttrs)),
            Namespace::MloLinkAttrs => mlo_link_shape(kind),
        }
    }

    /// Whether the records of a list are numbered by their position, whatever
    /// their type fields say.
    pub open spec fn positional(self) -> bool {
        match self {
            Namespace::MacAddrs
            | Namespace::Commands
            | Namespace::IfaceCombs
            | Namespace::IfaceLimits
            | Namespace::Frequencies
            | Namespace::BandRates
            | Namespace::IfTypeExtCapas => true,
            _ => false,
        }
    }

    /// The kind of the record that is read at position `index` from a type
    /// field `wire`.
    pub open spec fn record_kind(self, index: nat, wire: u16) -> u16 {
        if self.positional() {
            (index % 0x1_0000) as u16
        } else if self is FrameTypes {
            NL80211_ATTR_FRAME_TYPE
        } else {
            nla_type(wire)
        }
    }
}

/// The kinds of the attributes of a message.
pub open spec fn attr_shape(kind: u16) -> Option<Shape> {
    match kind {
        NL80211_ATTR_WIPHY
        | NL80211_ATTR_IFINDEX
        | NL80211_ATTR_IFTYPE
        | NL80211_ATTR_GENERATION
        | NL80211_ATTR_WIPHY_FREQ
        | NL80211_ATTR_WIPHY_FREQ_OFFSET
        | NL80211_ATTR_WIPHY_CHANNEL_TYPE
        | NL80211_ATTR_CHANNEL_WIDTH
        | NL80211_ATTR_CENTER_FREQ1
        | NL80211_ATTR_CENTER_FREQ2
        | NL80211_ATTR_WIPHY_TX_POWER_LEVEL
        | NL80211_ATTR_PS_STATE
        | NL80211_ATTR_TXQ_LIMIT
        | NL80211_ATTR_TXQ_MEMORY_LIMIT
        | NL80211_ATTR_TXQ_QUANTUM
        | NL80211_ATTR_WIPHY_FRAG_THRESHOLD
        | NL80211_ATTR_WIPHY_RTS_THRESHOLD
        | NL80211_ATTR_WIPHY_ANTENNA_AVAIL_TX
        | NL80211_ATTR_WIPHY_ANTENNA_AVAIL_RX
        | NL80211_ATTR_PROBE_RESP_OFFLOAD
        | NL80211_ATTR_WIPHY_ANTENNA_TX
        | NL80211_ATTR_WIPHY_ANTENNA_RX
        | NL80211_ATTR_MAX_REMAIN_ON_CHANNEL_DURATION
        | NL80211_ATTR_FEATURE_FLAGS
        | NL80211_ATTR_MAX_NUM_SCHED_SCAN_PLANS
        | NL80211_ATTR_MAX_SCAN_PLAN_INTERVAL
        | NL80211_ATTR_MAX_SCAN_PLAN_ITERATIONS
        | NL80211_ATTR_SCHED_SCAN_MAX_REQS
        | NL80211_ATTR_BANDS
        | NL80211_ATTR_WPA_VERSIONS
        | NL80211_ATTR_CIPHER_SUITE_GROUP
        | NL80211_ATTR_AUTH_TYPE
        | NL80211_ATTR_AP_SETTINGS_FLAGS => Some(Shape::U32),
        NL80211_ATTR_WIPHY_NAME
        | NL80211_ATTR_IFNAME
        | NL80211_ATTR_SSID
        | NL80211_ATTR_REG_ALPHA2 => Some(Shape::Text),
        NL80211_ATTR_IFTYPE_EXT_CAPA => Some(Shape::List(Namespace::IfTypeExtCapas)),
        NL80211_ATTR_MAC => Some(Shape::Fixed(6)),
        NL80211_ATTR_MAC_ADDRS => Some(Shape::List(Namespace::MacAddrs)),
        NL80211_ATTR_WDEV => Some(Shape::U64),
        NL80211_ATTR_4ADDR => Some(Shape::Bool),
        NL80211_ATTR_STA_INFO => Some(Shape::List(Namespace::Station)),
        NL80211_ATTR_TXQ_STATS => Some(Shape::List(Namespace::TxqStats)),
        NL80211_ATTR_MLO_LINKS => Some(Shape::List(Namespace::MloLinks)),
        NL80211_ATTR_WIPHY_RETRY_SHORT
        | NL80211_ATTR_WIPHY_RETRY_LONG
        | NL80211_ATTR_WIPHY_COVERAGE_CLASS
        | NL80211_ATTR_MAX_NUM_SCAN_SSIDS
        | NL80211_ATTR_MAX_NUM_SCHED_SCAN_SSIDS
        | NL80211_ATTR_MAX_MATCH_SETS
        | NL80211_ATTR_MAX_NUM_PMKIDS
        | NL80211_ATTR_MAX_CSA_COUNTERS
        | NL80211_ATTR_HIDDEN_SSID
        | NL80211_ATTR_DTIM_PERIOD => Some(Shape::U8),
        NL80211_ATTR_MAX_SCAN_IE_LEN
        | NL80211_ATTR_MAX_SCHED_SCAN_IE_LEN
        | NL80211_ATTR_FRAME_TYPE
        | NL80211_ATTR_EML_CAPABILITY
        | NL80211_ATTR_MLD_CAPA_AND_OPS
        | NL80211_ATTR_MAX_NUM_AKM_SUITES
        | NL80211_ATTR_MAX_HW_TIMESTAMP_PEERS
        | NL80211_ATTR_BEACON_INTERVAL => Some(Shape::U16),
        NL80211_ATTR_SUPPORT_IBSS_RSN
        | NL80211_ATTR_SUPPORT_MESH_AUTH
        | NL80211_ATTR_SUPPORT_AP_UAPSD
        | NL80211_ATTR_ROAM_SUPPORT
        | NL80211_ATTR_TDLS_SUPPORT
        | NL80211_ATTR_TDLS_EXTERNAL_SETUP
        | NL80211_ATTR_CONTROL_PORT_ETHERTYPE
        | NL80211_ATTR_SPLIT_WIPHY_DUMP
        | NL80211_ATTR_OFFCHANNEL_TX_OK
        | NL80211_ATTR_WIPHY_SELF_MANAGED_REG
        | NL80211_ATTR_PRIVACY
        | NL80211_ATTR_CONTROL_PORT_OVER_NL80211
        | NL80211_ATTR_SOCKET_OWNER
        | NL80211_ATTR_CONTROL_PORT_NO_PREAUTH => Some(Shape::Flag),
        NL80211_ATTR_CIPHER_SUITES
        | NL80211_ATTR_CIPHER_SUITES_PAIRWISE
        | NL80211_ATTR_AKM_SUITES => Some(Shape::Words),
        NL80211_ATTR_SUPPORTED_IFTYPES
        | NL80211_ATTR_SOFTWARE_IFTYPES => Some(Shape::List(Namespace::IfTypes)),
        NL80211_ATTR_WIPHY_BANDS => Some(Shape::List(Namespace::Bands)),
        NL80211_ATTR_SUPPORTED_COMMANDS => Some(Shape::List(Namespace::Commands)),
        NL80211_ATTR_WOWLAN_TRIGGERS_SUPPORTED => Some(Shape::List(Namespace::Wowlan)),
        NL80211_ATTR_EXT_FEATURES => Some(Shape::Fixed(9)),
        NL80211_ATTR_INTERFACE_COMBINATIONS => Some(Shape::List(Namespace::IfaceCombs)),
        NL80211_ATTR_HT_CAPABILITY_MASK => Some(Shape::Fixed(26)),
        NL80211_ATTR_FRAME_MATCH
        | NL80211_ATTR_EXT_CAPA
        | NL80211_ATTR_EXT_CAPA_MASK
        | NL80211_ATTR_BEACON_HEAD
        | NL80211_ATTR_BEACON_TAIL
        | NL80211_ATTR_IE
        | NL80211_ATTR_IE_PROBE_RESP
        | NL80211_ATTR_IE_ASSOC_RESP => Some(Shape::Bytes),
        NL80211_ATTR_TX_FRAME_TYPES
        | NL80211_ATTR_RX_FRAME_TYPES => Some(Shape::List(Namespace::IfaceFrameTypes)),
        NL80211_ATTR_VHT_CAPABILITY
        | NL80211_ATTR_VHT_CAPABILITY_MASK => Some(Shape::Fixed(12)),
        NL80211_ATTR_BSS => Some(Shape::List(Namespace::Bss)),
        NL80211_ATTR_REG_TYPE
        | NL80211_ATTR_REG_INITIATOR => Some(Shape::FirstByte),
        _ => None,
    }
}

/// The kinds of the statistics of a transmit queue.
pub open spec fn txq_stats_shape(kind: u16) -> Option<Shape> {
    match kind {
        NL80211_TXQ_STATS_BACKLOG_BYTES
        | NL80211_TXQ_STATS_BACKLOG_PACKETS
        | NL80211_TXQ_STATS_FLOWS
        | NL80211_TXQ_STATS_DROPS
        | NL80211_TXQ_STATS_ECN_MARKS
        | NL80211_TXQ_STATS_OVERLIMIT
        | NL80211_TXQ_STATS_OVERMEMORY
        | NL80211_TXQ_STATS_COLLISIONS
        | NL80211_TXQ_STATS_TX_BYTES
        | NL80211_TXQ_STATS_TX_PACKETS
        | NL80211_TXQ_STATS_MAX_FLOWS => Some(Shape::U32),
        _ => None,
    }
}

/// The kinds of the information about a station.
pub open spec fn station_shape(kind: u16) -> Option<Shape> {
    match kind {
        NL80211_STA_INFO_INACTIVE_TIME
        | NL80211_STA_INFO_RX_BYTES
        | NL80211_STA_INFO_TX_BYTES
        | NL80211_STA_INFO_RX_PACKETS
        | NL80211_STA_INFO_TX_PACKETS
        | NL80211_STA_INFO_TX_RETRIES
        | NL80211_STA_INFO_TX_FAILED
        | NL80211_STA_INFO_CONNECTED_TIME
        | NL80211_STA_INFO_BEACON_LOSS
        | NL80211_STA_INFO_EXPECTED_THROUGHPUT
        | NL80211_STA_INFO_RX_MPDUS
        | NL80211_STA_INFO_FCS_ERROR_COUNT
        | NL80211_STA_INFO_AIRTIME_LINK_METRIC => Some(Shape::U32),
        NL80211_STA_INFO_LLID
        | NL80211_STA_INFO_PLID
        | NL80211_STA_INFO_AIRTIME_WEIGHT => Some(Shape::U16),
        NL80211_STA_INFO_PLINK_STATE
        | NL80211_STA_INFO_SIGNAL
        | NL80211_STA_INFO_SIGNAL_AVG
        | NL80211_STA_INFO_BEACON_SIGNAL_AVG
        | NL80211_STA_INFO_ACK_SIGNAL
        | NL80211_STA_INFO_ACK_SIGNAL_AVG => Some(Shape::U8),
        NL80211_STA_INFO_TX_BITRATE
        | NL80211_STA_INFO_RX_BITRATE => Some(Shape::List(Namespace::RateInfo)),
        NL80211_STA_INFO_RX_BYTES64
        | NL80211_STA_INFO_TX_BYTES64
        | NL80211_STA_INFO_RX_DROP_MISC
        | NL80211_STA_INFO_BEACON_RX
        | NL80211_STA_INFO_RX_DURATION
        | NL80211_STA_INFO_TX_DURATION
        | NL80211_STA_INFO_ASSOC_AT_BOOTTIME => Some(Shape::U64),
        NL80211_STA_INFO_CONNECTED_TO_GATE
        | NL80211_STA_INFO_CONNECTED_TO_AS => Some(Shape::Bool),
        _ => None,
    }
}

/// The kinds of the information about a basic service set.
pub open spec fn bss_shape(kind: u16) -> Option<Shape> {
    match kind {
        NL80211_BSS_BSSID
        | NL80211_BSS_PARENT_BSSID
        | NL80211_BSS_MLD_ADDR => Some(Shape::Fixed(6)),
        NL80211_BSS_FREQUENCY
        | NL80211_BSS_SIGNAL_MBM
        | NL80211_BSS_STATUS
        | NL80211_BSS_SEEN_MS_AGO
        | NL80211_BSS_CHAN_WIDTH
        | NL80211_BSS_FREQUENCY_OFFSET => Some(Shape::U32),
        NL80211_BSS_TSF
        | NL80211_BSS_BEACON_TSF
        | NL80211_BSS_LAST_SEEN_BOOTTIME
        | NL80211_BSS_PARENT_TSF => Some(Shape::U64),
        NL80211_BSS_BEACON_INTERVAL
        | NL80211_BSS_CAPABILITY => Some(Shape::U16),
        NL80211_BSS_INFORMATION_ELEMENTS
        | NL80211_BSS_BEACON_IES => Some(Shape::Bytes),
        NL80211_BSS_SIGNAL_UNSPEC
        | NL80211_BSS_MLO_LINK_ID => Some(Shape::U8),
        NL80211_BSS_PRESP_DATA => Some(Shape::Flag),
        _ => None,
    }
}

/// The kinds of the wake-up triggers.
pub open spec fn wowlan_shape(kind: u16) -> Option<Shape> {
    match kind {
        NL80211_WOWLAN_TRIG_ANY
        | NL80211_WOWLAN_TRIG_DISCONNECT
        | NL80211_WOWLAN_TRIG_MAGIC_PKT
        | NL80211_WOWLAN_TRIG_GTK_REKEY_SUPPORTED
        | NL80211_WOWLAN_TRIG_GTK_REKEY_FAILURE
        | NL80211_WOWLAN_TRIG_EAP_IDENT_REQUEST
        | NL80211_WOWLAN_TRIG_4WAY_HANDSHAKE
        | NL80211_WOWLAN_TRIG_RFKILL_RELEASE => Some(Shape::Flag),
        NL80211_WOWLAN_TRIG_PKT_PATTERN => Some(Shape::Fixed(16)),
        NL80211_WOWLAN_TRIG_NET_DETECT => Some(Shape::U32),
        _ => None,
    }
}

/// The kinds of the attributes of an interface combination.
pub open spec fn iface_comb_shape(kind: u16) -> Option<Shape> {
    match kind {
        NL80211_IFACE_COMB_LIMITS => Some(Shape::List(Namespace::IfaceLimits)),
        NL80211_IFACE_COMB_MAXNUM
        | NL80211_IFACE_COMB_NUM_CHANNELS
        | NL80211_IFACE_COMB_RADAR_DETECT_WIDTHS
        | NL80211_IFACE_COMB_RADAR_DETECT_REGIONS
        | NL80211_IFACE_COMB_BI_MIN_GCD => Some(Shape::U32),
        NL80211_IFACE_COMB_STA_AP_BI_MATCH => Some(Shape::Flag),
        _ => None,
    }
}

/// The kinds of the attributes of a limit of an interface combination.
pub open spec fn iface_limit_shape(kind: u16) -> Option<Shape> {
    match kind {
        NL80211_IFACE_LIMIT_MAX => Some(Shape::U32),
        NL80211_IFACE_LIMIT_TYPES => Some(Shape::List(Namespace::IfTypes)),
        _ => None,
    }
}

/// The kinds of the information about a band.
pub open spec fn band_shape(kind: u16) -> Option<Shape> {
    match kind {
        NL80211_BAND_ATTR_FREQS => Some(Shape::List(Namespace::Frequencies)),
        NL80211_BAND_ATTR_RATES => Some(Shape::List(Namespace::BandRates)),
        NL80211_BAND_ATTR_HT_MCS_SET => Some(Shape::Fixed(16)),
        NL80211_BAND_ATTR_HT_CAPA => Some(Shape::U16),
        NL80211_BAND_ATTR_HT_AMPDU_FACTOR
        | NL80211_BAND_ATTR_HT_AMPDU_DENSITY => Some(Shape::U8),
        NL80211_BAND_ATTR_VHT_MCS_SET => Some(Shape::Fixed(8)),
        NL80211_BAND_ATTR_VHT_CAPA => Some(Shape::U32),
        _ => None,
    }
}

/// The kinds of the information about a frequency.
pub open spec fn frequency_shape(kind: u16) -> Option<Shape> {
    match kind {
        NL80211_FREQUENCY_ATTR_FREQ
        | NL80211_FREQUENCY_ATTR_MAX_TX_POWER
        | NL80211_FREQUENCY_ATTR_DFS_STATE
        | NL80211_FREQUENCY_ATTR_DFS_TIME
        | NL80211_FREQUENCY_ATTR_DFS_CAC_TIME
        | NL80211_FREQUENCY_ATTR_OFFSET => Some(Shape::U32),
        NL80211_FREQUENCY_ATTR_DISABLED
        | NL80211_FREQUENCY_ATTR_NO_IR
        | NL80211_FREQUENCY_ATTR_RADAR
        | NL80211_FREQUENCY_ATTR_NO_HT40_MINUS
        | NL80211_FREQUENCY_ATTR_NO_HT40_PLUS
        | NL80211_FREQUENCY_ATTR_NO_80MHZ
        | NL80211_FREQUENCY_ATTR_NO_160MHZ
        | NL80211_FREQUENCY_ATTR_INDOOR_ONLY
        | NL80211_FREQUENCY_ATTR_IR_CONCURRENT
        | NL80211_FREQUENCY_ATTR_NO_20MHZ
        | NL80211_FREQUENCY_ATTR_NO_10MHZ
        | NL80211_FREQUENCY_ATTR_NO_HE => Some(Shape::Flag),
        _ => None,
    }
}

/// The kinds of the information about a bit rate of a band.
pub open spec fn band_rate_shape(kind: u16) -> Option<Shape> {
    match kind {
        NL80211_BITRATE_ATTR_RATE => Some(Shape::U32),
        NL80211_BITRATE_ATTR_2GHZ_SHORTPREAMBLE => Some(Shape::Flag),
        _ => None,
    }
}

/// The kinds of the information about the bit rate of a station.
pub open spec fn rate_info_shape(kind: u16) -> Option<Shape> {
    match kind {
        NL80211_RATE_INFO_BITRATE => Some(Shape::U16),
        NL80211_RATE_INFO_MCS
        | NL80211_RATE_INFO_VHT_MCS
        | NL80211_RATE_INFO_VHT_NSS
        | NL80211_RATE_INFO_HE_MCS
        | NL80211_RATE_INFO_HE_NSS
        | NL80211_RATE_INFO_HE_GI
        | NL80211_RATE_INFO_HE_DCM
        | NL80211_RATE_INFO_HE_RU_ALLOC
        | NL80211_RATE_INFO_EHT_MCS
        | NL80211_RATE_INFO_EHT_NSS
        | NL80211_RATE_INFO_EHT_GI
        | NL80211_RATE_INFO_EHT_RU_ALLOC => Some(Shape::U8),
        NL80211_RATE_INFO_40_MHZ_WIDTH
        | NL80211_RATE_INFO_SHORT_GI
        | NL80211_RATE_INFO_80_MHZ_WIDTH
        | NL80211_RATE_INFO_80P80_MHZ_WIDTH
        | NL80211_RATE_INFO_160_MHZ_WIDTH
        | NL80211_RATE_INFO_10_MHZ_WIDTH
        | NL80211_RATE_INFO_5_MHZ_WIDTH
        | NL80211_RATE_INFO_320_MHZ_WIDTH => Some(Shape::Flag),
        NL80211_RATE_INFO_BITRATE32 => Some(Shape::U32),
        _ => None,
    }
}

/// The kinds of the attributes of the extended capabilities of an interface type.
pub open spec fn iftype_ext_capa_shape(kind: u16) -> Option<Shape> {
    match kind {
        NL80211_ATTR_IFTYPE => Some(Shape::U32),
        NL80211_ATTR_EXT_CAPA
        | NL80211_ATTR_EXT_CAPA_MASK => Some(Shape::Bytes),
        NL80211_ATTR_EML_CAPABILITY
        | NL80211_ATTR_MLD_CAPA_AND_OPS => Some(Shape::U16),
        _ => None,
    }
}

/// The kinds of the attributes of a link of a multi-link device.
pub open spec fn mlo_link_shape(kind: u16) -> Option<Shape> {
    match kind {
        NL80211_ATTR_MLO_LINK_ID => Some(Shape::U8),
        NL80211_ATTR_MAC => Some(Shape::Fixed(6)),
        _ => None,
    }
}

} // verus!
