// SPDX-License-Identifier: MIT

//! The features of a device, as sets of bits.

use vstd::prelude::*;
use vstd::slice::slice_to_vec;

use crate::bytes::push_bytes;
use crate::error::Nl80211ErrorKind;

verus! {

pub const NL80211_EXT_FEATURE_VHT_IBSS: u16 = 0;
pub const NL80211_EXT_FEATURE_RRM: u16 = 1;
pub const NL80211_EXT_FEATURE_MU_MIMO_AIR_SNIFFER: u16 = 2;
pub const NL80211_EXT_FEATURE_SCAN_START_TIME: u16 = 3;
pub const NL80211_EXT_FEATURE_BSS_PARENT_TSF: u16 = 4;
pub const NL80211_EXT_FEATURE_SET_SCAN_DWELL: u16 = 5;
pub const NL80211_EXT_FEATURE_BEACON_RATE_LEGACY: u16 = 6;
pub const NL80211_EXT_FEATURE_BEACON_RATE_HT: u16 = 7;
pub const NL80211_EXT_FEATURE_BEACON_RATE_VHT: u16 = 8;
pub const NL80211_EXT_FEATURE_FILS_STA: u16 = 9;
pub const NL80211_EXT_FEATURE_MGMT_TX_RANDOM_TA: u16 = 10;
pub const NL80211_EXT_FEATURE_MGMT_TX_RANDOM_TA_CONNECTED: u16 = 11;
pub const NL80211_EXT_FEATURE_SCHED_SCAN_RELATIVE_RSSI: u16 = 12;
pub const NL80211_EXT_FEATURE_CQM_RSSI_LIST: u16 = 13;
pub const NL80211_EXT_FEATURE_FILS_SK_OFFLOAD: u16 = 14;
pub const NL80211_EXT_FEATURE_4WAY_HANDSHAKE_STA_PSK: u16 = 15;
pub const NL80211_EXT_FEATURE_4WAY_HANDSHAKE_STA_1X: u16 = 16;
pub const NL80211_EXT_FEATURE_FILS_MAX_CHANNEL_TIME: u16 = 17;
pub const NL80211_EXT_FEATURE_ACCEPT_BCAST_PROBE_RESP: u16 = 18;
pub const NL80211_EXT_FEATURE_OCE_PROBE_REQ_HIGH_TX_RATE: u16 = 19;
pub const NL80211_EXT_FEATURE_OCE_PROBE_REQ_DEFERRAL_SUPPRESSION: u16 = 20;
pub const NL80211_EXT_FEATURE_MFP_OPTIONAL: u16 = 21;
pub const NL80211_EXT_FEATURE_LOW_SPAN_SCAN: u16 = 22;
pub const NL80211_EXT_FEATURE_LOW_POWER_SCAN: u16 = 23;
pub const NL80211_EXT_FEATURE_HIGH_ACCURACY_SCAN: u16 = 24;
pub const NL80211_EXT_FEATURE_DFS_OFFLOAD: u16 = 25;
pub const NL80211_EXT_FEATURE_CONTROL_PORT_OVER_NL80211: u16 = 26;
pub const NL80211_EXT_FEATURE_ACK_SIGNAL_SUPPORT: u16 = 27;
pub const NL80211_EXT_FEATURE_TXQS: u16 = 28;
pub const NL80211_EXT_FEATURE_SCAN_RANDOM_SN: u16 = 29;
pub const NL80211_EXT_FEATURE_SCAN_MIN_PREQ_CONTENT: u16 = 30;
pub const NL80211_EXT_FEATURE_CAN_REPLACE_PTK0: u16 = 31;
pub const NL80211_EXT_FEATURE_ENABLE_FTM_RESPONDER: u16 = 32;
pub const NL80211_EXT_FEATURE_AIRTIME_FAIRNESS: u16 = 33;
pub const NL80211_EXT_FEATURE_AP_PMKSA_CACHING: u16 = 34;
pub const NL80211_EXT_FEATURE_SCHED_SCAN_BAND_SPECIFIC_RSSI_THOLD: u16 = 35;
pub const NL80211_EXT_FEATURE_EXT_KEY_ID: u16 = 36;
pub const NL80211_EXT_FEATURE_STA_TX_PWR: u16 = 37;
pub const NL80211_EXT_FEATURE_SAE_OFFLOAD: u16 = 38;
pub const NL80211_EXT_FEATURE_VLAN_OFFLOAD: u16 = 39;
pub const NL80211_EXT_FEATURE_AQL: u16 = 40;
pub const NL80211_EXT_FEATURE_BEACON_PROTECTION: u16 = 41;
pub const NL80211_EXT_FEATURE_CONTROL_PORT_NO_PREAUTH: u16 = 42;
pub const NL80211_EXT_FEATURE_PROTECTED_TWT: u16 = 43;
pub const NL80211_EXT_FEATURE_DEL_IBSS_STA: u16 = 44;
pub const NL80211_EXT_FEATURE_MULTICAST_REGISTRATIONS: u16 = 45;
pub const NL80211_EXT_FEATURE_BEACON_PROTECTION_CLIENT: u16 = 46;
pub const NL80211_EXT_FEATURE_SCAN_FREQ_KHZ: u16 = 47;
pub const NL80211_EXT_FEATURE_CONTROL_PORT_OVER_NL80211_TX_STATUS: u16 = 48;
pub const NL80211_EXT_FEATURE_OPERATING_CHANNEL_VALIDATION: u16 = 49;
pub const NL80211_EXT_FEATURE_4WAY_HANDSHAKE_AP_PSK: u16 = 50;
pub const NL80211_EXT_FEATURE_SAE_OFFLOAD_AP: u16 = 51;
pub const NL80211_EXT_FEATURE_FILS_DISCOVERY: u16 = 52;
pub const NL80211_EXT_FEATURE_UNSOL_BCAST_PROBE_RESP: u16 = 53;
pub const NL80211_EXT_FEATURE_BEACON_RATE_HE: u16 = 54;
pub const NL80211_EXT_FEATURE_SECURE_LTF: u16 = 55;
pub const NL80211_EXT_FEATURE_SECURE_RTT: u16 = 56;
pub const NL80211_EXT_FEATURE_PROT_RANGE_NEGO_AND_MEASURE: u16 = 57;
pub const NL80211_EXT_FEATURE_BSS_COLOR: u16 = 58;
pub const NL80211_EXT_FEATURE_FILS_CRYPTO_OFFLOAD: u16 = 59;
pub const NL80211_EXT_FEATURE_RADAR_BACKGROUND: u16 = 60;
pub const NL80211_EXT_FEATURE_POWERED_ADDR_CHANGE: u16 = 61;
pub const NL80211_EXT_FEATURE_PUNCT: u16 = 62;
pub const NL80211_EXT_FEATURE_SECURE_NAN: u16 = 63;
pub const NL80211_EXT_FEATURE_AUTH_AND_DEAUTH_RANDOM_TA: u16 = 64;
pub const NL80211_EXT_FEATURE_OWE_OFFLOAD: u16 = 65;
pub const NL80211_EXT_FEATURE_OWE_OFFLOAD_AP: u16 = 66;
pub const NL80211_EXT_FEATURE_DFS_CONCURRENT: u16 = 67;
pub const NL80211_EXT_FEATURE_SPP_AMSDU_SUPPORT: u16 = 68;

pub const NL80211_FEATURE_SK_TX_STATUS: u32 = 0x00000001;
pub const NL80211_FEATURE_HT_IBSS: u32 = 0x00000002;
pub const NL80211_FEATURE_INACTIVITY_TIMER: u32 = 0x00000004;
pub const NL80211_FEATURE_CELL_BASE_REG_HINTS: u32 = 0x00000008;
pub const NL80211_FEATURE_P2P_DEVICE_NEEDS_CHANNEL: u32 = 0x00000010;
pub const NL80211_FEATURE_SAE: u32 = 0x00000020;
pub const NL80211_FEATURE_LOW_PRIORITY_SCAN: u32 = 0x00000040;
pub const NL80211_FEATURE_SCAN_FLUSH: u32 = 0x00000080;
pub const NL80211_FEATURE_AP_SCAN: u32 = 0x00000100;
pub const NL80211_FEATURE_VIF_TXPOWER: u32 = 0x00000200;
pub const NL80211_FEATURE_NEED_OBSS_SCAN: u32 = 0x00000400;
pub const NL80211_FEATURE_P2P_GO_CTWIN: u32 = 0x00000800;
pub const NL80211_FEATURE_P2P_GO_OPPPS: u32 = 0x00001000;
pub const NL80211_FEATURE_ADVERTISE_CHAN_LIMITS: u32 = 0x00004000;
pub const NL80211_FEATURE_FULL_AP_CLIENT_STATE: u32 = 0x00008000;
pub const NL80211_FEATURE_USERSPACE_MPM: u32 = 0x00010000;
pub const NL80211_FEATURE_ACTIVE_MONITOR: u32 = 0x00020000;
pub const NL80211_FEATURE_AP_MODE_CHAN_WIDTH_CHANGE: u32 = 0x00040000;
pub const NL80211_FEATURE_DS_PARAM_SET_IE_IN_PROBES: u32 = 0x00080000;
pub const NL80211_FEATURE_WFA_TPC_IE_IN_PROBES: u32 = 0x00100000;
pub const NL80211_FEATURE_QUIET: u32 = 0x00200000;
pub const NL80211_FEATURE_TX_POWER_INSERTION: u32 = 0x00400000;
pub const NL80211_FEATURE_ACKTO_ESTIMATION: u32 = 0x00800000;
pub const NL80211_FEATURE_STATIC_SMPS: u32 = 0x01000000;
pub const NL80211_FEATURE_DYNAMIC_SMPS: u32 = 0x02000000;
pub const NL80211_FEATURE_SUPPORTS_WMM_ADMISSION: u32 = 0x04000000;
pub const NL80211_FEATURE_MAC_ON_CREATE: u32 = 0x08000000;
pub const NL80211_FEATURE_TDLS_CHANNEL_SWITCH: u32 = 0x10000000;
pub const NL80211_FEATURE_SCAN_RANDOM_MAC_ADDR: u32 = 0x20000000;
pub const NL80211_FEATURE_SCHED_SCAN_RANDOM_MAC_ADDR: u32 = 0x40000000;
pub const NL80211_FEATURE_ND_RANDOM_MAC_ADDR: u32 = 0x80000000;

/// The feature flags of a device: a set of bits.
#[derive(Debug, PartialEq, Eq, Clone, Copy)]
pub struct Nl80211Features {
    bits: u32,
}

impl View for Nl80211Features {
    type V = u32;

    closed spec fn view(&self) -> u32 {
        self.bits
    }
}

impl Nl80211Features {
    /// The set that has exactly the given bits, named or not.
    pub fn from_bits_retain(bits: u32) -> (r: Self)
        ensures
            r@ == bits,
    {
        Nl80211Features { bits }
    }

    /// The bits of the set.
    pub fn bits(&self) -> (r: u32)
        ensures
            r == self@,
    {
        self.bits
    }

    /// Whether all bits of `other` are in the set.
    pub fn contains(&self, other: Nl80211Features) -> (b: bool)
        ensures
            b == (self@ & other@ == other@),
    {
        self.bits & other.bits == other.bits
    }
}

/// The bands of a request or of a device: a set of bits, one for each band.
#[derive(Debug, PartialEq, Eq, Clone, Copy)]
pub struct Nl80211BandTypes {
    bits: u32,
}

impl View for Nl80211BandTypes {
    type V = u32;

    closed spec fn view(&self) -> u32 {
        self.bits
    }
}

impl Nl80211BandTypes {
    /// Number of bytes of the set.
    pub const LENGTH: usize = 4;

    /// The set that has exactly the given bits.
    pub fn from_bits_retain(bits: u32) -> (r: Self)
        ensures
            r@ == bits,
    {
        Nl80211BandTypes { bits }
    }

    /// The bits of the set.
    pub fn bits(&self) -> (r: u32)
        ensures
            r == self@,
    {
        self.bits
    }

    /// Whether the band of the given number is in the set. The set has no
    /// band of a number above 31.
    pub fn has_band(&self, band: u8) -> (b: bool)
        ensures
            b == (band < 32 && (self@ >> (band as u32)) & 1 == 1),
    {
        band < 32 && (self.bits >> (band as u32)) & 1 == 1
    }
}

/// The extended features of a device: one bit for each feature.
///
/// The block is kept as the bytes that carry it: it is written as it was
/// read.
#[derive(Debug, PartialEq, Eq, Clone)]
pub struct Nl80211ExtFeatures {
    bytes: Vec<u8>,
}

impl View for Nl80211ExtFeatures {
    type V = Seq<u8>;

    closed spec fn view(&self) -> Seq<u8> {
        self.bytes@
    }
}

impl Nl80211ExtFeatures {
    /// Number of bytes of the extended feature bits.
    pub const LENGTH: usize = 9;

    /// Whether the block has the length that its kind has.
    pub open spec fn wf(&self) -> bool {
        self@.len() == Nl80211ExtFeatures::LENGTH
    }

    /// What reading a buffer gives: its bytes, if they are as many as the
    /// block has.
    pub open spec fn spec_parse(payload: Seq<u8>) -> Result<Seq<u8>, Nl80211ErrorKind> {
        if payload.len() != Nl80211ExtFeatures::LENGTH {
            Err(Nl80211ErrorKind::WrongLength)
        } else {
            Ok(payload)
        }
    }

    /// Reads a block: a buffer of exactly `LENGTH` bytes.
    pub fn parse(payload: &[u8]) -> (r: Result<Self, Nl80211ErrorKind>)
        ensures
            match r {
                Ok(c) =>
                    Nl80211ExtFeatures::spec_parse(payload@) == Ok::<Seq<u8>, Nl80211ErrorKind>(c@)
                    && c.wf(),
                Err(e) =>
                    Nl80211ExtFeatures::spec_parse(payload@) == Err::<Seq<u8>, Nl80211ErrorKind>(e),
            },
    {
        if payload.len() != Self::LENGTH {
            Err(Nl80211ErrorKind::WrongLength)
        } else {
            Ok(Nl80211ExtFeatures { bytes: slice_to_vec(payload) })
        }
    }

    /// The bytes of the block.
    pub fn as_bytes(&self) -> (r: &[u8])
        ensures
            r@ == self@,
    {
        self.bytes.as_slice()
    }

    /// Number of bytes that `emit` appends.
    pub fn buffer_len(&self) -> (n: usize)
        ensures
            n == self@.len(),
    {
        self.bytes.len()
    }

    /// Appends the bytes of the block to `out`.
    pub fn emit(&self, out: &mut Vec<u8>)
        ensures
            final(out)@ == old(out)@ + self@,
    {
        push_bytes(out, self.bytes.as_slice());
    }

    /// Whether bit `i` is set, counted from the lowest bit of the first
    /// byte. A bit behind the end of the block is not set.
    pub fn bit(&self, i: usize) -> (b: bool)
        ensures
            b == (i / 8 < self@.len() && (self@[(i / 8) as int] >> ((i % 8) as u8)) & 1 == 1),
    {
        let at: usize = i / 8;
        if at < self.bytes.len() {
            let shift: u8 = (i % 8) as u8;
            (self.bytes[at] >> shift) & 1 == 1
        } else {
            false
        }
    }
}

/// An extended feature of a device: the number of its bit.
#[derive(Debug, PartialEq, Eq, Clone, Copy)]
pub enum Nl80211ExtFeature {
    VhtIbss,
    Rrm,
    MuMimoAirSniffer,
    ScanStartTime,
    BssParentTsf,
    SetScanDwell,
    BeaconRateLegacy,
    BeaconRateHt,
    BeaconRateVht,
    FilsSta,
    MgmtTxRandomTa,
    MgmtTxRandomTaConnected,
    SchedScanRelativeRssi,
    CqmRssiList,
    FilsSkOffload,
    FourWayHandshakeStaPsk,
    FourWayHandshakeSta1x,
    FilsMaxChannelTime,
    AcceptBcastProbeResp,
    OceProbeReqHighTxRate,
    OceProbeReqDeferralSuppression,
    MfpOptional,
    LowSpanScan,
    LowPowerScan,
    HighAccuracyScan,
    DfsOffload,
    ControlPortOverNl80211,
    AckSignalSupport,
    Txqs,
    ScanRandomSn,
    ScanMinPreqContent,
    CanReplacePtk0,
    EnableFtmResponder,
    AirtimeFairness,
    ApPmksaCaching,
    SchedScanBandSpecificRssiThold,
    ExtKeyId,
    StaTxPwr,
    SaeOffload,
    VlanOffload,
    Aql,
    BeaconProtection,
    ControlPortNoPreauth,
    ProtectedTwt,
    DelIbssSta,
    MulticastRegistrations,
    BeaconProtectionClient,
    ScanFreqKhz,
    ControlPortOverNl80211TxStatus,
    OperatingChannelValidation,
    FourWayHandshakeApPsk,
    SaeOffloadAp,
    FilsDiscovery,
    UnsolBcastProbeResp,
    BeaconRateHe,
    SecureLtf,
    SecureRtt,
    ProtRangeNegoAndMeasure,
    BssColor,
    FilsCryptoOffload,
    RadarBackground,
    PoweredAddrChange,
    Punct,
    SecureNan,
    AuthAndDeauthRandomTa,
    OweOffload,
    OweOffloadAp,
    DfsConcurrent,
    SppAmsduSupport,
    /// A number without a name
    Other(u16),
}

impl Nl80211ExtFeature {
    /// The value that a number stands for.
    pub open spec fn spec_from_u16(d: u16) -> Nl80211ExtFeature {
        match d {
            NL80211_EXT_FEATURE_VHT_IBSS => Nl80211ExtFeature::VhtIbss,
            NL80211_EXT_FEATURE_RRM => Nl80211ExtFeature::Rrm,
            NL80211_EXT_FEATURE_MU_MIMO_AIR_SNIFFER => Nl80211ExtFeature::MuMimoAirSniffer,
            NL80211_EXT_FEATURE_SCAN_START_TIME => Nl80211ExtFeature::ScanStartTime,
            NL80211_EXT_FEATURE_BSS_PARENT_TSF => Nl80211ExtFeature::BssParentTsf,
            NL80211_EXT_FEATURE_SET_SCAN_DWELL => Nl80211ExtFeature::SetScanDwell,
            NL80211_EXT_FEATURE_BEACON_RATE_LEGACY => Nl80211ExtFeature::BeaconRateLegacy,
            NL80211_EXT_FEATURE_BEACON_RATE_HT => Nl80211ExtFeature::BeaconRateHt,
            NL80211_EXT_FEATURE_BEACON_RATE_VHT => Nl80211ExtFeature::BeaconRateVht,
            NL80211_EXT_FEATURE_FILS_STA => Nl80211ExtFeature::FilsSta,
            NL80211_EXT_FEATURE_MGMT_TX_RANDOM_TA => Nl80211ExtFeature::MgmtTxRandomTa,
            NL80211_EXT_FEATURE_MGMT_TX_RANDOM_TA_CONNECTED =>
                Nl80211ExtFeature::MgmtTxRandomTaConnected,
            NL80211_EXT_FEATURE_SCHED_SCAN_RELATIVE_RSSI =>
                Nl80211ExtFeature::SchedScanRelativeRssi,
            NL80211_EXT_FEATURE_CQM_RSSI_LIST => Nl80211ExtFeature::CqmRssiList,
            NL80211_EXT_FEATURE_FILS_SK_OFFLOAD => Nl80211ExtFeature::FilsSkOffload,
            NL80211_EXT_FEATURE_4WAY_HANDSHAKE_STA_PSK => Nl80211ExtFeature::FourWayHandshakeStaPsk,
            NL80211_EXT_FEATURE_4WAY_HANDSHAKE_STA_1X => Nl80211ExtFeature::FourWayHandshakeSta1x,
            NL80211_EXT_FEATURE_FILS_MAX_CHANNEL_TIME => Nl80211ExtFeature::FilsMaxChannelTime,
            NL80211_EXT_FEATURE_ACCEPT_BCAST_PROBE_RESP => Nl80211ExtFeature::AcceptBcastProbeResp,
            NL80211_EXT_FEATURE_OCE_PROBE_REQ_HIGH_TX_RATE =>
                Nl80211ExtFeature::OceProbeReqHighTxRate,
            NL80211_EXT_FEATURE_OCE_PROBE_REQ_DEFERRAL_SUPPRESSION =>
                Nl80211ExtFeature::OceProbeReqDeferralSuppression,
            NL80211_EXT_FEATURE_MFP_OPTIONAL => Nl80211ExtFeature::MfpOptional,
            NL80211_EXT_FEATURE_LOW_SPAN_SCAN => Nl80211ExtFeature::LowSpanScan,
            NL80211_EXT_FEATURE_LOW_POWER_SCAN => Nl80211ExtFeature::LowPowerScan,
            NL80211_EXT_FEATURE_HIGH_ACCURACY_SCAN => Nl80211ExtFeature::HighAccuracyScan,
            NL80211_EXT_FEATURE_DFS_OFFLOAD => Nl80211ExtFeature::DfsOffload,
            NL80211_EXT_FEATURE_CONTROL_PORT_OVER_NL80211 =>
                Nl80211ExtFeature::ControlPortOverNl80211,
            NL80211_EXT_FEATURE_ACK_SIGNAL_SUPPORT => Nl80211ExtFeature::AckSignalSupport,
            NL80211_EXT_FEATURE_TXQS => Nl80211ExtFeature::Txqs,
            NL80211_EXT_FEATURE_SCAN_RANDOM_SN => Nl80211ExtFeature::ScanRandomSn,
            NL80211_EXT_FEATURE_SCAN_MIN_PREQ_CONTENT => Nl80211ExtFeature::ScanMinPreqContent,
            NL80211_EXT_FEATURE_CAN_REPLACE_PTK0 => Nl80211ExtFeature::CanReplacePtk0,
            NL80211_EXT_FEATURE_ENABLE_FTM_RESPONDER => Nl80211ExtFeature::EnableFtmResponder,
            NL80211_EXT_FEATURE_AIRTIME_FAIRNESS => Nl80211ExtFeature::AirtimeFairness,
            NL80211_EXT_FEATURE_AP_PMKSA_CACHING => Nl80211ExtFeature::ApPmksaCaching,
            NL80211_EXT_FEATURE_SCHED_SCAN_BAND_SPECIFIC_RSSI_THOLD =>
                Nl80211ExtFeature::SchedScanBandSpecificRssiThold,
            NL80211_EXT_FEATURE_EXT_KEY_ID => Nl80211ExtFeature::ExtKeyId,
            NL80211_EXT_FEATURE_STA_TX_PWR => Nl80211ExtFeature::StaTxPwr,
            NL80211_EXT_FEATURE_SAE_OFFLOAD => Nl80211ExtFeature::SaeOffload,
            NL80211_EXT_FEATURE_VLAN_OFFLOAD => Nl80211ExtFeature::VlanOffload,
            NL80211_EXT_FEATURE_AQL => Nl80211ExtFeature::Aql,
            NL80211_EXT_FEATURE_BEACON_PROTECTION => Nl80211ExtFeature::BeaconProtection,
            NL80211_EXT_FEATURE_CONTROL_PORT_NO_PREAUTH => Nl80211ExtFeature::ControlPortNoPreauth,
            NL80211_EXT_FEATURE_PROTECTED_TWT => Nl80211ExtFeature::ProtectedTwt,
            NL80211_EXT_FEATURE_DEL_IBSS_STA => Nl80211ExtFeature::DelIbssSta,
            NL80211_EXT_FEATURE_MULTICAST_REGISTRATIONS =>
                Nl80211ExtFeature::MulticastRegistrations,
            NL80211_EXT_FEATURE_BEACON_PROTECTION_CLIENT =>
                Nl80211ExtFeature::BeaconProtectionClient,
            NL80211_EXT_FEATURE_SCAN_FREQ_KHZ => Nl80211ExtFeature::ScanFreqKhz,
            NL80211_EXT_FEATURE_CONTROL_PORT_OVER_NL80211_TX_STATUS =>
                Nl80211ExtFeature::ControlPortOverNl80211TxStatus,
            NL80211_EXT_FEATURE_OPERATING_CHANNEL_VALIDATION =>
                Nl80211ExtFeature::OperatingChannelValidation,
            NL80211_EXT_FEATURE_4WAY_HANDSHAKE_AP_PSK => Nl80211ExtFeature::FourWayHandshakeApPsk,
            NL80211_EXT_FEATURE_SAE_OFFLOAD_AP => Nl80211ExtFeature::SaeOffloadAp,
            NL80211_EXT_FEATURE_FILS_DISCOVERY => Nl80211ExtFeature::FilsDiscovery,
            NL80211_EXT_FEATURE_UNSOL_BCAST_PROBE_RESP => Nl80211ExtFeature::UnsolBcastProbeResp,
            NL80211_EXT_FEATURE_BEACON_RATE_HE => Nl80211ExtFeature::BeaconRateHe,
            NL80211_EXT_FEATURE_SECURE_LTF => Nl80211ExtFeature::SecureLtf,
            NL80211_EXT_FEATURE_SECURE_RTT => Nl80211ExtFeature::SecureRtt,
            NL80211_EXT_FEATURE_PROT_RANGE_NEGO_AND_MEASURE =>
                Nl80211ExtFeature::ProtRangeNegoAndMeasure,
            NL80211_EXT_FEATURE_BSS_COLOR => Nl80211ExtFeature::BssColor,
            NL80211_EXT_FEATURE_FILS_CRYPTO_OFFLOAD => Nl80211ExtFeature::FilsCryptoOffload,
            NL80211_EXT_FEATURE_RADAR_BACKGROUND => Nl80211ExtFeature::RadarBackground,
            NL80211_EXT_FEATURE_POWERED_ADDR_CHANGE => Nl80211ExtFeature::PoweredAddrChange,
            NL80211_EXT_FEATURE_PUNCT => Nl80211ExtFeature::Punct,
            NL80211_EXT_FEATURE_SECURE_NAN => Nl80211ExtFeature::SecureNan,
            NL80211_EXT_FEATURE_AUTH_AND_DEAUTH_RANDOM_TA =>
                Nl80211ExtFeature::AuthAndDeauthRandomTa,
            NL80211_EXT_FEATURE_OWE_OFFLOAD => Nl80211ExtFeature::OweOffload,
            NL80211_EXT_FEATURE_OWE_OFFLOAD_AP => Nl80211ExtFeature::OweOffloadAp,
            NL80211_EXT_FEATURE_DFS_CONCURRENT => Nl80211ExtFeature::DfsConcurrent,
            NL80211_EXT_FEATURE_SPP_AMSDU_SUPPORT => Nl80211ExtFeature::SppAmsduSupport,
            _ => Nl80211ExtFeature::Other(d),
        }
    }

    /// The number that stands for a value.
    pub open spec fn spec_to_u16(self) -> u16 {
        match self {
            Nl80211ExtFeature::VhtIbss => NL80211_EXT_FEATURE_VHT_IBSS,
            Nl80211ExtFeature::Rrm => NL80211_EXT_FEATURE_RRM,
            Nl80211ExtFeature::MuMimoAirSniffer => NL80211_EXT_FEATURE_MU_MIMO_AIR_SNIFFER,
            Nl80211ExtFeature::ScanStartTime => NL80211_EXT_FEATURE_SCAN_START_TIME,
            Nl80211ExtFeature::BssParentTsf => NL80211_EXT_FEATURE_BSS_PARENT_TSF,
            Nl80211ExtFeature::SetScanDwell => NL80211_EXT_FEATURE_SET_SCAN_DWELL,
            Nl80211ExtFeature::BeaconRateLegacy => NL80211_EXT_FEATURE_BEACON_RATE_LEGACY,
            Nl80211ExtFeature::BeaconRateHt => NL80211_EXT_FEATURE_BEACON_RATE_HT,
            Nl80211ExtFeature::BeaconRateVht => NL80211_EXT_FEATURE_BEACON_RATE_VHT,
            Nl80211ExtFeature::FilsSta => NL80211_EXT_FEATURE_FILS_STA,
            Nl80211ExtFeature::MgmtTxRandomTa => NL80211_EXT_FEATURE_MGMT_TX_RANDOM_TA,
            Nl80211ExtFeature::MgmtTxRandomTaConnected =>
                NL80211_EXT_FEATURE_MGMT_TX_RANDOM_TA_CONNECTED,
            Nl80211ExtFeature::SchedScanRelativeRssi =>
                NL80211_EXT_FEATURE_SCHED_SCAN_RELATIVE_RSSI,
            Nl80211ExtFeature::CqmRssiList => NL80211_EXT_FEATURE_CQM_RSSI_LIST,
            Nl80211ExtFeature::FilsSkOffload => NL80211_EXT_FEATURE_FILS_SK_OFFLOAD,
            Nl80211ExtFeature::FourWayHandshakeStaPsk => NL80211_EXT_FEATURE_4WAY_HANDSHAKE_STA_PSK,
            Nl80211ExtFeature::FourWayHandshakeSta1x => NL80211_EXT_FEATURE_4WAY_HANDSHAKE_STA_1X,
            Nl80211ExtFeature::FilsMaxChannelTime => NL80211_EXT_FEATURE_FILS_MAX_CHANNEL_TIME,
            Nl80211ExtFeature::AcceptBcastProbeResp => NL80211_EXT_FEATURE_ACCEPT_BCAST_PROBE_RESP,
            Nl80211ExtFeature::OceProbeReqHighTxRate =>
                NL80211_EXT_FEATURE_OCE_PROBE_REQ_HIGH_TX_RATE,
            Nl80211ExtFeature::OceProbeReqDeferralSuppression =>
                NL80211_EXT_FEATURE_OCE_PROBE_REQ_DEFERRAL_SUPPRESSION,
            Nl80211ExtFeature::MfpOptional => NL80211_EXT_FEATURE_MFP_OPTIONAL,
            Nl80211ExtFeature::LowSpanScan => NL80211_EXT_FEATURE_LOW_SPAN_SCAN,
            Nl80211ExtFeature::LowPowerScan => NL80211_EXT_FEATURE_LOW_POWER_SCAN,
            Nl80211ExtFeature::HighAccuracyScan => NL80211_EXT_FEATURE_HIGH_ACCURACY_SCAN,
            Nl80211ExtFeature::DfsOffload => NL80211_EXT_FEATURE_DFS_OFFLOAD,
            Nl80211ExtFeature::ControlPortOverNl80211 =>
                NL80211_EXT_FEATURE_CONTROL_PORT_OVER_NL80211,
            Nl80211ExtFeature::AckSignalSupport => NL80211_EXT_FEATURE_ACK_SIGNAL_SUPPORT,
            Nl80211ExtFeature::Txqs => NL80211_EXT_FEATURE_TXQS,
            Nl80211ExtFeature::ScanRandomSn => NL80211_EXT_FEATURE_SCAN_RANDOM_SN,
            Nl80211ExtFeature::ScanMinPreqContent => NL80211_EXT_FEATURE_SCAN_MIN_PREQ_CONTENT,
            Nl80211ExtFeature::CanReplacePtk0 => NL80211_EXT_FEATURE_CAN_REPLACE_PTK0,
            Nl80211ExtFeature::EnableFtmResponder => NL80211_EXT_FEATURE_ENABLE_FTM_RESPONDER,
            Nl80211ExtFeature::AirtimeFairness => NL80211_EXT_FEATURE_AIRTIME_FAIRNESS,
            Nl80211ExtFeature::ApPmksaCaching => NL80211_EXT_FEATURE_AP_PMKSA_CACHING,
            Nl80211ExtFeature::SchedScanBandSpecificRssiThold =>
                NL80211_EXT_FEATURE_SCHED_SCAN_BAND_SPECIFIC_RSSI_THOLD,
            Nl80211ExtFeature::ExtKeyId => NL80211_EXT_FEATURE_EXT_KEY_ID,
            Nl80211ExtFeature::StaTxPwr => NL80211_EXT_FEATURE_STA_TX_PWR,
            Nl80211ExtFeature::SaeOffload => NL80211_EXT_FEATURE_SAE_OFFLOAD,
            Nl80211ExtFeature::VlanOffload => NL80211_EXT_FEATURE_VLAN_OFFLOAD,
            Nl80211ExtFeature::Aql => NL80211_EXT_FEATURE_AQL,
            Nl80211ExtFeature::BeaconProtection => NL80211_EXT_FEATURE_BEACON_PROTECTION,
            Nl80211ExtFeature::ControlPortNoPreauth => NL80211_EXT_FEATURE_CONTROL_PORT_NO_PREAUTH,
            Nl80211ExtFeature::ProtectedTwt => NL80211_EXT_FEATURE_PROTECTED_TWT,
            Nl80211ExtFeature::DelIbssSta => NL80211_EXT_FEATURE_DEL_IBSS_STA,
            Nl80211ExtFeature::MulticastRegistrations =>
                NL80211_EXT_FEATURE_MULTICAST_REGISTRATIONS,
            Nl80211ExtFeature::BeaconProtectionClient =>
                NL80211_EXT_FEATURE_BEACON_PROTECTION_CLIENT,
            Nl80211ExtFeature::ScanFreqKhz => NL80211_EXT_FEATURE_SCAN_FREQ_KHZ,
            Nl80211ExtFeature::ControlPortOverNl80211TxStatus =>
                NL80211_EXT_FEATURE_CONTROL_PORT_OVER_NL80211_TX_STATUS,
            Nl80211ExtFeature::OperatingChannelValidation =>
                NL80211_EXT_FEATURE_OPERATING_CHANNEL_VALIDATION,
            Nl80211ExtFeature::FourWayHandshakeApPsk => NL80211_EXT_FEATURE_4WAY_HANDSHAKE_AP_PSK,
            Nl80211ExtFeature::SaeOffloadAp => NL80211_EXT_FEATURE_SAE_OFFLOAD_AP,
            Nl80211ExtFeature::FilsDiscovery => NL80211_EXT_FEATURE_FILS_DISCOVERY,
            Nl80211ExtFeature::UnsolBcastProbeResp => NL80211_EXT_FEATURE_UNSOL_BCAST_PROBE_RESP,
            Nl80211ExtFeature::BeaconRateHe => NL80211_EXT_FEATURE_BEACON_RATE_HE,
            Nl80211ExtFeature::SecureLtf => NL80211_EXT_FEATURE_SECURE_LTF,
            Nl80211ExtFeature::SecureRtt => NL80211_EXT_FEATURE_SECURE_RTT,
            Nl80211ExtFeature::ProtRangeNegoAndMeasure =>
                NL80211_EXT_FEATURE_PROT_RANGE_NEGO_AND_MEASURE,
            Nl80211ExtFeature::BssColor => NL80211_EXT_FEATURE_BSS_COLOR,
            Nl80211ExtFeature::FilsCryptoOffload => NL80211_EXT_FEATURE_FILS_CRYPTO_OFFLOAD,
            Nl80211ExtFeature::RadarBackground => NL80211_EXT_FEATURE_RADAR_BACKGROUND,
            Nl80211ExtFeature::PoweredAddrChange => NL80211_EXT_FEATURE_POWERED_ADDR_CHANGE,
            Nl80211ExtFeature::Punct => NL80211_EXT_FEATURE_PUNCT,
            Nl80211ExtFeature::SecureNan => NL80211_EXT_FEATURE_SECURE_NAN,
            Nl80211ExtFeature::AuthAndDeauthRandomTa =>
                NL80211_EXT_FEATURE_AUTH_AND_DEAUTH_RANDOM_TA,
            Nl80211ExtFeature::OweOffload => NL80211_EXT_FEATURE_OWE_OFFLOAD,
            Nl80211ExtFeature::OweOffloadAp => NL80211_EXT_FEATURE_OWE_OFFLOAD_AP,
            Nl80211ExtFeature::DfsConcurrent => NL80211_EXT_FEATURE_DFS_CONCURRENT,
            Nl80211ExtFeature::SppAmsduSupport => NL80211_EXT_FEATURE_SPP_AMSDU_SUPPORT,
            Nl80211ExtFeature::Other(d) => d,
        }
    }

    /// Whether the value is the one that its number is read as: a number
    /// that has a name does not stand in `Other`.
    pub open spec fn canonical(self) -> bool {
        Nl80211ExtFeature::spec_from_u16(self.spec_to_u16()) == self
    }

    /// Every number stands for a value in canonical form, and that value
    /// stands for the number.
    pub proof fn lemma_from_to(d: u16)
        ensures
            Nl80211ExtFeature::spec_from_u16(d).spec_to_u16() == d,
            Nl80211ExtFeature::spec_from_u16(d).canonical(),
    {
    }

    /// The value that a number stands for.
    pub fn from_u16(d: u16) -> (r: Self)
        ensures
            r == Nl80211ExtFeature::spec_from_u16(d),
    {
        match d {
            NL80211_EXT_FEATURE_VHT_IBSS => Self::VhtIbss,
            NL80211_EXT_FEATURE_RRM => Self::Rrm,
            NL80211_EXT_FEATURE_MU_MIMO_AIR_SNIFFER => Self::MuMimoAirSniffer,
            NL80211_EXT_FEATURE_SCAN_START_TIME => Self::ScanStartTime,
            NL80211_EXT_FEATURE_BSS_PARENT_TSF => Self::BssParentTsf,
            NL80211_EXT_FEATURE_SET_SCAN_DWELL => Self::SetScanDwell,
            NL80211_EXT_FEATURE_BEACON_RATE_LEGACY => Self::BeaconRateLegacy,
            NL80211_EXT_FEATURE_BEACON_RATE_HT => Self::BeaconRateHt,
            NL80211_EXT_FEATURE_BEACON_RATE_VHT => Self::BeaconRateVht,
            NL80211_EXT_FEATURE_FILS_STA => Self::FilsSta,
            NL80211_EXT_FEATURE_MGMT_TX_RANDOM_TA => Self::MgmtTxRandomTa,
            NL80211_EXT_FEATURE_MGMT_TX_RANDOM_TA_CONNECTED => Self::MgmtTxRandomTaConnected,
            NL80211_EXT_FEATURE_SCHED_SCAN_RELATIVE_RSSI => Self::SchedScanRelativeRssi,
            NL80211_EXT_FEATURE_CQM_RSSI_LIST => Self::CqmRssiList,
            NL80211_EXT_FEATURE_FILS_SK_OFFLOAD => Self::FilsSkOffload,
            NL80211_EXT_FEATURE_4WAY_HANDSHAKE_STA_PSK => Self::FourWayHandshakeStaPsk,
            NL80211_EXT_FEATURE_4WAY_HANDSHAKE_STA_1X => Self::FourWayHandshakeSta1x,
            NL80211_EXT_FEATURE_FILS_MAX_CHANNEL_TIME => Self::FilsMaxChannelTime,
            NL80211_EXT_FEATURE_ACCEPT_BCAST_PROBE_RESP => Self::AcceptBcastProbeResp,
            NL80211_EXT_FEATURE_OCE_PROBE_REQ_HIGH_TX_RATE => Self::OceProbeReqHighTxRate,
            NL80211_EXT_FEATURE_OCE_PROBE_REQ_DEFERRAL_SUPPRESSION =>
                Self::OceProbeReqDeferralSuppression,
            NL80211_EXT_FEATURE_MFP_OPTIONAL => Self::MfpOptional,
            NL80211_EXT_FEATURE_LOW_SPAN_SCAN => Self::LowSpanScan,
            NL80211_EXT_FEATURE_LOW_POWER_SCAN => Self::LowPowerScan,
            NL80211_EXT_FEATURE_HIGH_ACCURACY_SCAN => Self::HighAccuracyScan,
            NL80211_EXT_FEATURE_DFS_OFFLOAD => Self::DfsOffload,
            NL80211_EXT_FEATURE_CONTROL_PORT_OVER_NL80211 => Self::ControlPortOverNl80211,
            NL80211_EXT_FEATURE_ACK_SIGNAL_SUPPORT => Self::AckSignalSupport,
            NL80211_EXT_FEATURE_TXQS => Self::Txqs,
            NL80211_EXT_FEATURE_SCAN_RANDOM_SN => Self::ScanRandomSn,
            NL80211_EXT_FEATURE_SCAN_MIN_PREQ_CONTENT => Self::ScanMinPreqContent,
            NL80211_EXT_FEATURE_CAN_REPLACE_PTK0 => Self::CanReplacePtk0,
            NL80211_EXT_FEATURE_ENABLE_FTM_RESPONDER => Self::EnableFtmResponder,
            NL80211_EXT_FEATURE_AIRTIME_FAIRNESS => Self::AirtimeFairness,
            NL80211_EXT_FEATURE_AP_PMKSA_CACHING => Self::ApPmksaCaching,
            NL80211_EXT_FEATURE_SCHED_SCAN_BAND_SPECIFIC_RSSI_THOLD =>
                Self::SchedScanBandSpecificRssiThold,
            NL80211_EXT_FEATURE_EXT_KEY_ID => Self::ExtKeyId,
            NL80211_EXT_FEATURE_STA_TX_PWR => Self::StaTxPwr,
            NL80211_EXT_FEATURE_SAE_OFFLOAD => Self::SaeOffload,
            NL80211_EXT_FEATURE_VLAN_OFFLOAD => Self::VlanOffload,
            NL80211_EXT_FEATURE_AQL => Self::Aql,
            NL80211_EXT_FEATURE_BEACON_PROTECTION => Self::BeaconProtection,
            NL80211_EXT_FEATURE_CONTROL_PORT_NO_PREAUTH => Self::ControlPortNoPreauth,
            NL80211_EXT_FEATURE_PROTECTED_TWT => Self::ProtectedTwt,
            NL80211_EXT_FEATURE_DEL_IBSS_STA => Self::DelIbssSta,
            NL80211_EXT_FEATURE_MULTICAST_REGISTRATIONS => Self::MulticastRegistrations,
            NL80211_EXT_FEATURE_BEACON_PROTECTION_CLIENT => Self::BeaconProtectionClient,
            NL80211_EXT_FEATURE_SCAN_FREQ_KHZ => Self::ScanFreqKhz,
            NL80211_EXT_FEATURE_CONTROL_PORT_OVER_NL80211_TX_STATUS =>
                Self::ControlPortOverNl80211TxStatus,
            NL80211_EXT_FEATURE_OPERATING_CHANNEL_VALIDATION => Self::OperatingChannelValidation,
            NL80211_EXT_FEATURE_4WAY_HANDSHAKE_AP_PSK => Self::FourWayHandshakeApPsk,
            NL80211_EXT_FEATURE_SAE_OFFLOAD_AP => Self::SaeOffloadAp,
            NL80211_EXT_FEATURE_FILS_DISCOVERY => Self::FilsDiscovery,
            NL80211_EXT_FEATURE_UNSOL_BCAST_PROBE_RESP => Self::UnsolBcastProbeResp,
            NL80211_EXT_FEATURE_BEACON_RATE_HE => Self::BeaconRateHe,
            NL80211_EXT_FEATURE_SECURE_LTF => Self::SecureLtf,
            NL80211_EXT_FEATURE_SECURE_RTT => Self::SecureRtt,
            NL80211_EXT_FEATURE_PROT_RANGE_NEGO_AND_MEASURE => Self::ProtRangeNegoAndMeasure,
            NL80211_EXT_FEATURE_BSS_COLOR => Self::BssColor,
            NL80211_EXT_FEATURE_FILS_CRYPTO_OFFLOAD => Self::FilsCryptoOffload,
            NL80211_EXT_FEATURE_RADAR_BACKGROUND => Self::RadarBackground,
            NL80211_EXT_FEATURE_POWERED_ADDR_CHANGE => Self::PoweredAddrChange,
            NL80211_EXT_FEATURE_PUNCT => Self::Punct,
            NL80211_EXT_FEATURE_SECURE_NAN => Self::SecureNan,
            NL80211_EXT_FEATURE_AUTH_AND_DEAUTH_RANDOM_TA => Self::AuthAndDeauthRandomTa,
            NL80211_EXT_FEATURE_OWE_OFFLOAD => Self::OweOffload,
            NL80211_EXT_FEATURE_OWE_OFFLOAD_AP => Self::OweOffloadAp,
            NL80211_EXT_FEATURE_DFS_CONCURRENT => Self::DfsConcurrent,
            NL80211_EXT_FEATURE_SPP_AMSDU_SUPPORT => Self::SppAmsduSupport,
            _ => Self::Other(d),
        }
    }

    /// The number that stands for the value.
    pub fn to_u16(self) -> (r: u16)
        ensures
            r == self.spec_to_u16(),
    {
        match self {
            Nl80211ExtFeature::VhtIbss => NL80211_EXT_FEATURE_VHT_IBSS,
            Nl80211ExtFeature::Rrm => NL80211_EXT_FEATURE_RRM,
            Nl80211ExtFeature::MuMimoAirSniffer => NL80211_EXT_FEATURE_MU_MIMO_AIR_SNIFFER,
            Nl80211ExtFeature::ScanStartTime => NL80211_EXT_FEATURE_SCAN_START_TIME,
            Nl80211ExtFeature::BssParentTsf => NL80211_EXT_FEATURE_BSS_PARENT_TSF,
            Nl80211ExtFeature::SetScanDwell => NL80211_EXT_FEATURE_SET_SCAN_DWELL,
            Nl80211ExtFeature::BeaconRateLegacy => NL80211_EXT_FEATURE_BEACON_RATE_LEGACY,
            Nl80211ExtFeature::BeaconRateHt => NL80211_EXT_FEATURE_BEACON_RATE_HT,
            Nl80211ExtFeature::BeaconRateVht => NL80211_EXT_FEATURE_BEACON_RATE_VHT,
            Nl80211ExtFeature::FilsSta => NL80211_EXT_FEATURE_FILS_STA,
            Nl80211ExtFeature::MgmtTxRandomTa => NL80211_EXT_FEATURE_MGMT_TX_RANDOM_TA,
            Nl80211ExtFeature::MgmtTxRandomTaConnected =>
                NL80211_EXT_FEATURE_MGMT_TX_RANDOM_TA_CONNECTED,
            Nl80211ExtFeature::SchedScanRelativeRssi =>
                NL80211_EXT_FEATURE_SCHED_SCAN_RELATIVE_RSSI,
            Nl80211ExtFeature::CqmRssiList => NL80211_EXT_FEATURE_CQM_RSSI_LIST,
            Nl80211ExtFeature::FilsSkOffload => NL80211_EXT_FEATURE_FILS_SK_OFFLOAD,
            Nl80211ExtFeature::FourWayHandshakeStaPsk => NL80211_EXT_FEATURE_4WAY_HANDSHAKE_STA_PSK,
            Nl80211ExtFeature::FourWayHandshakeSta1x => NL80211_EXT_FEATURE_4WAY_HANDSHAKE_STA_1X,
            Nl80211ExtFeature::FilsMaxChannelTime => NL80211_EXT_FEATURE_FILS_MAX_CHANNEL_TIME,
            Nl80211ExtFeature::AcceptBcastProbeResp => NL80211_EXT_FEATURE_ACCEPT_BCAST_PROBE_RESP,
            Nl80211ExtFeature::OceProbeReqHighTxRate =>
                NL80211_EXT_FEATURE_OCE_PROBE_REQ_HIGH_TX_RATE,
            Nl80211ExtFeature::OceProbeReqDeferralSuppression =>
                NL80211_EXT_FEATURE_OCE_PROBE_REQ_DEFERRAL_SUPPRESSION,
            Nl80211ExtFeature::MfpOptional => NL80211_EXT_FEATURE_MFP_OPTIONAL,
            Nl80211ExtFeature::LowSpanScan => NL80211_EXT_FEATURE_LOW_SPAN_SCAN,
            Nl80211ExtFeature::LowPowerScan => NL80211_EXT_FEATURE_LOW_POWER_SCAN,
            Nl80211ExtFeature::HighAccuracyScan => NL80211_EXT_FEATURE_HIGH_ACCURACY_SCAN,
            Nl80211ExtFeature::DfsOffload => NL80211_EXT_FEATURE_DFS_OFFLOAD,
            Nl80211ExtFeature::ControlPortOverNl80211 =>
                NL80211_EXT_FEATURE_CONTROL_PORT_OVER_NL80211,
            Nl80211ExtFeature::AckSignalSupport => NL80211_EXT_FEATURE_ACK_SIGNAL_SUPPORT,
            Nl80211ExtFeature::Txqs => NL80211_EXT_FEATURE_TXQS,
            Nl80211ExtFeature::ScanRandomSn => NL80211_EXT_FEATURE_SCAN_RANDOM_SN,
            Nl80211ExtFeature::ScanMinPreqContent => NL80211_EXT_FEATURE_SCAN_MIN_PREQ_CONTENT,
            Nl80211ExtFeature::CanReplacePtk0 => NL80211_EXT_FEATURE_CAN_REPLACE_PTK0,
            Nl80211ExtFeature::EnableFtmResponder => NL80211_EXT_FEATURE_ENABLE_FTM_RESPONDER,
            Nl80211ExtFeature::AirtimeFairness => NL80211_EXT_FEATURE_AIRTIME_FAIRNESS,
            Nl80211ExtFeature::ApPmksaCaching => NL80211_EXT_FEATURE_AP_PMKSA_CACHING,
            Nl80211ExtFeature::SchedScanBandSpecificRssiThold =>
                NL80211_EXT_FEATURE_SCHED_SCAN_BAND_SPECIFIC_RSSI_THOLD,
            Nl80211ExtFeature::ExtKeyId => NL80211_EXT_FEATURE_EXT_KEY_ID,
            Nl80211ExtFeature::StaTxPwr => NL80211_EXT_FEATURE_STA_TX_PWR,
            Nl80211ExtFeature::SaeOffload => NL80211_EXT_FEATURE_SAE_OFFLOAD,
            Nl80211ExtFeature::VlanOffload => NL80211_EXT_FEATURE_VLAN_OFFLOAD,
            Nl80211ExtFeature::Aql => NL80211_EXT_FEATURE_AQL,
            Nl80211ExtFeature::BeaconProtection => NL80211_EXT_FEATURE_BEACON_PROTECTION,
            Nl80211ExtFeature::ControlPortNoPreauth => NL80211_EXT_FEATURE_CONTROL_PORT_NO_PREAUTH,
            Nl80211ExtFeature::ProtectedTwt => NL80211_EXT_FEATURE_PROTECTED_TWT,
            Nl80211ExtFeature::DelIbssSta => NL80211_EXT_FEATURE_DEL_IBSS_STA,
            Nl80211ExtFeature::MulticastRegistrations =>
                NL80211_EXT_FEATURE_MULTICAST_REGISTRATIONS,
            Nl80211ExtFeature::BeaconProtectionClient =>
                NL80211_EXT_FEATURE_BEACON_PROTECTION_CLIENT,
            Nl80211ExtFeature::ScanFreqKhz => NL80211_EXT_FEATURE_SCAN_FREQ_KHZ,
            Nl80211ExtFeature::ControlPortOverNl80211TxStatus =>
                NL80211_EXT_FEATURE_CONTROL_PORT_OVER_NL80211_TX_STATUS,
            Nl80211ExtFeature::OperatingChannelValidation =>
                NL80211_EXT_FEATURE_OPERATING_CHANNEL_VALIDATION,
            Nl80211ExtFeature::FourWayHandshakeApPsk => NL80211_EXT_FEATURE_4WAY_HANDSHAKE_AP_PSK,
            Nl80211ExtFeature::SaeOffloadAp => NL80211_EXT_FEATURE_SAE_OFFLOAD_AP,
            Nl80211ExtFeature::FilsDiscovery => NL80211_EXT_FEATURE_FILS_DISCOVERY,
            Nl80211ExtFeature::UnsolBcastProbeResp => NL80211_EXT_FEATURE_UNSOL_BCAST_PROBE_RESP,
            Nl80211ExtFeature::BeaconRateHe => NL80211_EXT_FEATURE_BEACON_RATE_HE,
            Nl80211ExtFeature::SecureLtf => NL80211_EXT_FEATURE_SECURE_LTF,
            Nl80211ExtFeature::SecureRtt => NL80211_EXT_FEATURE_SECURE_RTT,
            Nl80211ExtFeature::ProtRangeNegoAndMeasure =>
                NL80211_EXT_FEATURE_PROT_RANGE_NEGO_AND_MEASURE,
            Nl80211ExtFeature::BssColor => NL80211_EXT_FEATURE_BSS_COLOR,
            Nl80211ExtFeature::FilsCryptoOffload => NL80211_EXT_FEATURE_FILS_CRYPTO_OFFLOAD,
            Nl80211ExtFeature::RadarBackground => NL80211_EXT_FEATURE_RADAR_BACKGROUND,
            Nl80211ExtFeature::PoweredAddrChange => NL80211_EXT_FEATURE_POWERED_ADDR_CHANGE,
            Nl80211ExtFeature::Punct => NL80211_EXT_FEATURE_PUNCT,
            Nl80211ExtFeature::SecureNan => NL80211_EXT_FEATURE_SECURE_NAN,
            Nl80211ExtFeature::AuthAndDeauthRandomTa =>
                NL80211_EXT_FEATURE_AUTH_AND_DEAUTH_RANDOM_TA,
            Nl80211ExtFeature::OweOffload => NL80211_EXT_FEATURE_OWE_OFFLOAD,
            Nl80211ExtFeature::OweOffloadAp => NL80211_EXT_FEATURE_OWE_OFFLOAD_AP,
            Nl80211ExtFeature::DfsConcurrent => NL80211_EXT_FEATURE_DFS_CONCURRENT,
            Nl80211ExtFeature::SppAmsduSupport => NL80211_EXT_FEATURE_SPP_AMSDU_SUPPORT,
            Nl80211ExtFeature::Other(d) => d,
        }
    }
}

impl Nl80211ExtFeatures {
    /// Whether the device has the feature: whether the bit of its number is
    /// set.
    pub fn has(&self, feature: Nl80211ExtFeature) -> (b: bool)
        ensures
            b == (feature.spec_to_u16() / 8 < self@.len() && (self@[(feature.spec_to_u16()
                / 8) as int] >> ((feature.spec_to_u16() % 8) as u8)) & 1 == 1),
    {
        self.bit(feature.to_u16() as usize)
    }
}

} // verus!
