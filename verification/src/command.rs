// SPDX-License-Identifier: MIT

//! The commands of messages.

use vstd::prelude::*;

use crate::bytes::{decode_u32, push_u32};
use crate::codec::Nl80211Nla;
use crate::error::Nl80211ErrorKind;
use crate::schema::Namespace;
use crate::wire::Value;

verus! {

pub const NL80211_CMD_GET_WIPHY: u32 = 1;
pub const NL80211_CMD_SET_WIPHY: u32 = 2;
pub const NL80211_CMD_NEW_WIPHY: u32 = 3;
pub const NL80211_CMD_DEL_WIPHY: u32 = 4;
pub const NL80211_CMD_GET_INTERFACE: u32 = 5;
pub const NL80211_CMD_SET_INTERFACE: u32 = 6;
pub const NL80211_CMD_NEW_INTERFACE: u32 = 7;
pub const NL80211_CMD_DEL_INTERFACE: u32 = 8;
pub const NL80211_CMD_GET_KEY: u32 = 9;
pub const NL80211_CMD_SET_KEY: u32 = 10;
pub const NL80211_CMD_NEW_KEY: u32 = 11;
pub const NL80211_CMD_DEL_KEY: u32 = 12;
pub const NL80211_CMD_GET_BEACON: u32 = 13;
pub const NL80211_CMD_SET_BEACON: u32 = 14;
pub const NL80211_CMD_START_AP: u32 = 15;
pub const NL80211_CMD_STOP_AP: u32 = 16;
pub const NL80211_CMD_GET_STATION: u32 = 17;
pub const NL80211_CMD_SET_STATION: u32 = 18;
pub const NL80211_CMD_NEW_STATION: u32 = 19;
pub const NL80211_CMD_DEL_STATION: u32 = 20;
pub const NL80211_CMD_SET_BSS: u32 = 25;
pub const NL80211_CMD_SET_REG: u32 = 26;
pub const NL80211_CMD_REQ_SET_REG: u32 = 27;
pub const NL80211_CMD_GET_REG: u32 = 31;
pub const NL80211_CMD_GET_SCAN: u32 = 32;
pub const NL80211_CMD_TRIGGER_SCAN: u32 = 33;
pub const NL80211_CMD_NEW_SCAN_RESULTS: u32 = 34;
pub const NL80211_CMD_SCAN_ABORTED: u32 = 35;
pub const NL80211_CMD_REG_CHANGE: u32 = 36;
pub const NL80211_CMD_AUTHENTICATE: u32 = 37;
pub const NL80211_CMD_ASSOCIATE: u32 = 38;
pub const NL80211_CMD_DEAUTHENTICATE: u32 = 39;
pub const NL80211_CMD_DISASSOCIATE: u32 = 40;
pub const NL80211_CMD_CONNECT: u32 = 46;
pub const NL80211_CMD_ROAM: u32 = 47;
pub const NL80211_CMD_DISCONNECT: u32 = 48;
pub const NL80211_CMD_REGISTER_FRAME: u32 = 58;
pub const NL80211_CMD_FRAME: u32 = 59;
pub const NL80211_CMD_FRAME_TX_STATUS: u32 = 60;
pub const NL80211_CMD_SET_POWER_SAVE: u32 = 61;
pub const NL80211_CMD_GET_POWER_SAVE: u32 = 62;
pub const NL80211_CMD_SET_CHANNEL: u32 = 65;

/// A command: what a message asks for or tells of.
#[derive(Debug, PartialEq, Eq, Clone, Copy)]
pub enum Nl80211Command {
    GetWiphy,
    SetWiphy,
    NewWiphy,
    DelWiphy,
    GetInterface,
    SetInterface,
    NewInterface,
    DelInterface,
    GetKey,
    SetKey,
    NewKey,
    DelKey,
    GetBeacon,
    SetBeacon,
    StartAp,
    StopAp,
    GetStation,
    SetStation,
    NewStation,
    DelStation,
    SetBss,
    SetReg,
    ReqSetReg,
    GetReg,
    GetScan,
    TriggerScan,
    NewScanResults,
    ScanAborted,
    RegChange,
    Authenticate,
    Associate,
    Deauthenticate,
    Disassociate,
    Connect,
    Roam,
    Disconnect,
    RegisterFrame,
    Frame,
    FrameTxStatus,
    SetPowerSave,
    GetPowerSave,
    SetChannel,
    /// A number without a name
    Other(u32),
}

impl Nl80211Command {
    /// The value that a number stands for.
    pub open spec fn spec_from_u32(d: u32) -> Nl80211Command {
        match d {
            NL80211_CMD_GET_WIPHY => Nl80211Command::GetWiphy,
            NL80211_CMD_SET_WIPHY => Nl80211Command::SetWiphy,
            NL80211_CMD_NEW_WIPHY => Nl80211Command::NewWiphy,
            NL80211_CMD_DEL_WIPHY => Nl80211Command::DelWiphy,
            NL80211_CMD_GET_INTERFACE => Nl80211Command::GetInterface,
            NL80211_CMD_SET_INTERFACE => Nl80211Command::SetInterface,
            NL80211_CMD_NEW_INTERFACE => Nl80211Command::NewInterface,
            NL80211_CMD_DEL_INTERFACE => Nl80211Command::DelInterface,
            NL80211_CMD_GET_KEY => Nl80211Command::GetKey,
            NL80211_CMD_SET_KEY => Nl80211Command::SetKey,
            NL80211_CMD_NEW_KEY => Nl80211Command::NewKey,
            NL80211_CMD_DEL_KEY => Nl80211Command::DelKey,
            NL80211_CMD_GET_BEACON => Nl80211Command::GetBeacon,
            NL80211_CMD_SET_BEACON => Nl80211Command::SetBeacon,
            NL80211_CMD_START_AP => Nl80211Command::StartAp,
            NL80211_CMD_STOP_AP => Nl80211Command::StopAp,
            NL80211_CMD_GET_STATION => Nl80211Command::GetStation,
            NL80211_CMD_SET_STATION => Nl80211Command::SetStation,
            NL80211_CMD_NEW_STATION => Nl80211Command::NewStation,
            NL80211_CMD_DEL_STATION => Nl80211Command::DelStation,
            NL80211_CMD_SET_BSS => Nl80211Command::SetBss,
            NL80211_CMD_SET_REG => Nl80211Command::SetReg,
            NL80211_CMD_REQ_SET_REG => Nl80211Command::ReqSetReg,
            NL80211_CMD_GET_REG => Nl80211Command::GetReg,
            NL80211_CMD_GET_SCAN => Nl80211Command::GetScan,
            NL80211_CMD_TRIGGER_SCAN => Nl80211Command::TriggerScan,
            NL80211_CMD_NEW_SCAN_RESULTS => Nl80211Command::NewScanResults,
            NL80211_CMD_SCAN_ABORTED => Nl80211Command::ScanAborted,
            NL80211_CMD_REG_CHANGE => Nl80211Command::RegChange,
            NL80211_CMD_AUTHENTICATE => Nl80211Command::Authenticate,
            NL80211_CMD_ASSOCIATE => Nl80211Command::Associate,
            NL80211_CMD_DEAUTHENTICATE => Nl80211Command::Deauthenticate,
            NL80211_CMD_DISASSOCIATE => Nl80211Command::Disassociate,
            NL80211_CMD_CONNECT => Nl80211Command::Connect,
            NL80211_CMD_ROAM => Nl80211Command::Roam,
            NL80211_CMD_DISCONNECT => Nl80211Command::Disconnect,
            NL80211_CMD_REGISTER_FRAME => Nl80211Command::RegisterFrame,
            NL80211_CMD_FRAME => Nl80211Command::Frame,
            NL80211_CMD_FRAME_TX_STATUS => Nl80211Command::FrameTxStatus,
            NL80211_CMD_SET_POWER_SAVE => Nl80211Command::SetPowerSave,
            NL80211_CMD_GET_POWER_SAVE => Nl80211Command::GetPowerSave,
            NL80211_CMD_SET_CHANNEL => Nl80211Command::SetChannel,
            _ => Nl80211Command::Other(d),
        }
    }

    /// The number that stands for a value.
    pub open spec fn spec_to_u32(self) -> u32 {
        match self {
            Nl80211Command::GetWiphy => NL80211_CMD_GET_WIPHY,
            Nl80211Command::SetWiphy => NL80211_CMD_SET_WIPHY,
            Nl80211Command::NewWiphy => NL80211_CMD_NEW_WIPHY,
            Nl80211Command::DelWiphy => NL80211_CMD_DEL_WIPHY,
            Nl80211Command::GetInterface => NL80211_CMD_GET_INTERFACE,
            Nl80211Command::SetInterface => NL80211_CMD_SET_INTERFACE,
            Nl80211Command::NewInterface => NL80211_CMD_NEW_INTERFACE,
            Nl80211Command::DelInterface => NL80211_CMD_DEL_INTERFACE,
            Nl80211Command::GetKey => NL80211_CMD_GET_KEY,
            Nl80211Command::SetKey => NL80211_CMD_SET_KEY,
            Nl80211Command::NewKey => NL80211_CMD_NEW_KEY,
            Nl80211Command::DelKey => NL80211_CMD_DEL_KEY,
            Nl80211Command::GetBeacon => NL80211_CMD_GET_BEACON,
            Nl80211Command::SetBeacon => NL80211_CMD_SET_BEACON,
            Nl80211Command::StartAp => NL80211_CMD_START_AP,
            Nl80211Command::StopAp => NL80211_CMD_STOP_AP,
            Nl80211Command::GetStation => NL80211_CMD_GET_STATION,
            Nl80211Command::SetStation => NL80211_CMD_SET_STATION,
            Nl80211Command::NewStation => NL80211_CMD_NEW_STATION,
            Nl80211Command::DelStation => NL80211_CMD_DEL_STATION,
            Nl80211Command::SetBss => NL80211_CMD_SET_BSS,
            Nl80211Command::SetReg => NL80211_CMD_SET_REG,
            Nl80211Command::ReqSetReg => NL80211_CMD_REQ_SET_REG,
            Nl80211Command::GetReg => NL80211_CMD_GET_REG,
            Nl80211Command::GetScan => NL80211_CMD_GET_SCAN,
            Nl80211Command::TriggerScan => NL80211_CMD_TRIGGER_SCAN,
            Nl80211Command::NewScanResults => NL80211_CMD_NEW_SCAN_RESULTS,
            Nl80211Command::ScanAborted => NL80211_CMD_SCAN_ABORTED,
            Nl80211Command::RegChange => NL80211_CMD_REG_CHANGE,
            Nl80211Command::Authenticate => NL80211_CMD_AUTHENTICATE,
            Nl80211Command::Associate => NL80211_CMD_ASSOCIATE,
            Nl80211Command::Deauthenticate => NL80211_CMD_DEAUTHENTICATE,
            Nl80211Command::Disassociate => NL80211_CMD_DISASSOCIATE,
            Nl80211Command::Connect => NL80211_CMD_CONNECT,
            Nl80211Command::Roam => NL80211_CMD_ROAM,
            Nl80211Command::Disconnect => NL80211_CMD_DISCONNECT,
            Nl80211Command::RegisterFrame => NL80211_CMD_REGISTER_FRAME,
            Nl80211Command::Frame => NL80211_CMD_FRAME,
            Nl80211Command::FrameTxStatus => NL80211_CMD_FRAME_TX_STATUS,
            Nl80211Command::SetPowerSave => NL80211_CMD_SET_POWER_SAVE,
            Nl80211Command::GetPowerSave => NL80211_CMD_GET_POWER_SAVE,
            Nl80211Command::SetChannel => NL80211_CMD_SET_CHANNEL,
            Nl80211Command::Other(d) => d,
        }
    }

    /// Whether the value is the one that its number is read as: a number
    /// that has a name does not stand in `Other`.
    pub open spec fn canonical(self) -> bool {
        Nl80211Command::spec_from_u32(self.spec_to_u32()) == self
    }

    /// Every number stands for a value in canonical form, and that value
    /// stands for the number.
    pub proof fn lemma_from_to(d: u32)
        ensures
            Nl80211Command::spec_from_u32(d).spec_to_u32() == d,
            Nl80211Command::spec_from_u32(d).canonical(),
    {
    }

    /// The value that a number stands for.
    pub fn from_u32(d: u32) -> (r: Self)
        ensures
            r == Nl80211Command::spec_from_u32(d),
    {
        match d {
            NL80211_CMD_GET_WIPHY => Self::GetWiphy,
            NL80211_CMD_SET_WIPHY => Self::SetWiphy,
            NL80211_CMD_NEW_WIPHY => Self::NewWiphy,
            NL80211_CMD_DEL_WIPHY => Self::DelWiphy,
            NL80211_CMD_GET_INTERFACE => Self::GetInterface,
            NL80211_CMD_SET_INTERFACE => Self::SetInterface,
            NL80211_CMD_NEW_INTERFACE => Self::NewInterface,
            NL80211_CMD_DEL_INTERFACE => Self::DelInterface,
            NL80211_CMD_GET_KEY => Self::GetKey,
            NL80211_CMD_SET_KEY => Self::SetKey,
            NL80211_CMD_NEW_KEY => Self::NewKey,
            NL80211_CMD_DEL_KEY => Self::DelKey,
            NL80211_CMD_GET_BEACON => Self::GetBeacon,
            NL80211_CMD_SET_BEACON => Self::SetBeacon,
            NL80211_CMD_START_AP => Self::StartAp,
            NL80211_CMD_STOP_AP => Self::StopAp,
            NL80211_CMD_GET_STATION => Self::GetStation,
            NL80211_CMD_SET_STATION => Self::SetStation,
            NL80211_CMD_NEW_STATION => Self::NewStation,
            NL80211_CMD_DEL_STATION => Self::DelStation,
            NL80211_CMD_SET_BSS => Self::SetBss,
            NL80211_CMD_SET_REG => Self::SetReg,
            NL80211_CMD_REQ_SET_REG => Self::ReqSetReg,
            NL80211_CMD_GET_REG => Self::GetReg,
            NL80211_CMD_GET_SCAN => Self::GetScan,
            NL80211_CMD_TRIGGER_SCAN => Self::TriggerScan,
            NL80211_CMD_NEW_SCAN_RESULTS => Self::NewScanResults,
            NL80211_CMD_SCAN_ABORTED => Self::ScanAborted,
            NL80211_CMD_REG_CHANGE => Self::RegChange,
            NL80211_CMD_AUTHENTICATE => Self::Authenticate,
            NL80211_CMD_ASSOCIATE => Self::Associate,
            NL80211_CMD_DEAUTHENTICATE => Self::Deauthenticate,
            NL80211_CMD_DISASSOCIATE => Self::Disassociate,
            NL80211_CMD_CONNECT => Self::Connect,
            NL80211_CMD_ROAM => Self::Roam,
            NL80211_CMD_DISCONNECT => Self::Disconnect,
            NL80211_CMD_REGISTER_FRAME => Self::RegisterFrame,
            NL80211_CMD_FRAME => Self::Frame,
            NL80211_CMD_FRAME_TX_STATUS => Self::FrameTxStatus,
            NL80211_CMD_SET_POWER_SAVE => Self::SetPowerSave,
            NL80211_CMD_GET_POWER_SAVE => Self::GetPowerSave,
            NL80211_CMD_SET_CHANNEL => Self::SetChannel,
            _ => Self::Other(d),
        }
    }

    /// The number that stands for the value.
    pub fn to_u32(self) -> (r: u32)
        ensures
            r == self.spec_to_u32(),
    {
        match self {
            Nl80211Command::GetWiphy => NL80211_CMD_GET_WIPHY,
            Nl80211Command::SetWiphy => NL80211_CMD_SET_WIPHY,
            Nl80211Command::NewWiphy => NL80211_CMD_NEW_WIPHY,
            Nl80211Command::DelWiphy => NL80211_CMD_DEL_WIPHY,
            Nl80211Command::GetInterface => NL80211_CMD_GET_INTERFACE,
            Nl80211Command::SetInterface => NL80211_CMD_SET_INTERFACE,
            Nl80211Command::NewInterface => NL80211_CMD_NEW_INTERFACE,
            Nl80211Command::DelInterface => NL80211_CMD_DEL_INTERFACE,
            Nl80211Command::GetKey => NL80211_CMD_GET_KEY,
            Nl80211Command::SetKey => NL80211_CMD_SET_KEY,
            Nl80211Command::NewKey => NL80211_CMD_NEW_KEY,
            Nl80211Command::DelKey => NL80211_CMD_DEL_KEY,
            Nl80211Command::GetBeacon => NL80211_CMD_GET_BEACON,
            Nl80211Command::SetBeacon => NL80211_CMD_SET_BEACON,
            Nl80211Command::StartAp => NL80211_CMD_START_AP,
            Nl80211Command::StopAp => NL80211_CMD_STOP_AP,
            Nl80211Command::GetStation => NL80211_CMD_GET_STATION,
            Nl80211Command::SetStation => NL80211_CMD_SET_STATION,
            Nl80211Command::NewStation => NL80211_CMD_NEW_STATION,
            Nl80211Command::DelStation => NL80211_CMD_DEL_STATION,
            Nl80211Command::SetBss => NL80211_CMD_SET_BSS,
            Nl80211Command::SetReg => NL80211_CMD_SET_REG,
            Nl80211Command::ReqSetReg => NL80211_CMD_REQ_SET_REG,
            Nl80211Command::GetReg => NL80211_CMD_GET_REG,
            Nl80211Command::GetScan => NL80211_CMD_GET_SCAN,
            Nl80211Command::TriggerScan => NL80211_CMD_TRIGGER_SCAN,
            Nl80211Command::NewScanResults => NL80211_CMD_NEW_SCAN_RESULTS,
            Nl80211Command::ScanAborted => NL80211_CMD_SCAN_ABORTED,
            Nl80211Command::RegChange => NL80211_CMD_REG_CHANGE,
            Nl80211Command::Authenticate => NL80211_CMD_AUTHENTICATE,
            Nl80211Command::Associate => NL80211_CMD_ASSOCIATE,
            Nl80211Command::Deauthenticate => NL80211_CMD_DEAUTHENTICATE,
            Nl80211Command::Disassociate => NL80211_CMD_DISASSOCIATE,
            Nl80211Command::Connect => NL80211_CMD_CONNECT,
            Nl80211Command::Roam => NL80211_CMD_ROAM,
            Nl80211Command::Disconnect => NL80211_CMD_DISCONNECT,
            Nl80211Command::RegisterFrame => NL80211_CMD_REGISTER_FRAME,
            Nl80211Command::Frame => NL80211_CMD_FRAME,
            Nl80211Command::FrameTxStatus => NL80211_CMD_FRAME_TX_STATUS,
            Nl80211Command::SetPowerSave => NL80211_CMD_SET_POWER_SAVE,
            Nl80211Command::GetPowerSave => NL80211_CMD_GET_POWER_SAVE,
            Nl80211Command::SetChannel => NL80211_CMD_SET_CHANNEL,
            Nl80211Command::Other(d) => d,
        }
    }
}

/// In the list of the commands that a device supports the records are
/// numbered by their position, and each holds the number of one command.
impl Nl80211Nla for Nl80211Command {
    open spec fn namespace() -> Namespace {
        Namespace::Commands
    }

    open spec fn spec_kind(&self, index: nat) -> u16 {
        (index % 0x1_0000) as u16
    }

    open spec fn spec_value(&self) -> Value {
        Value::U32(self.spec_to_u32())
    }

    open spec fn canonical(&self, index: nat) -> bool {
        Nl80211Command::canonical(*self)
    }

    open spec fn lossless(&self) -> bool {
        true
    }

    proof fn lemma_conforms(&self, index: nat) {
    }

    fn nla_kind(&self, index: usize) -> (k: u16) {
        (index % 0x1_0000) as u16
    }

    fn nla_value_len(&self) -> (n: usize) {
        4
    }

    fn nla_encoded_len(&self) -> (r: Option<usize>) {
        Some(4)
    }

    fn nla_emit_value(&self, out: &mut Vec<u8>) {
        push_u32(out, self.to_u32());
    }

    fn nla_parse(index: usize, kind: u16, payload: &[u8]) -> (r: Result<Self, Nl80211ErrorKind>) {
        Ok(Self::from_u32(decode_u32(payload)?))
    }
}

} // verus!
