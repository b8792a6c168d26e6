// SPDX-License-Identifier: MIT

pub mod ap;
pub mod combination;
mod get;
mod iface_type;
mod set;
mod vif;

pub use self::ap::{
    Nl80211GetRegulatory, Nl80211RegisterFrame, Nl80211ReqSetRegulatory, Nl80211StartAp,
};
pub use self::combination::{
    Nl80211IfaceComb, Nl80211IfaceCombAttribute, Nl80211IfaceCombLimit,
    Nl80211IfaceCombLimitAttribute,
};
pub use self::get::Nl80211InterfaceGetRequest;
pub use self::iface_type::{Nl80211IfMode, Nl80211InterfaceType};
pub use self::set::{Nl80211InterfaceSetChannelRequest, Nl80211InterfaceSetRequest};
pub use self::vif::{Nl80211InterfaceDelRequest, Nl80211InterfaceNewRequest};
