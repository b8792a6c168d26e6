// SPDX-License-Identifier: MIT

pub mod band;
mod cipher;
mod get;
pub mod wowlan;

pub use self::band::{
    Nl80211Band, Nl80211BandInfo, Nl80211BandType, Nl80211Frequency, Nl80211FrequencyInfo,
    Nl80211BandRate, Nl80211BandRateInfo,
};
pub use self::cipher::{
    cipher_words, ciphers_canonical, decode_ciphers, push_ciphers, Nl80211CipherSuite,
};
pub use self::get::Nl80211WiphyGetRequest;
pub use self::wowlan::{Nl80211WowlanTrigerPatternSupport, Nl80211WowlanTrigersSupport};
