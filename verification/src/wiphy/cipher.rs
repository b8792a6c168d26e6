// SPDX-License-Identifier: MIT

use vstd::prelude::*;
use vstd::std_specs::convert::FromSpecImpl;

use crate::codec::{decode_words, push_words};
use crate::wire::{words_bytes, words_of};

verus! {

pub const WLAN_CIPHER_SUITE_USE_GROUP: u32 = 0x000FAC00;
pub const WLAN_CIPHER_SUITE_WEP40: u32 = 0x000FAC01;
pub const WLAN_CIPHER_SUITE_TKIP: u32 = 0x000FAC02;
pub const WLAN_CIPHER_SUITE_CCMP: u32 = 0x000FAC04;
pub const WLAN_CIPHER_SUITE_WEP104: u32 = 0x000FAC05;
pub const WLAN_CIPHER_SUITE_AES_CMAC: u32 = 0x000FAC06;
pub const WLAN_CIPHER_SUITE_GCMP: u32 = 0x000FAC08;
pub const WLAN_CIPHER_SUITE_GCMP_256: u32 = 0x000FAC09;
pub const WLAN_CIPHER_SUITE_CCMP_256: u32 = 0x000FAC0A;
pub const WLAN_CIPHER_SUITE_BIP_GMAC_128: u32 = 0x000FAC0B;
pub const WLAN_CIPHER_SUITE_BIP_GMAC_256: u32 = 0x000FAC0C;
pub const WLAN_CIPHER_SUITE_BIP_CMAC_256: u32 = 0x000FAC0D;
pub const WLAN_CIPHER_SUITE_SMS4: u32 = 0x00147201;

/// A cipher suite, as its selector of four bytes tells it.
#[derive(Debug, PartialEq, Eq, Clone, Copy)]
pub enum Nl80211CipherSuite {
    UseGroup,
    Wep40,
    Tkip,
    Ccmp,
    Wep104,
    AesCmac,
    Gcmp,
    Gcmp256,
    Ccmp256,
    BipGmac128,
    BipGmac256,
    BipCmac256,
    Sms4,
    Other(u32),
}

impl Nl80211CipherSuite {
    /// The suite that a selector stands for.
    pub open spec fn spec_from_u32(d: u32) -> Nl80211CipherSuite {
        match d {
            WLAN_CIPHER_SUITE_USE_GROUP => Nl80211CipherSuite::UseGroup,
            WLAN_CIPHER_SUITE_WEP40 => Nl80211CipherSuite::Wep40,
            WLAN_CIPHER_SUITE_TKIP => Nl80211CipherSuite::Tkip,
            WLAN_CIPHER_SUITE_CCMP => Nl80211CipherSuite::Ccmp,
            WLAN_CIPHER_SUITE_WEP104 => Nl80211CipherSuite::Wep104,
            WLAN_CIPHER_SUITE_AES_CMAC => Nl80211CipherSuite::AesCmac,
            WLAN_CIPHER_SUITE_GCMP => Nl80211CipherSuite::Gcmp,
            WLAN_CIPHER_SUITE_GCMP_256 => Nl80211CipherSuite::Gcmp256,
            WLAN_CIPHER_SUITE_CCMP_256 => Nl80211CipherSuite::Ccmp256,
            WLAN_CIPHER_SUITE_BIP_GMAC_128 => Nl80211CipherSuite::BipGmac128,
            WLAN_CIPHER_SUITE_BIP_GMAC_256 => Nl80211CipherSuite::BipGmac256,
            WLAN_CIPHER_SUITE_BIP_CMAC_256 => Nl80211CipherSuite::BipCmac256,
            WLAN_CIPHER_SUITE_SMS4 => Nl80211CipherSuite::Sms4,
            _ => Nl80211CipherSuite::Other(d),
        }
    }

    /// The selector of a suite.
    pub open spec fn spec_to_u32(self) -> u32 {
        match self {
            Nl80211CipherSuite::UseGroup => WLAN_CIPHER_SUITE_USE_GROUP,
            Nl80211CipherSuite::Wep40 => WLAN_CIPHER_SUITE_WEP40,
            Nl80211CipherSuite::Tkip => WLAN_CIPHER_SUITE_TKIP,
            Nl80211CipherSuite::Ccmp => WLAN_CIPHER_SUITE_CCMP,
            Nl80211CipherSuite::Wep104 => WLAN_CIPHER_SUITE_WEP104,
            Nl80211CipherSuite::AesCmac => WLAN_CIPHER_SUITE_AES_CMAC,
            Nl80211CipherSuite::Gcmp => WLAN_CIPHER_SUITE_GCMP,
            Nl80211CipherSuite::Gcmp256 => WLAN_CIPHER_SUITE_GCMP_256,
            Nl80211CipherSuite::Ccmp256 => WLAN_CIPHER_SUITE_CCMP_256,
            Nl80211CipherSuite::BipGmac128 => WLAN_CIPHER_SUITE_BIP_GMAC_128,
            Nl80211CipherSuite::BipGmac256 => WLAN_CIPHER_SUITE_BIP_GMAC_256,
            Nl80211CipherSuite::BipCmac256 => WLAN_CIPHER_SUITE_BIP_CMAC_256,
            Nl80211CipherSuite::Sms4 => WLAN_CIPHER_SUITE_SMS4,
            Nl80211CipherSuite::Other(d) => d,
        }
    }

    /// Whether the suite is the one that its selector is read as: a selector
    /// that has a name does not stand in `Other`.
    pub open spec fn canonical(self) -> bool {
        Nl80211CipherSuite::spec_from_u32(self.spec_to_u32()) == self
    }

    /// Every selector stands for a suite in canonical form, and that suite
    /// has the selector.
    pub proof fn lemma_from_to(d: u32)
        ensures
            Nl80211CipherSuite::spec_from_u32(d).spec_to_u32() == d,
            Nl80211CipherSuite::spec_from_u32(d).canonical(),
    {
    }
}

impl Nl80211CipherSuite {
    /// The suite that a selector stands for.
    pub fn from_u32(d: u32) -> (r: Self)
        ensures
            r == Nl80211CipherSuite::spec_from_u32(d),
    {
        match d {
            WLAN_CIPHER_SUITE_USE_GROUP => Self::UseGroup,
            WLAN_CIPHER_SUITE_WEP40 => Self::Wep40,
            WLAN_CIPHER_SUITE_TKIP => Self::Tkip,
            WLAN_CIPHER_SUITE_CCMP => Self::Ccmp,
            WLAN_CIPHER_SUITE_WEP104 => Self::Wep104,
            WLAN_CIPHER_SUITE_AES_CMAC => Self::AesCmac,
            WLAN_CIPHER_SUITE_GCMP => Self::Gcmp,
            WLAN_CIPHER_SUITE_GCMP_256 => Self::Gcmp256,
            WLAN_CIPHER_SUITE_CCMP_256 => Self::Ccmp256,
            WLAN_CIPHER_SUITE_BIP_GMAC_128 => Self::BipGmac128,
            WLAN_CIPHER_SUITE_BIP_GMAC_256 => Self::BipGmac256,
            WLAN_CIPHER_SUITE_BIP_CMAC_256 => Self::BipCmac256,
            WLAN_CIPHER_SUITE_SMS4 => Self::Sms4,
            _ => Self::Other(d),
        }
    }

    /// The selector of the suite.
    pub fn to_u32(self) -> (r: u32)
        ensures
            r == self.spec_to_u32(),
    {
        match self {
            Nl80211CipherSuite::UseGroup => WLAN_CIPHER_SUITE_USE_GROUP,
            Nl80211CipherSuite::Wep40 => WLAN_CIPHER_SUITE_WEP40,
            Nl80211CipherSuite::Tkip => WLAN_CIPHER_SUITE_TKIP,
            Nl80211CipherSuite::Ccmp => WLAN_CIPHER_SUITE_CCMP,
            Nl80211CipherSuite::Wep104 => WLAN_CIPHER_SUITE_WEP104,
            Nl80211CipherSuite::AesCmac => WLAN_CIPHER_SUITE_AES_CMAC,
            Nl80211CipherSuite::Gcmp => WLAN_CIPHER_SUITE_GCMP,
            Nl80211CipherSuite::Gcmp256 => WLAN_CIPHER_SUITE_GCMP_256,
            Nl80211CipherSuite::Ccmp256 => WLAN_CIPHER_SUITE_CCMP_256,
            Nl80211CipherSuite::BipGmac128 => WLAN_CIPHER_SUITE_BIP_GMAC_128,
            Nl80211CipherSuite::BipGmac256 => WLAN_CIPHER_SUITE_BIP_GMAC_256,
            Nl80211CipherSuite::BipCmac256 => WLAN_CIPHER_SUITE_BIP_CMAC_256,
            Nl80211CipherSuite::Sms4 => WLAN_CIPHER_SUITE_SMS4,
            Nl80211CipherSuite::Other(d) => d,
        }
    }
}

impl From<u32> for Nl80211CipherSuite {
    fn from(d: u32) -> (r: Self) {
        Nl80211CipherSuite::from_u32(d)
    }
}

impl FromSpecImpl<u32> for Nl80211CipherSuite {
    open spec fn obeys_from_spec() -> bool {
        true
    }

    open spec fn from_spec(d: u32) -> Self {
        Nl80211CipherSuite::spec_from_u32(d)
    }
}

impl From<Nl80211CipherSuite> for u32 {
    fn from(v: Nl80211CipherSuite) -> (r: u32) {
        v.to_u32()
    }
}

impl FromSpecImpl<Nl80211CipherSuite> for u32 {
    open spec fn obeys_from_spec() -> bool {
        true
    }

    open spec fn from_spec(v: Nl80211CipherSuite) -> u32 {
        v.spec_to_u32()
    }
}

/// The selectors of a sequence of cipher suites.
pub open spec fn cipher_words(suites: Seq<Nl80211CipherSuite>) -> Seq<u32> {
    Seq::new(suites.len(), |i: int| suites[i].spec_to_u32())
}

/// Whether each suite of a sequence is in canonical form.
pub open spec fn ciphers_canonical(suites: Seq<Nl80211CipherSuite>) -> bool {
    forall|i: int| 0 <= i < suites.len() ==> (#[trigger] suites[i]).canonical()
}

/// Reads the cipher suites whose selectors a buffer holds.
pub fn decode_ciphers(payload: &[u8]) -> (r: Vec<Nl80211CipherSuite>)
    ensures
        cipher_words(r@) == words_of(payload@),
        ciphers_canonical(r@),
{
    let words: Vec<u32> = decode_words(payload);
    let mut suites: Vec<Nl80211CipherSuite> = Vec::new();
    let mut i: usize = 0;
    while i < words.len()
        invariant
            i <= words.len(),
            suites@.len() == i,
            forall|j: int|
                0 <= j < i ==> (#[trigger] suites@[j]) == Nl80211CipherSuite::spec_from_u32(
                    words@[j],
                ),
        decreases words.len() - i,
    {
        suites.push(Nl80211CipherSuite::from(words[i]));
        i += 1;
    }
    proof {
        assert forall|j: int| 0 <= j < suites@.len() implies (#[trigger] suites@[j]).canonical()
            && suites@[j].spec_to_u32() == words@[j] by {
            Nl80211CipherSuite::lemma_from_to(words@[j]);
        }
        assert(cipher_words(suites@) =~= words@);
    }
    suites
}

/// Appends the selectors of cipher suites to `out`.
pub fn push_ciphers(out: &mut Vec<u8>, suites: &Vec<Nl80211CipherSuite>)
    ensures
        final(out)@ == old(out)@ + words_bytes(cipher_words(suites@)),
{
    let mut words: Vec<u32> = Vec::new();
    let mut i: usize = 0;
    while i < suites.len()
        invariant
            i <= suites.len(),
            words@.len() == i,
            forall|j: int| 0 <= j < i ==> (#[trigger] words@[j]) == suites@[j].spec_to_u32(),
        decreases suites.len() - i,
    {
        words.push(u32::from(suites[i]));
        i += 1;
    }
    assert(words@ =~= cipher_words(suites@));
    push_words(out, &words);
}

} // verus!
