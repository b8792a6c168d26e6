// SPDX-License-Identifier: MIT

//! High throughput operation.

use vstd::prelude::*;
use vstd::slice::slice_to_vec;
use vstd::std_specs::convert::FromSpecImpl;

use crate::bytes::push_bytes;
use crate::error::Nl80211ErrorKind;

verus! {

pub const NL80211_CHAN_NO_HT: u32 = 0;
pub const NL80211_CHAN_HT20: u32 = 1;
pub const NL80211_CHAN_HT40MINUS: u32 = 2;
pub const NL80211_CHAN_HT40PLUS: u32 = 3;

/// The high throughput type of a channel.
#[derive(Debug, PartialEq, Eq, Clone, Copy)]
pub enum Nl80211HtWiphyChannelType {
    /// Not a high throughput channel
    NoHt,
    /// 20 MHz
    Ht20,
    /// 40 MHz, the secondary channel below the control channel
    Ht40Minus,
    /// 40 MHz, the secondary channel above the control channel
    Ht40Plus,
    /// A number without a name
    Other(u32),
}

impl Nl80211HtWiphyChannelType {
    /// The value that a number stands for.
    pub open spec fn spec_from_u32(d: u32) -> Nl80211HtWiphyChannelType {
        match d {
            NL80211_CHAN_NO_HT => Nl80211HtWiphyChannelType::NoHt,
            NL80211_CHAN_HT20 => Nl80211HtWiphyChannelType::Ht20,
            NL80211_CHAN_HT40MINUS => Nl80211HtWiphyChannelType::Ht40Minus,
            NL80211_CHAN_HT40PLUS => Nl80211HtWiphyChannelType::Ht40Plus,
            _ => Nl80211HtWiphyChannelType::Other(d),
        }
    }

    /// The number that stands for a value.
    pub open spec fn spec_to_u32(self) -> u32 {
        match self {
            Nl80211HtWiphyChannelType::NoHt => NL80211_CHAN_NO_HT,
            Nl80211HtWiphyChannelType::Ht20 => NL80211_CHAN_HT20,
            Nl80211HtWiphyChannelType::Ht40Minus => NL80211_CHAN_HT40MINUS,
            Nl80211HtWiphyChannelType::Ht40Plus => NL80211_CHAN_HT40PLUS,
            Nl80211HtWiphyChannelType::Other(d) => d,
        }
    }

    /// Whether the value is the one that its number is read as: a number
    /// that has a name does not stand in `Other`.
    pub open spec fn canonical(self) -> bool {
        Nl80211HtWiphyChannelType::spec_from_u32(self.spec_to_u32()) == self
    }

    /// Every number stands for a value in canonical form, and that value
    /// stands for the number.
    pub proof fn lemma_from_to(d: u32)
        ensures
            Nl80211HtWiphyChannelType::spec_from_u32(d).spec_to_u32() == d,
            Nl80211HtWiphyChannelType::spec_from_u32(d).canonical(),
    {
    }

    /// The value that a number stands for.
    pub fn from_u32(d: u32) -> (r: Self)
        ensures
            r == Nl80211HtWiphyChannelType::spec_from_u32(d),
    {
        match d {
            NL80211_CHAN_NO_HT => Self::NoHt,
            NL80211_CHAN_HT20 => Self::Ht20,
            NL80211_CHAN_HT40MINUS => Self::Ht40Minus,
            NL80211_CHAN_HT40PLUS => Self::Ht40Plus,
            _ => Self::Other(d),
        }
    }

    /// The number that stands for the value.
    pub fn to_u32(self) -> (r: u32)
        ensures
            r == self.spec_to_u32(),
    {
        match self {
            Nl80211HtWiphyChannelType::NoHt => NL80211_CHAN_NO_HT,
            Nl80211HtWiphyChannelType::Ht20 => NL80211_CHAN_HT20,
            Nl80211HtWiphyChannelType::Ht40Minus => NL80211_CHAN_HT40MINUS,
            Nl80211HtWiphyChannelType::Ht40Plus => NL80211_CHAN_HT40PLUS,
            Nl80211HtWiphyChannelType::Other(d) => d,
        }
    }
}

impl From<u32> for Nl80211HtWiphyChannelType {
    fn from(d: u32) -> (r: Self) {
        Nl80211HtWiphyChannelType::from_u32(d)
    }
}

impl FromSpecImpl<u32> for Nl80211HtWiphyChannelType {
    open spec fn obeys_from_spec() -> bool {
        true
    }

    open spec fn from_spec(d: u32) -> Self {
        Nl80211HtWiphyChannelType::spec_from_u32(d)
    }
}

impl From<Nl80211HtWiphyChannelType> for u32 {
    fn from(v: Nl80211HtWiphyChannelType) -> (r: u32) {
        v.to_u32()
    }
}

impl FromSpecImpl<Nl80211HtWiphyChannelType> for u32 {
    open spec fn obeys_from_spec() -> bool {
        true
    }

    open spec fn from_spec(v: Nl80211HtWiphyChannelType) -> u32 {
        v.spec_to_u32()
    }
}

/// The mask of the high throughput capabilities that can be overridden.
///
/// The block is kept as the bytes that carry it: it is written as it was
/// read.
#[derive(Debug, PartialEq, Eq, Clone)]
pub struct Nl80211HtCapabilityMask {
    bytes: Vec<u8>,
}

impl View for Nl80211HtCapabilityMask {
    type V = Seq<u8>;

    closed spec fn view(&self) -> Seq<u8> {
        self.bytes@
    }
}

impl Nl80211HtCapabilityMask {
    /// Number of bytes of a high throughput capability element.
    pub const LENGTH: usize = 26;

    /// Whether the block has the length that its kind has.
    pub open spec fn wf(&self) -> bool {
        self@.len() == Nl80211HtCapabilityMask::LENGTH
    }

    /// What reading a buffer gives: its bytes, if they are as many as the
    /// block has.
    pub open spec fn spec_parse(payload: Seq<u8>) -> Result<Seq<u8>, Nl80211ErrorKind> {
        if payload.len() != Nl80211HtCapabilityMask::LENGTH {
            Err(Nl80211ErrorKind::WrongLength)
        } else {
            Ok(payload)
        }
    }

    /// Reads a block: a buffer of exactly `LENGTH` bytes.
    pub fn parse(payload: &[u8]) -> (r: Result<Self, Nl80211ErrorKind>)
        ensures
            match r {
                Ok(c) =>
                    Nl80211HtCapabilityMask::spec_parse(payload@) == Ok::<Seq<u8>, Nl80211ErrorKind>(c@)
                    && c.wf(),
                Err(e) =>
                    Nl80211HtCapabilityMask::spec_parse(payload@) == Err::<Seq<u8>, Nl80211ErrorKind>(e),
            },
    {
        if payload.len() != Self::LENGTH {
            Err(Nl80211ErrorKind::WrongLength)
        } else {
            Ok(Nl80211HtCapabilityMask { bytes: slice_to_vec(payload) })
        }
    }

    /// The bytes of the block.
    pub fn as_bytes(&self) -> (r: &[u8])
        ensures
            r@ == self@,
    {
        self.bytes.as_slice()
    }

    /// Number of bytes that `emit` appends.
    pub fn buffer_len(&self) -> (n: usize)
        ensures
            n == self@.len(),
    {
        self.bytes.len()
    }

    /// Appends the bytes of the block to `out`.
    pub fn emit(&self, out: &mut Vec<u8>)
        ensures
            final(out)@ == old(out)@ + self@,
    {
        push_bytes(out, self.bytes.as_slice());
    }

    /// Whether bit `i` is set, counted from the lowest bit of the first
    /// byte. A bit behind the end of the block is not set.
    pub fn bit(&self, i: usize) -> (b: bool)
        ensures
            b == (i / 8 < self@.len() && (self@[(i / 8) as int] >> ((i % 8) as u8)) & 1 == 1),
    {
        let at: usize = i / 8;
        if at < self.bytes.len() {
            let shift: u8 = (i % 8) as u8;
            (self.bytes[at] >> shift) & 1 == 1
        } else {
            false
        }
    }
}

} // verus!
