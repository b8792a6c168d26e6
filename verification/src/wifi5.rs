// SPDX-License-Identifier: MIT

//! Very high throughput operation.

use vstd::prelude::*;
use vstd::slice::slice_to_vec;

use crate::bytes::push_bytes;
use crate::error::Nl80211ErrorKind;

verus! {

/// The very high throughput capabilities of a device, or the mask of those that can be overridden.
///
/// The block is kept as the bytes that carry it: it is written as it was
/// read.
#[derive(Debug, PartialEq, Eq, Clone)]
pub struct Nl80211VhtCapability {
    bytes: Vec<u8>,
}

impl View for Nl80211VhtCapability {
    type V = Seq<u8>;

    closed spec fn view(&self) -> Seq<u8> {
        self.bytes@
    }
}

impl Nl80211VhtCapability {
    /// Number of bytes of a very high throughput capability element.
    pub const LENGTH: usize = 12;

    /// Whether the block has the length that its kind has.
    pub open spec fn wf(&self) -> bool {
        self@.len() == Nl80211VhtCapability::LENGTH
    }

    /// What reading a buffer gives: its bytes, if they are as many as the
    /// block has.
    pub open spec fn spec_parse(payload: Seq<u8>) -> Result<Seq<u8>, Nl80211ErrorKind> {
        if payload.len() != Nl80211VhtCapability::LENGTH {
            Err(Nl80211ErrorKind::WrongLength)
        } else {
            Ok(payload)
        }
    }

    /// Reads a block: a buffer of exactly `LENGTH` bytes.
    pub fn parse(payload: &[u8]) -> (r: Result<Self, Nl80211ErrorKind>)
        ensures
            match r {
                Ok(c) =>
                    Nl80211VhtCapability::spec_parse(payload@) == Ok::<Seq<u8>, Nl80211ErrorKind>(c@)
                    && c.wf(),
                Err(e) =>
                    Nl80211VhtCapability::spec_parse(payload@) == Err::<Seq<u8>, Nl80211ErrorKind>(e),
            },
    {
        if payload.len() != Self::LENGTH {
            Err(Nl80211ErrorKind::WrongLength)
        } else {
            Ok(Nl80211VhtCapability { bytes: slice_to_vec(payload) })
        }
    }

    /// The bytes of the block.
    pub fn as_bytes(&self) -> (r: &[u8])
        ensures
            r@ == self@,
    {
        self.bytes.as_slice()
    }

    /// Number of bytes that `emit` appends.
    pub fn buffer_len(&self) -> (n: usize)
        ensures
            n == self@.len(),
    {
        self.bytes.len()
    }

    /// Appends the bytes of the block to `out`.
    pub fn emit(&self, out: &mut Vec<u8>)
        ensures
            final(out)@ == old(out)@ + self@,
    {
        push_bytes(out, self.bytes.as_slice());
    }

    /// Whether bit `i` is set, counted from the lowest bit of the first
    /// byte. A bit behind the end of the block is not set.
    pub fn bit(&self, i: usize) -> (b: bool)
        ensures
            b == (i / 8 < self@.len() && (self@[(i / 8) as int] >> ((i % 8) as u8)) & 1 == 1),
    {
        let at: usize = i / 8;
        if at < self.bytes.len() {
            let shift: u8 = (i % 8) as u8;
            (self.bytes[at] >> shift) & 1 == 1
        } else {
            false
        }
    }
}

} // verus!
