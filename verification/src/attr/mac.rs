// SPDX-License-Identifier: MIT

//! Lists of hardware addresses.

use vstd::prelude::*;

use crate::bytes::{decode_mac, push_bytes, ETH_ALEN};
use crate::codec::{all_canonical, parse_list, records_of, Nl80211Nla};
use crate::error::{Nl80211ErrorKind, Nl80211ListError};
use crate::schema::Namespace;
use crate::wire::{decode_records, records_bytes, records_conform, Record, Value};

verus! {

/// A hardware address in a list of addresses.
#[derive(Debug, PartialEq, Eq, Clone, Copy)]
pub struct MacAddressNla {
    /// Position in the list
    pub index: u16,
    pub mac: [u8; ETH_ALEN],
}

/// The addresses of a list are numbered by their position.
impl Nl80211Nla for MacAddressNla {
    open spec fn namespace() -> Namespace {
        Namespace::MacAddrs
    }

    open spec fn spec_kind(&self, index: nat) -> u16 {
        (index % 0x1_0000) as u16
    }

    open spec fn spec_value(&self) -> Value {
        Value::Bytes(self.mac@)
    }

    open spec fn canonical(&self, index: nat) -> bool {
        self.index == index % 0x1_0000
    }

    open spec fn lossless(&self) -> bool {
        true
    }

    proof fn lemma_conforms(&self, index: nat) {
    }

    fn nla_kind(&self, index: usize) -> (k: u16) {
        (index % 0x1_0000) as u16
    }

    fn nla_value_len(&self) -> (n: usize) {
        ETH_ALEN
    }

    fn nla_encoded_len(&self) -> (r: Option<usize>) {
        Some(ETH_ALEN)
    }

    fn nla_emit_value(&self, out: &mut Vec<u8>) {
        push_bytes(out, self.mac.as_slice());
    }

    fn nla_parse(index: usize, kind: u16, payload: &[u8]) -> (r: Result<Self, Nl80211ErrorKind>) {
        let mac: [u8; ETH_ALEN] = decode_mac(payload)?;
        Ok(MacAddressNla { index: (index % 0x1_0000) as u16, mac })
    }
}

/// The records that a sequence of hardware addresses stands for, where the
/// first of them stands at position `start` of a list.
pub open spec fn mac_records_from(macs: Seq<[u8; ETH_ALEN]>, start: nat) -> Seq<Record> {
    Seq::new(
        macs.len(),
        |i: int| Record { kind: ((start + i) % 0x1_0000) as u16, value: Value::Bytes(macs[i]@) },
    )
}

/// The records that a sequence of hardware addresses stands for.
pub open spec fn mac_records(macs: Seq<[u8; ETH_ALEN]>) -> Seq<Record> {
    mac_records_from(macs, 0)
}

/// The records of hardware addresses conform to their namespace.
pub proof fn lemma_mac_records_conform(macs: Seq<[u8; ETH_ALEN]>, start: nat)
    ensures
        records_conform(Namespace::MacAddrs, mac_records_from(macs, start), start),
    decreases macs.len(),
{
    let rs = mac_records_from(macs, start);
    if macs.len() > 0 {
        let tail = macs.drop_first();
        assert(mac_records_from(tail, start + 1) =~= rs.drop_first());
        lemma_mac_records_conform(tail, start + 1);
        assert(rs[0].value == Value::Bytes(macs[0]@));
        assert(macs[0]@.len() == ETH_ALEN);
        assert(crate::wire::record_conforms(Namespace::MacAddrs, start, rs[0]));
    }
}

/// Reading what was written gives what was written: hardware addresses are
/// read back from the bytes of their list in the same order, each with the
/// number of its position.
pub proof fn lemma_mac_addrs_roundtrip(macs: Seq<[u8; ETH_ALEN]>)
    ensures
        decode_records(Namespace::MacAddrs, records_bytes(mac_records(macs)), 0) == Ok::<
            Seq<Record>,
            Nl80211ListError,
        >(mac_records(macs)),
        forall|i: int|
            0 <= i < macs.len() ==> (#[trigger] mac_records(macs)[i]).kind == i % 0x1_0000
                && mac_records(macs)[i].value == Value::Bytes(macs[i]@),
{
    lemma_mac_records_conform(macs, 0);
    crate::wire::lemma_records_roundtrip(Namespace::MacAddrs, mac_records(macs), 0);
}

/// A list of hardware addresses.
pub struct MacAddressNlas(pub Vec<MacAddressNla>);

impl MacAddressNlas {
    /// Numbers the addresses by their position.
    pub fn from_macs(macs: &Vec<[u8; ETH_ALEN]>) -> (r: Self)
        ensures
            r.0@.len() == macs@.len(),
            forall|i: int|
                0 <= i < macs@.len() ==> (#[trigger] r.0@[i]).mac == macs@[i] && r.0@[i].index == i
                    % 0x1_0000,
            records_of(r.0@, 0) == mac_records(macs@),
            all_canonical(r.0@, 0),
    {
        let mut nlas: Vec<MacAddressNla> = Vec::new();
        let mut i: usize = 0;
        while i < macs.len()
            invariant
                i <= macs.len(),
                nlas@.len() == i,
                forall|j: int|
                    0 <= j < i ==> (#[trigger] nlas@[j]).mac == macs@[j] && nlas@[j].index == j
                        % 0x1_0000,
            decreases macs.len() - i,
        {
            nlas.push(MacAddressNla { index: (i % 0x1_0000) as u16, mac: macs[i] });
            i += 1;
        }
        assert(records_of(nlas@, 0) =~= mac_records(macs@));
        MacAddressNlas(nlas)
    }

    /// The addresses, without their numbers.
    pub fn into_macs(self) -> (r: Vec<[u8; ETH_ALEN]>)
        ensures
            r@.len() == self.0@.len(),
            forall|i: int| 0 <= i < r@.len() ==> (#[trigger] r@[i]) == self.0@[i].mac,
            mac_records(r@) == records_of(self.0@, 0),
    {
        let mut macs: Vec<[u8; ETH_ALEN]> = Vec::new();
        let mut i: usize = 0;
        while i < self.0.len()
            invariant
                i <= self.0.len(),
                macs@.len() == i,
                forall|j: int| 0 <= j < i ==> (#[trigger] macs@[j]) == self.0@[j].mac,
            decreases self.0.len() - i,
        {
            macs.push(self.0[i].mac);
            i += 1;
        }
        assert(mac_records(macs@) =~= records_of(self.0@, 0));
        macs
    }

    /// Reads a list of hardware addresses: each record holds six bytes, and
    /// is numbered by its position, whatever its type field says.
    pub fn parse(payload: &[u8]) -> (r: Result<Self, Nl80211ListError>)
        ensures
            match r {
                Ok(nlas) => decode_records(Namespace::MacAddrs, payload@, 0) == Ok::<
                    Seq<Record>,
                    Nl80211ListError,
                >(records_of(nlas.0@, 0)) && all_canonical(nlas.0@, 0),
                Err(e) => decode_records(Namespace::MacAddrs, payload@, 0) == Err::<
                    Seq<Record>,
                    Nl80211ListError,
                >(e),
            },
    {
        Ok(MacAddressNlas(parse_list::<MacAddressNla>(payload)?))
    }
}

} // verus!
