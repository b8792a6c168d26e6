// SPDX-License-Identifier: MIT

//! What the types that stand for a record have in common, and the reading and
//! writing of lists of them.

use vstd::prelude::*;

use vstd::slice::{slice_subrange, slice_to_vec};

use crate::bytes::{decode_u32, push_u32};
use crate::error::{Nl80211ErrorKind, Nl80211ListError};
use crate::nla::{next_nla, nla_buffer_len, push_nla, Frame};
use crate::schema::Namespace;
use crate::wire::{
    decode_record, decode_records, encodable, record_matches, records_bytes, records_conform,
    records_encodable, records_size, value_bytes, value_size, words_bytes, words_of, Record,
    Value,
};

verus! {

/// A type whose values stand for the records of one namespace.
pub trait Nl80211Nla: Sized {
    /// The namespace of the kinds of this type.
    spec fn namespace() -> Namespace;

    /// The kind of the record, where it stands at position `index` of a list.
    spec fn spec_kind(&self, index: nat) -> u16;

    /// The content of the record.
    spec fn spec_value(&self) -> Value;

    /// Whether the value is written in the one way in which reading gives
    /// it: of the values that stand for the same record, reading gives the
    /// canonical one.
    spec fn canonical(&self, index: nat) -> bool;

    /// Whether nothing is lost where the value is written: each record of a
    /// kind that is not known, at any depth, has a type field that is written
    /// as it is.
    spec fn lossless(&self) -> bool;

    /// A canonical value that is written without loss stands for a record
    /// that conforms to the namespace.
    proof fn lemma_conforms(&self, index: nat)
        requires
            self.canonical(index),
            self.lossless(),
            encodable(self.spec_value()),
        ensures
            record_matches(
                Self::namespace(),
                index,
                (Record { kind: self.spec_kind(index), value: self.spec_value() }),
            ),
    ;

    /// The kind of the record, where it stands at position `index` of a list.
    fn nla_kind(&self, index: usize) -> (k: u16)
        ensures
            k == self.spec_kind(index as nat),
    ;

    /// Number of bytes of the value.
    fn nla_value_len(&self) -> (n: usize)
        requires
            value_size(self.spec_value()) <= usize::MAX,
        ensures
            n == value_size(self.spec_value()),
    ;

    /// Number of bytes of the value, if the value can be written and the
    /// number fits a `usize`.
    fn nla_encoded_len(&self) -> (r: Option<usize>)
        ensures
            match r {
                Some(n) => encodable(self.spec_value()) && n == value_size(self.spec_value()),
                None => !encodable(self.spec_value()) || value_size(self.spec_value())
                    > usize::MAX,
            },
    ;

    /// Appends the bytes of the value to `out`.
    fn nla_emit_value(&self, out: &mut Vec<u8>)
        requires
            encodable(self.spec_value()),
        ensures
            final(out)@ == old(out)@ + value_bytes(self.spec_value()),
    ;

    /// Reads the record of type field `kind` and value `payload` that stands
    /// at position `index` of a list.
    fn nla_parse(index: usize, kind: u16, payload: &[u8]) -> (r: Result<Self, Nl80211ErrorKind>)
        ensures
            match r {
                Ok(a) => decode_record(
                    Self::namespace(),
                    index as nat,
                    (Frame { kind, value: payload@ }),
                ) == Ok::<Record, Nl80211ErrorKind>(
                    (Record { kind: a.spec_kind(index as nat), value: a.spec_value() }),
                ) && a.canonical(index as nat),
                Err(e) => decode_record(
                    Self::namespace(),
                    index as nat,
                    (Frame { kind, value: payload@ }),
                ) == Err::<Record, Nl80211ErrorKind>(e),
            },
    ;
}

/// The record that a value stands for at position `index` of a list.
pub open spec fn record_of<T: Nl80211Nla>(a: &T, index: nat) -> Record {
    Record { kind: a.spec_kind(index), value: a.spec_value() }
}

/// The records that a sequence of values stands for, the first at position
/// `start`.
pub open spec fn records_of<T: Nl80211Nla>(items: Seq<T>, start: nat) -> Seq<Record> {
    Seq::new(items.len(), |i: int| record_of(&items[i], start + i as nat))
}

/// Whether each value of a sequence is canonical at its position.
pub open spec fn all_canonical<T: Nl80211Nla>(items: Seq<T>, start: nat) -> bool {
    forall|i: int| 0 <= i < items.len() ==> (#[trigger] items[i]).canonical(start + i as nat)
}

/// Whether each value of a sequence is written without loss.
pub open spec fn all_lossless<T: Nl80211Nla>(items: Seq<T>) -> bool {
    forall|i: int| 0 <= i < items.len() ==> (#[trigger] items[i]).lossless()
}

/// The records of canonical values that are written without loss conform to
/// the namespace.
pub proof fn lemma_records_of_conform<T: Nl80211Nla>(items: Seq<T>, start: nat)
    requires
        all_canonical(items, start),
        all_lossless(items),
        records_encodable(records_of(items, start)),
    ensures
        records_conform(T::namespace(), records_of(items, start), start),
    decreases items.len(),
{
    let rs = records_of(items, start);
    if items.len() > 0 {
        let tail = items.drop_first();
        assert(rs[0] == record_of(&items[0], start));
        assert(items[0].canonical(start + 0 as nat));
        assert(items[0].lossless());
        assert(value_size(rs[0].value) <= crate::nla::NLA_MAX_VALUE_LEN);
        assert(encodable(rs[0].value));
        assert(records_encodable(rs.drop_first()));
        items[0].lemma_conforms(start);
        assert(crate::wire::record_conforms(T::namespace(), start, rs[0]));
        assert(records_of(tail, start + 1) =~= rs.drop_first());
        assert forall|i: int| 0 <= i < tail.len() implies (#[trigger] tail[i]).canonical(
            start + 1 + i as nat,
        ) && tail[i].lossless() by {
            assert(tail[i] == items[i + 1]);
            assert(items[i + 1].canonical(start + (i + 1) as nat));
            assert(items[i + 1].lossless());
        }
        lemma_records_of_conform(tail, start + 1);
    }
}

/// Reading what was written gives what was written: a list of canonical
/// values that are written without loss is read back from its bytes, with
/// the same records in the same order, each at its position.
pub proof fn lemma_list_roundtrip<T: Nl80211Nla>(items: Seq<T>)
    requires
        all_canonical(items, 0),
        all_lossless(items),
        records_encodable(records_of(items, 0)),
    ensures
        decode_records(T::namespace(), records_bytes(records_of(items, 0)), 0) == Ok::<
            Seq<Record>,
            Nl80211ListError,
        >(records_of(items, 0)),
        records_bytes(records_of(items, 0)).len() == records_size(records_of(items, 0)),
{
    lemma_records_of_conform(items, 0);
    crate::wire::lemma_records_roundtrip(T::namespace(), records_of(items, 0), 0);
    crate::wire::lemma_records_bytes_len(records_of(items, 0));
}

/// A list read so far, and what reading the rest gives.
pub open spec fn prepend(prefix: Seq<Record>, r: Result<Seq<Record>, Nl80211ListError>) -> Result<
    Seq<Record>,
    Nl80211ListError,
> {
    match r {
        Ok(rs) => Ok(prefix + rs),
        Err(e) => Err(e),
    }
}

/// Number of bytes of a list of records.
pub fn list_len<T: Nl80211Nla>(items: &Vec<T>) -> (n: usize)
    requires
        records_size(records_of(items@, 0)) <= usize::MAX,
    ensures
        n == records_size(records_of(items@, 0)),
{
    let ghost all = records_of(items@, 0);
    let mut total: usize = 0;
    let mut i: usize = 0;
    proof {
        assert(all.skip(0) =~= all);
    }
    while i < items.len()
        invariant
            i <= items.len(),
            all == records_of(items@, 0),
            total + records_size(all.skip(i as int)) == records_size(all),
            records_size(all) <= usize::MAX,
        decreases items.len() - i,
    {
        proof {
            assert(all.skip(i as int)[0] == record_of(&items@[i as int], i as nat));
            assert(all.skip(i as int).drop_first() =~= all.skip(i + 1));
        }
        let n: usize = items[i].nla_value_len();
        total = total + nla_buffer_len(n);
        i += 1;
    }
    total
}

/// Number of bytes of a list of records, if each of them can be written, with
/// a value that fits the length field of a header, and the number fits a
/// `usize`.
pub fn list_encoded_len<T: Nl80211Nla>(items: &Vec<T>) -> (r: Option<usize>)
    ensures
        match r {
            Some(n) => records_encodable(records_of(items@, 0)) && n == records_size(
                records_of(items@, 0),
            ),
            None => !records_encodable(records_of(items@, 0)) || records_size(
                records_of(items@, 0),
            ) > usize::MAX,
        },
{
    let ghost all = records_of(items@, 0);
    let mut total: usize = 0;
    let mut i: usize = 0;
    proof {
        assert(all.skip(0) =~= all);
    }
    while i < items.len()
        invariant
            i <= items.len(),
            all == records_of(items@, 0),
            records_encodable(all) == records_encodable(all.skip(i as int)),
            total + records_size(all.skip(i as int)) == records_size(all),
        decreases items.len() - i,
    {
        proof {
            assert(all.skip(i as int)[0] == record_of(&items@[i as int], i as nat));
            assert(all.skip(i as int).drop_first() =~= all.skip(i + 1));
        }
        match items[i].nla_encoded_len() {
            None => {
                return None;
            },
            Some(n) => {
                if n > crate::nla::NLA_MAX_VALUE_LEN {
                    return None;
                }
                let size: usize = nla_buffer_len(n);
                if total > usize::MAX - size {
                    return None;
                }
                total = total + size;
            },
        }
        i += 1;
    }
    proof {
        assert(all.skip(items@.len() as int) =~= Seq::<Record>::empty());
    }
    Some(total)
}

/// Appends the bytes of a list of records to `out`.
pub fn emit_list<T: Nl80211Nla>(items: &Vec<T>, out: &mut Vec<u8>)
    requires
        records_encodable(records_of(items@, 0)),
    ensures
        final(out)@ == old(out)@ + records_bytes(records_of(items@, 0)),
{
    let ghost all = records_of(items@, 0);
    let mut i: usize = 0;
    proof {
        assert(all.skip(0) =~= all);
    }
    while i < items.len()
        invariant
            i <= items.len(),
            all == records_of(items@, 0),
            records_encodable(all.skip(i as int)),
            out@ + records_bytes(all.skip(i as int)) == old(out)@ + records_bytes(all),
        decreases items.len() - i,
    {
        let ghost before = out@;
        proof {
            assert(all.skip(i as int)[0] == record_of(&items@[i as int], i as nat));
            assert(all.skip(i as int).drop_first() =~= all.skip(i + 1));
            crate::wire::lemma_value_bytes_len(items@[i as int].spec_value());
        }
        let mut value: Vec<u8> = Vec::new();
        items[i].nla_emit_value(&mut value);
        assert(value@ =~= value_bytes(items@[i as int].spec_value()));
        let kind: u16 = items[i].nla_kind(i);
        push_nla(out, kind, value.as_slice());
        proof {
            let head = crate::nla::frame_bytes(kind, value@);
            let tail = records_bytes(all.skip(i + 1));
            assert(records_bytes(all.skip(i as int)) == head + tail);
            assert((before + head) + tail =~= before + (head + tail));
        }
        i += 1;
    }
    proof {
        assert(all.skip(items@.len() as int) =~= Seq::<Record>::empty());
        assert(out@ + Seq::<u8>::empty() =~= out@);
    }
}

/// Reads a list of records. The first record that cannot be read ends the
/// reading with an error that tells its position.
pub fn parse_list<T: Nl80211Nla>(payload: &[u8]) -> (r: Result<Vec<T>, Nl80211ListError>)
    ensures
        match r {
            Ok(items) => decode_records(T::namespace(), payload@, 0) == Ok::<
                Seq<Record>,
                Nl80211ListError,
            >(records_of(items@, 0)) && all_canonical(items@, 0),
            Err(e) => decode_records(T::namespace(), payload@, 0) == Err::<
                Seq<Record>,
                Nl80211ListError,
            >(e),
        },
{
    let len: usize = payload.len();
    let mut out: Vec<T> = Vec::new();
    let mut pos: usize = 0;
    proof {
        assert(payload@.skip(0) =~= payload@);
        assert(records_of(out@, 0) =~= Seq::<Record>::empty());
        let whole = decode_records(T::namespace(), payload@, 0);
        match whole {
            Ok(rs) => assert(Seq::<Record>::empty() + rs =~= rs),
            Err(_) => {},
        }
    }
    while pos < len
        invariant
            pos <= len,
            len == payload@.len(),
            out@.len() <= pos,
            all_canonical(out@, 0),
            decode_records(T::namespace(), payload@, 0) == prepend(
                records_of(out@, 0),
                decode_records(T::namespace(), payload@.skip(pos as int), out@.len()),
            ),
        decreases len - pos,
    {
        let ghost rest = payload@.skip(pos as int);
        let ghost prefix = records_of(out@, 0);
        let index: usize = out.len();
        match next_nla(payload, pos) {
            None => {
                return Err(Nl80211ListError { kind: Nl80211ErrorKind::Malformed, index });
            },
            Some((nla, next)) => {
                assert(nla@ == crate::nla::first_frame(rest));
                match T::nla_parse(index, nla.kind, nla.value.as_slice()) {
                    Err(e) => {
                        return Err(Nl80211ListError { kind: e, index });
                    },
                    Ok(item) => {
                        let ghost r = record_of(&item, index as nat);
                        out.push(item);
                        pos = next;
                        proof {
                            assert(records_of(out@, 0) =~= prefix + seq![r]);
                            let tail = decode_records(
                                T::namespace(),
                                payload@.skip(pos as int),
                                out@.len(),
                            );
                            match tail {
                                Ok(rs) => assert((prefix + seq![r]) + rs =~= prefix + (seq![r]
                                    + rs)),
                                Err(_) => {},
                            }
                        }
                    },
                }
            },
        }
    }
    proof {
        assert(payload@.skip(len as int).len() == 0);
        assert(records_of(out@, 0) + Seq::<Record>::empty() =~= records_of(out@, 0));
    }
    Ok(out)
}

/// The items of a list that was read, or what went wrong, without the place.
pub fn items_of<T>(r: Result<Vec<T>, Nl80211ListError>) -> (out: Result<Vec<T>, Nl80211ErrorKind>)
    ensures
        match r {
            Ok(v) => out == Ok::<Vec<T>, Nl80211ErrorKind>(v),
            Err(e) => out == Err::<Vec<T>, Nl80211ErrorKind>(e.kind),
        },
{
    match r {
        Ok(v) => Ok(v),
        Err(e) => Err(e.kind),
    }
}

/// Reads a value of exactly `len` bytes.
pub fn decode_fixed(payload: &[u8], len: usize) -> (r: Result<Vec<u8>, Nl80211ErrorKind>)
    ensures
        match r {
            Ok(v) => payload@.len() == len && v@ == payload@,
            Err(e) => payload@.len() != len && e == Nl80211ErrorKind::WrongLength,
        },
{
    if payload.len() != len {
        Err(Nl80211ErrorKind::WrongLength)
    } else {
        Ok(slice_to_vec(payload))
    }
}

/// Number of bytes of so many 32-bit integers.
pub fn words_len<T>(words: &Vec<T>) -> (n: usize)
    requires
        4 * words@.len() <= usize::MAX,
    ensures
        n == 4 * words@.len(),
{
    words.len() * 4
}

/// Reads the 32-bit integers that a buffer holds. Up to three bytes behind the
/// last of them are not read.
pub fn decode_words(payload: &[u8]) -> (r: Vec<u32>)
    ensures
        r@ == words_of(payload@),
{
    let len: usize = payload.len();
    let mut out: Vec<u32> = Vec::new();
    let mut pos: usize = 0;
    proof {
        assert(payload@.skip(0) =~= payload@);
        assert(out@ + words_of(payload@) =~= words_of(payload@));
    }
    while len - pos >= 4
        invariant
            pos <= len,
            len == payload@.len(),
            out@ + words_of(payload@.skip(pos as int)) == words_of(payload@),
        decreases len - pos,
    {
        let ghost rest = payload@.skip(pos as int);
        let ghost before = out@;
        let chunk: &[u8] = slice_subrange(payload, pos, pos + 4);
        assert(chunk@ =~= rest.subrange(0, 4));
        let word: u32 = match decode_u32(chunk) {
            Ok(w) => w,
            Err(_) => 0,
        };
        out.push(word);
        pos = pos + 4;
        proof {
            assert(rest.skip(4) =~= payload@.skip(pos as int));
            assert(out@ + words_of(payload@.skip(pos as int)) =~= before + (seq![word]
                + words_of(payload@.skip(pos as int))));
        }
    }
    proof {
        assert(out@ + Seq::<u32>::empty() =~= out@);
    }
    out
}

/// Appends 32-bit integers in host byte order to `out`.
pub fn push_words(out: &mut Vec<u8>, words: &Vec<u32>)
    ensures
        final(out)@ == old(out)@ + words_bytes(words@),
{
    let mut i: usize = 0;
    proof {
        assert(words@.skip(0) =~= words@);
    }
    while i < words.len()
        invariant
            i <= words.len(),
            out@ + words_bytes(words@.skip(i as int)) == old(out)@ + words_bytes(words@),
        decreases words.len() - i,
    {
        let ghost before = out@;
        proof {
            assert(words@.skip(i as int).drop_first() =~= words@.skip(i + 1));
        }
        push_u32(out, words[i]);
        proof {
            let head = crate::bytes::host_u32_bytes(words@[i as int]);
            let tail = words_bytes(words@.skip(i + 1));
            assert((before + head) + tail =~= before + (head + tail));
        }
        i += 1;
    }
    proof {
        assert(words@.skip(words@.len() as int) =~= Seq::<u32>::empty());
        assert(out@ + Seq::<u8>::empty() =~= out@);
    }
}

/// `len + extra`, if it fits a `usize`.
pub fn checked_len(len: usize, extra: usize) -> (r: Option<usize>)
    ensures
        match r {
            Some(n) => n == len + extra,
            None => len + extra > usize::MAX,
        },
{
    if len > usize::MAX - extra {
        None
    } else {
        Some(len + extra)
    }
}

/// Number of bytes of so many 32-bit integers, if it fits a `usize`.
pub fn checked_words_len<T>(words: &Vec<T>) -> (r: Option<usize>)
    ensures
        match r {
            Some(n) => n == 4 * words@.len(),
            None => 4 * words@.len() > usize::MAX,
        },
{
    if words.len() > usize::MAX / 4 {
        None
    } else {
        Some(words.len() * 4)
    }
}

} // verus!
