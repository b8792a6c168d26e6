// SPDX-License-Identifier: MIT

//! A message: a command and its attributes, in order.

use vstd::prelude::*;

use crate::attr::Nl80211Attr;
use crate::bytes::copy_into;
use crate::codec::{
    all_canonical, all_lossless, emit_list, lemma_records_of_conform, list_encoded_len,
    list_len, records_of,
};
use crate::command::Nl80211Command;
use crate::error::Nl80211DecodeError;
use crate::nla::{after_first_frame, first_frame, frame_ok, next_nla};
use crate::schema::Namespace;
use crate::wire::{
    record_conforms, records_bytes, records_conform, records_encodable, records_size, Record,
};

verus! {

/// What a message says: its command, and the records of its attributes.
pub struct MessageView {
    pub cmd: Nl80211Command,
    pub attributes: Seq<Record>,
}

/// A message: a command and its attributes, in order.
#[derive(Debug, PartialEq, Eq, Clone)]
pub struct Nl80211Message {
    pub cmd: Nl80211Command,
    pub attributes: Vec<Nl80211Attr>,
}

impl View for Nl80211Message {
    type V = MessageView;

    open spec fn view(&self) -> MessageView {
        MessageView { cmd: self.cmd, attributes: records_of(self.attributes@, 0) }
    }
}

/// What reading `b` as the attributes of a message gives, where `index` is
/// the position of the first of them. The first attribute that cannot be read
/// ends it: no part of a message is read where the whole is not.
pub open spec fn spec_parse_attrs(b: Seq<u8>, index: nat) -> Result<
    Seq<Record>,
    Nl80211DecodeError,
>
    decreases b.len(),
{
    if b.len() == 0 {
        Ok(Seq::<Record>::empty())
    } else if !frame_ok(b) {
        Err(Nl80211DecodeError::of_framing(index as usize))
    } else {
        match Nl80211Attr::spec_parse(first_frame(b).kind, first_frame(b).value) {
            Err(e) => Err(e),
            Ok(r) => match spec_parse_attrs(after_first_frame(b), index + 1) {
                Err(e) => Err(e),
                Ok(rs) => Ok(seq![r] + rs),
            },
        }
    }
}

/// The attributes read so far, and what reading the rest gives.
pub open spec fn prepend_attrs(prefix: Seq<Record>, r: Result<Seq<Record>, Nl80211DecodeError>)
    -> Result<Seq<Record>, Nl80211DecodeError> {
    match r {
        Ok(rs) => Ok(prefix + rs),
        Err(e) => Err(e),
    }
}

/// The attributes of `s` whose being the variant of the given kind is as
/// `keep` says, in their order. An attribute of a kind that has no variant is
/// the variant of no kind: it is among those that are not of the kind,
/// whatever kind it holds.
pub open spec fn select_variant(s: Seq<Nl80211Attr>, kind: u16, keep: bool) -> Seq<Nl80211Attr>
    decreases s.len(),
{
    if s.len() == 0 {
        Seq::<Nl80211Attr>::empty()
    } else if s[0].is_variant_of(kind) == keep {
        seq![s[0]] + select_variant(s.drop_first(), kind, keep)
    } else {
        select_variant(s.drop_first(), kind, keep)
    }
}

/// What is selected is part of the list: it is not longer, and each of its
/// attributes is or is not the variant of the kind, as `keep` says.
pub proof fn lemma_select_variant_members(s: Seq<Nl80211Attr>, kind: u16, keep: bool)
    ensures
        select_variant(s, kind, keep).len() <= s.len(),
        forall|i: int|
            0 <= i < select_variant(s, kind, keep).len() ==> (#[trigger] select_variant(
                s,
                kind,
                keep,
            )[i]).is_variant_of(kind) == keep,
    decreases s.len(),
{
    if s.len() > 0 {
        lemma_select_variant_members(s.drop_first(), kind, keep);
    }
}

/// A list whose attributes all are, or all are not, the variant of the kind
/// is selected whole.
pub proof fn lemma_select_variant_all(s: Seq<Nl80211Attr>, kind: u16, keep: bool)
    requires
        forall|i: int| 0 <= i < s.len() ==> (#[trigger] s[i]).is_variant_of(kind) == keep,
    ensures
        select_variant(s, kind, keep) == s,
    decreases s.len(),
{
    if s.len() > 0 {
        let tail = s.drop_first();
        assert forall|i: int| 0 <= i < tail.len() implies (#[trigger] tail[i]).is_variant_of(kind)
            == keep by {
            assert(tail[i] == s[i + 1]);
        }
        lemma_select_variant_all(tail, kind, keep);
        assert(seq![s[0]] + tail =~= s);
    } else {
        assert(select_variant(s, kind, keep) =~= s);
    }
}

/// Selecting from what was selected changes nothing.
pub proof fn lemma_select_variant_twice(s: Seq<Nl80211Attr>, kind: u16, keep: bool)
    ensures
        select_variant(select_variant(s, kind, keep), kind, keep) == select_variant(s, kind, keep),
{
    lemma_select_variant_members(s, kind, keep);
    lemma_select_variant_all(select_variant(s, kind, keep), kind, keep);
}

impl Nl80211Message {
    /// A message of the given command, without attributes.
    pub fn new(cmd: Nl80211Command) -> (r: Self)
        ensures
            r.cmd == cmd,
            r.attributes@ == Seq::<Nl80211Attr>::empty(),
    {
        Nl80211Message { cmd, attributes: Vec::new() }
    }

    /// Adds an attribute behind the others.
    pub fn push(&mut self, attr: Nl80211Attr)
        ensures
            final(self).cmd == old(self).cmd,
            final(self).attributes@ == old(self).attributes@.push(attr),
    {
        self.attributes.push(attr);
    }

    /// Drops the attributes that are the variant of the given kind. An
    /// attribute of a kind that has no variant stays, whatever kind it holds.
    pub fn remove_variant(&mut self, kind: u16)
        ensures
            final(self).cmd == old(self).cmd,
            final(self).attributes@ == select_variant(old(self).attributes@, kind, false),
    {
        let mut attributes: Vec<Nl80211Attr> = Vec::new();
        core::mem::swap(&mut attributes, &mut self.attributes);
        self.attributes = select(attributes, kind, false);
    }

    /// Drops the attributes that are not the variant of the given kind. An
    /// attribute of a kind that has no variant is dropped, whatever kind it
    /// holds.
    pub fn retain_variant(&mut self, kind: u16)
        ensures
            final(self).cmd == old(self).cmd,
            final(self).attributes@ == select_variant(old(self).attributes@, kind, true),
    {
        let mut attributes: Vec<Nl80211Attr> = Vec::new();
        core::mem::swap(&mut attributes, &mut self.attributes);
        self.attributes = select(attributes, kind, true);
    }

    /// Whether the message can be written: each of its attributes can, and
    /// has a value that fits the length field of a header.
    pub open spec fn encodable(&self) -> bool {
        records_encodable(self@.attributes)
    }

    /// Reading what was written gives what was written: the attributes of a
    /// message that can be written are read back from its bytes, in the same
    /// order, where each of them is in canonical form and is written without
    /// loss.
    pub proof fn lemma_roundtrip(&self)
        requires
            all_canonical(self.attributes@, 0),
            all_lossless(self.attributes@),
            self.encodable(),
        ensures
            spec_parse_attrs(records_bytes(self@.attributes), 0) == Ok::<
                Seq<Record>,
                Nl80211DecodeError,
            >(self@.attributes),
    {
        lemma_records_of_conform::<Nl80211Attr>(self.attributes@, 0);
        lemma_records_roundtrip(self@.attributes, 0);
    }

    /// Number of bytes of the attributes, if the message can be written and
    /// the number fits a `usize`.
    pub fn encoded_len(&self) -> (r: Option<usize>)
        ensures
            match r {
                Some(n) => self.encodable() && n == records_size(self@.attributes),
                None => !self.encodable() || records_size(self@.attributes) > usize::MAX,
            },
    {
        list_encoded_len(&self.attributes)
    }

    /// Number of bytes of the attributes: for each its header and its value
    /// with the padding.
    pub fn buffer_len(&self) -> (n: usize)
        requires
            records_size(self@.attributes) <= usize::MAX,
        ensures
            n == records_size(self@.attributes),
    {
        list_len(&self.attributes)
    }

    /// The bytes of the attributes of the message.
    pub fn to_bytes(&self) -> (r: Vec<u8>)
        requires
            self.encodable(),
        ensures
            r@ == records_bytes(self@.attributes),
    {
        let mut out: Vec<u8> = Vec::new();
        emit_list(&self.attributes, &mut out);
        assert(out@ =~= records_bytes(self@.attributes));
        out
    }

    /// Writes the bytes of the attributes over `buffer`, which holds as many
    /// bytes as `buffer_len` says.
    pub fn emit(&self, buffer: &mut [u8])
        requires
            self.encodable(),
            old(buffer)@.len() == records_size(self@.attributes),
        ensures
            final(buffer)@ == records_bytes(self@.attributes),
    {
        let bytes: Vec<u8> = self.to_bytes();
        proof {
            crate::wire::lemma_records_bytes_len(self@.attributes);
        }
        copy_into(buffer, bytes.as_slice());
    }

    /// Reads the attributes of a message of the given command. An attribute
    /// of a kind that is not known is kept as it came; any other failure ends
    /// the reading, and tells the attribute at which it happened.
    pub fn parse(cmd: Nl80211Command, payload: &[u8]) -> (r: Result<Self, Nl80211DecodeError>)
        ensures
            match r {
                Ok(m) => m.cmd == cmd && spec_parse_attrs(payload@, 0) == Ok::<
                    Seq<Record>,
                    Nl80211DecodeError,
                >(m@.attributes) && all_canonical(m.attributes@, 0),
                Err(e) => spec_parse_attrs(payload@, 0) == Err::<Seq<Record>, Nl80211DecodeError>(
                    e,
                ),
            },
    {
        let len: usize = payload.len();
        let mut out: Vec<Nl80211Attr> = Vec::new();
        let mut pos: usize = 0;
        proof {
            assert(payload@.skip(0) =~= payload@);
            assert(records_of(out@, 0) =~= Seq::<Record>::empty());
            match spec_parse_attrs(payload@, 0) {
                Ok(rs) => assert(Seq::<Record>::empty() + rs =~= rs),
                Err(_) => {},
            }
        }
        while pos < len
            invariant
                pos <= len,
                len == payload@.len(),
                all_canonical(out@, 0),
                spec_parse_attrs(payload@, 0) == prepend_attrs(
                    records_of(out@, 0),
                    spec_parse_attrs(payload@.skip(pos as int), out@.len()),
                ),
            decreases len - pos,
        {
            let ghost prefix = records_of(out@, 0);
            let index: usize = out.len();
            match next_nla(payload, pos) {
                None => {
                    return Err(
                        Nl80211DecodeError {
                            kind: crate::error::Nl80211ErrorKind::Malformed,
                            attr: None,
                            index: Some(index),
                        },
                    );
                },
                Some((nla, next)) => {
                    match Nl80211Attr::parse(nla.kind, nla.value.as_slice()) {
                        Err(e) => {
                            return Err(e);
                        },
                        Ok(attr) => {
                            let ghost r = attr@;
                            out.push(attr);
                            pos = next;
                            proof {
                                assert(records_of(out@, 0) =~= prefix + seq![r]);
                                match spec_parse_attrs(payload@.skip(pos as int), out@.len()) {
                                    Ok(rs) => assert((prefix + seq![r]) + rs =~= prefix + (seq![r]
                                        + rs)),
                                    Err(_) => {},
                                }
                            }
                        },
                    }
                },
            }
        }
        proof {
            assert(payload@.skip(len as int).len() == 0);
            assert(records_of(out@, 0) + Seq::<Record>::empty() =~= records_of(out@, 0));
        }
        Ok(Nl80211Message { cmd, attributes: out })
    }
}

/// The attributes of `attrs` whose being the variant of the given kind is as
/// `keep` says, in their order.
pub fn select(attrs: Vec<Nl80211Attr>, kind: u16, keep: bool) -> (r: Vec<Nl80211Attr>)
    ensures
        r@ == select_variant(attrs@, kind, keep),
{
    let ghost all = attrs@;
    // the attributes are moved, not copied: they are taken from the end, which
    // turns their order, and taken from the end again, which turns it back
    let mut rest: Vec<Nl80211Attr> = attrs;
    let mut reversed: Vec<Nl80211Attr> = Vec::new();
    while rest.len() > 0
        invariant
            rest@.len() + reversed@.len() == all.len(),
            forall|i: int| 0 <= i < rest@.len() ==> rest@[i] == all[i],
            forall|i: int|
                0 <= i < reversed@.len() ==> reversed@[i] == all[all.len() - 1 - i],
        decreases rest.len(),
    {
        match rest.pop() {
            Some(a) => reversed.push(a),
            None => {},
        }
    }
    let mut out: Vec<Nl80211Attr> = Vec::new();
    proof {
        assert(all.skip(0) =~= all);
        assert(out@ + select_variant(all, kind, keep) =~= select_variant(all, kind, keep));
    }
    while reversed.len() > 0
        invariant
            reversed@.len() <= all.len(),
            forall|i: int|
                0 <= i < reversed@.len() ==> reversed@[i] == all[all.len() - 1 - i],
            out@ + select_variant(all.skip(all.len() - reversed@.len()), kind, keep) == select_variant(
                all,
                kind,
                keep,
            ),
        decreases reversed.len(),
    {
        let ghost at = all.len() - reversed@.len();
        let ghost before = out@;
        proof {
            assert(all.skip(at)[0] == all[at]);
            assert(all.skip(at).drop_first() =~= all.skip(at + 1));
        }
        match reversed.pop() {
            Some(a) => {
                assert(a == all[at]);
                if a.is_variant(kind) == keep {
                    out.push(a);
                    proof {
                        let tail = select_variant(all.skip(at + 1), kind, keep);
                        assert((before + seq![a]) + tail =~= before + (seq![a] + tail));
                    }
                }
            },
            None => {},
        }
    }
    proof {
        assert(all.skip(all.len() as int) =~= Seq::<Nl80211Attr>::empty());
        assert(out@ + Seq::<Nl80211Attr>::empty() =~= out@);
    }
    out
}

/// The attributes of a message are read back from its bytes, in the same
/// order: each of them conforms to the table of kinds.
pub proof fn lemma_records_roundtrip(attrs: Seq<Record>, index: nat)
    requires
        records_conform(Namespace::Attr, attrs, index),
    ensures
        spec_parse_attrs(records_bytes(attrs), index) == Ok::<Seq<Record>, Nl80211DecodeError>(
            attrs,
        ),
    decreases attrs,
{
    if attrs.len() == 0 {
        assert(attrs =~= Seq::<Record>::empty());
    } else {
        let r = attrs[0];
        let vb = crate::wire::value_bytes(r.value);
        let rest = records_bytes(attrs.drop_first());
        assert(record_conforms(Namespace::Attr, index, r));
        assert(records_conform(Namespace::Attr, attrs.drop_first(), index + 1));
        crate::wire::lemma_value_bytes_len(r.value);
        crate::nla::lemma_frame_roundtrip(r.kind, vb, rest);
        let b = records_bytes(attrs);
        assert(b.len() > 0);
        Nl80211Attr::lemma_record_roundtrip(r);
        lemma_records_roundtrip(attrs.drop_first(), index + 1);
        assert(after_first_frame(b) == rest);
        assert(seq![r] + attrs.drop_first() =~= attrs);
    }
}

} // verus!
