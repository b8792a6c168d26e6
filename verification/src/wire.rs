// SPDX-License-Identifier: MIT

//! The wire model: what a record says, apart from the type that holds it in
//! memory, and how a value of each shape is written and read.

use vstd::prelude::*;
use vstd::utf8::encode_utf8;

use crate::bytes::{
    host_u32, host_u32_bytes, host_u16_bytes, host_u64_bytes, spec_decode_string, spec_decode_u16,
    spec_decode_u32, spec_decode_u64, spec_decode_u8, spec_encode_string,
};
use crate::error::{Nl80211ErrorKind, Nl80211ListError};
use crate::nla::{
    after_first_frame, first_frame, frame_bytes, frame_ok, nla_align, nla_emitted_type, nla_type,
    Frame, NLA_MAX_VALUE_LEN,
};
use crate::schema::Namespace;

verus! {

/// The content of a record.
pub enum Value {
    U8(u8),
    U16(u16),
    U32(u32),
    U64(u64),
    /// Text, written with a terminating zero byte.
    Text(Seq<char>),
    /// Bytes that are written as they are.
    Bytes(Seq<u8>),
    /// Nothing: the presence of the record is what it says.
    Flag,
    /// 32-bit integers, written one after the other.
    Words(Seq<u32>),
    /// Records, written one after the other.
    List(Seq<Record>),
}

/// A record: its kind within the namespace of the list that holds it, and
/// its content.
pub struct Record {
    pub kind: u16,
    pub value: Value,
}

/// How the value of a record is laid out.
pub enum Shape {
    U8,
    U16,
    U32,
    U64,
    /// One byte that is read as 0 or 1.
    Bool,
    /// The first byte of a value that is not empty.
    FirstByte,
    Text,
    /// Any bytes.
    Bytes,
    /// Exactly so many bytes.
    Fixed(nat),
    /// A value that is not read.
    Flag,
    /// 32-bit integers; up to three bytes behind the last one are not read.
    Words,
    /// Records of the given namespace.
    List(Namespace),
}

/// Number of bytes of a value.
pub open spec fn value_size(v: Value) -> nat
    decreases v,
{
    match v {
        Value::U8(_) => 1,
        Value::U16(_) => 2,
        Value::U32(_) => 4,
        Value::U64(_) => 8,
        Value::Text(s) => encode_utf8(s).len() + 1,
        Value::Bytes(b) => b.len(),
        Value::Flag => 0,
        Value::Words(w) => 4 * w.len(),
        Value::List(rs) => records_size(rs),
    }
}

/// Number of bytes of a list of records, each with its header and padding.
pub open spec fn records_size(rs: Seq<Record>) -> nat
    decreases rs,
{
    if rs.len() == 0 {
        0
    } else {
        (nla_align(value_size(rs[0].value) as int) + 4 + records_size(rs.drop_first())) as nat
    }
}

/// The bytes of 32-bit integers in host byte order.
pub open spec fn words_bytes(w: Seq<u32>) -> Seq<u8>
    decreases w.len(),
{
    if w.len() == 0 {
        Seq::<u8>::empty()
    } else {
        host_u32_bytes(w[0]) + words_bytes(w.drop_first())
    }
}

/// The 32-bit integers that a buffer holds.
pub open spec fn words_of(b: Seq<u8>) -> Seq<u32>
    decreases b.len(),
{
    if b.len() < 4 {
        Seq::<u32>::empty()
    } else {
        seq![host_u32(b.subrange(0, 4))] + words_of(b.skip(4))
    }
}

/// The bytes of a value.
pub open spec fn value_bytes(v: Value) -> Seq<u8>
    decreases v,
{
    match v {
        Value::U8(x) => seq![x],
        Value::U16(x) => host_u16_bytes(x),
        Value::U32(x) => host_u32_bytes(x),
        Value::U64(x) => host_u64_bytes(x),
        Value::Text(s) => spec_encode_string(s),
        Value::Bytes(b) => b,
        Value::Flag => Seq::<u8>::empty(),
        Value::Words(w) => words_bytes(w),
        Value::List(rs) => records_bytes(rs),
    }
}

/// The bytes of a list of records.
pub open spec fn records_bytes(rs: Seq<Record>) -> Seq<u8>
    decreases rs,
{
    if rs.len() == 0 {
        Seq::<u8>::empty()
    } else {
        frame_bytes(rs[0].kind, value_bytes(rs[0].value)) + records_bytes(rs.drop_first())
    }
}

/// Whether a value can be written: no record inside it, at any depth, has a
/// value longer than the length field of a header can tell.
pub open spec fn encodable(v: Value) -> bool
    decreases v,
{
    match v {
        Value::List(rs) => records_encodable(rs),
        _ => true,
    }
}

/// Whether each record of a list can be written.
pub open spec fn records_encodable(rs: Seq<Record>) -> bool
    decreases rs,
{
    rs.len() == 0 || (value_size(rs[0].value) <= NLA_MAX_VALUE_LEN && encodable(rs[0].value)
        && records_encodable(rs.drop_first()))
}

/// What reading `b` as a value of the given shape gives.
pub open spec fn decode_value(shape: Shape, b: Seq<u8>) -> Result<Value, Nl80211ErrorKind>
    decreases b.len(), 1int,
{
    match shape {
        Shape::U8 => match spec_decode_u8(b) {
            Ok(x) => Ok(Value::U8(x)),
            Err(e) => Err(e),
        },
        Shape::U16 => match spec_decode_u16(b) {
            Ok(x) => Ok(Value::U16(x)),
            Err(e) => Err(e),
        },
        Shape::U32 => match spec_decode_u32(b) {
            Ok(x) => Ok(Value::U32(x)),
            Err(e) => Err(e),
        },
        Shape::U64 => match spec_decode_u64(b) {
            Ok(x) => Ok(Value::U64(x)),
            Err(e) => Err(e),
        },
        Shape::Bool => match spec_decode_u8(b) {
            Ok(x) => Ok(Value::U8(if x > 0 { 1u8 } else { 0u8 })),
            Err(e) => Err(e),
        },
        Shape::FirstByte => if b.len() == 0 {
            Err(Nl80211ErrorKind::Truncated)
        } else {
            Ok(Value::U8(b[0]))
        },
        Shape::Text => match spec_decode_string(b) {
            Ok(s) => Ok(Value::Text(s)),
            Err(e) => Err(e),
        },
        Shape::Bytes => Ok(Value::Bytes(b)),
        Shape::Fixed(n) => if b.len() != n {
            Err(Nl80211ErrorKind::WrongLength)
        } else {
            Ok(Value::Bytes(b))
        },
        Shape::Flag => Ok(Value::Flag),
        Shape::Words => Ok(Value::Words(words_of(b))),
        Shape::List(ns) => match decode_records(ns, b, 0) {
            Ok(rs) => Ok(Value::List(rs)),
            Err(e) => Err(e.kind),
        },
    }
}

/// What reading one framed record of a list gives. A kind that the namespace
/// does not know is no error: the record is kept as it came, type field and
/// bytes.
pub open spec fn decode_record(ns: Namespace, index: nat, f: Frame) -> Result<
    Record,
    Nl80211ErrorKind,
>
    decreases f.value.len(), 2int,
{
    match ns.shape(nla_type(f.kind)) {
        Some(shape) => match decode_value(shape, f.value) {
            Ok(v) => Ok(Record { kind: ns.record_kind(index, f.kind), value: v }),
            Err(e) => Err(e),
        },
        None => Ok(Record { kind: f.kind, value: Value::Bytes(f.value) }),
    }
}

/// What reading `b` as a list of records gives, where `index` is the position
/// of the first of them. The first record that cannot be read ends it.
pub open spec fn decode_records(ns: Namespace, b: Seq<u8>, index: nat) -> Result<
    Seq<Record>,
    Nl80211ListError,
>
    decreases b.len(), 0int,
{
    if b.len() == 0 {
        Ok(Seq::<Record>::empty())
    } else if !frame_ok(b) {
        Err(Nl80211ListError { kind: Nl80211ErrorKind::Malformed, index: index as usize })
    } else {
        match decode_record(ns, index, first_frame(b)) {
            Err(e) => Err(Nl80211ListError { kind: e, index: index as usize }),
            Ok(r) => match decode_records(ns, after_first_frame(b), index + 1) {
                Err(e) => Err(e),
                Ok(rs) => Ok(seq![r] + rs),
            },
        }
    }
}

/// Whether a value is one that reading the given shape can give, and can be
/// written.
pub open spec fn conforms(shape: Shape, v: Value) -> bool
    decreases v, 0int,
{
    match shape {
        Shape::U8 => v is U8,
        Shape::U16 => v is U16,
        Shape::U32 => v is U32,
        Shape::U64 => v is U64,
        Shape::Bool => v matches Value::U8(x) && x <= 1,
        Shape::FirstByte => v is U8,
        Shape::Text => v is Text,
        Shape::Bytes => v is Bytes,
        Shape::Fixed(n) => v matches Value::Bytes(b) && b.len() == n,
        Shape::Flag => v is Flag,
        Shape::Words => v is Words,
        Shape::List(ns) => v matches Value::List(rs) && records_conform(ns, rs, 0),
    }
}

/// Whether a record is one that reading the given namespace can give at the
/// given position: its value conforms to the shape of its kind, and its kind
/// is the one that is read from the type field that is written for it. A
/// record of a kind that is not known holds bytes, and its type field is
/// written as it is.
pub open spec fn record_matches(ns: Namespace, index: nat, r: Record) -> bool
    decreases r, 0int,
{
    match ns.shape(nla_type(r.kind)) {
        Some(shape) => conforms(shape, r.value) && ns.record_kind(index, nla_emitted_type(r.kind))
            == r.kind,
        None => r.value is Bytes && nla_emitted_type(r.kind) == r.kind,
    }
}

/// Whether a record is one that reading a list of the given namespace can
/// give at the given position, and can be written in a list.
pub open spec fn record_conforms(ns: Namespace, index: nat, r: Record) -> bool
    decreases r, 1int,
{
    value_size(r.value) <= NLA_MAX_VALUE_LEN && record_matches(ns, index, r)
}

/// Whether each record of a list conforms, the first at `index`.
pub open spec fn records_conform(ns: Namespace, rs: Seq<Record>, index: nat) -> bool
    decreases rs, 0int,
{
    rs.len() == 0 || (record_conforms(ns, index, rs[0]) && records_conform(
        ns,
        rs.drop_first(),
        index + 1,
    ))
}

/// The bytes of a value are as many as its size says.
pub proof fn lemma_value_bytes_len(v: Value)
    ensures
        value_bytes(v).len() == value_size(v),
    decreases v,
{
    match v {
        Value::U16(x) => crate::bytes::lemma_host_u16_roundtrip(x),
        Value::U32(x) => crate::bytes::lemma_host_u32_roundtrip(x),
        Value::U64(x) => crate::bytes::lemma_host_u64_roundtrip(x),
        Value::Words(w) => lemma_words_bytes_len(w),
        Value::List(rs) => lemma_records_bytes_len(rs),
        _ => {},
    }
}

/// The bytes of a list of records are as many as its size says.
pub proof fn lemma_records_bytes_len(rs: Seq<Record>)
    ensures
        records_bytes(rs).len() == records_size(rs),
    decreases rs,
{
    if rs.len() > 0 {
        lemma_value_bytes_len(rs[0].value);
        lemma_records_bytes_len(rs.drop_first());
        crate::bytes::lemma_host_u16_roundtrip((value_bytes(rs[0].value).len() + 4) as u16);
        crate::bytes::lemma_host_u16_roundtrip(nla_emitted_type(rs[0].kind));
    }
}

/// The bytes of a list of words are four for each.
pub proof fn lemma_words_bytes_len(w: Seq<u32>)
    ensures
        words_bytes(w).len() == 4 * w.len(),
    decreases w.len(),
{
    if w.len() > 0 {
        crate::bytes::lemma_host_u32_roundtrip(w[0]);
        lemma_words_bytes_len(w.drop_first());
    }
}

/// Reading the bytes of a list of words gives the words.
pub proof fn lemma_words_roundtrip(w: Seq<u32>)
    ensures
        words_of(words_bytes(w)) == w,
    decreases w.len(),
{
    if w.len() > 0 {
        let b = words_bytes(w);
        crate::bytes::lemma_host_u32_roundtrip(w[0]);
        lemma_words_bytes_len(w.drop_first());
        assert(b.subrange(0, 4) =~= host_u32_bytes(w[0]));
        assert(b.skip(4) =~= words_bytes(w.drop_first()));
        lemma_words_roundtrip(w.drop_first());
        assert(seq![w[0]] + w.drop_first() =~= w);
    } else {
        assert(words_of(words_bytes(w)) =~= w);
    }
}

/// Reading what was written gives what was written: a value that conforms to
/// a shape is read back from its bytes.
pub proof fn lemma_value_roundtrip(shape: Shape, v: Value)
    requires
        conforms(shape, v),
    ensures
        decode_value(shape, value_bytes(v)) == Ok::<Value, Nl80211ErrorKind>(v),
    decreases v,
{
    match v {
        Value::U8(x) => {},
        Value::U16(x) => crate::bytes::lemma_host_u16_roundtrip(x),
        Value::U32(x) => crate::bytes::lemma_host_u32_roundtrip(x),
        Value::U64(x) => crate::bytes::lemma_host_u64_roundtrip(x),
        Value::Text(s) => crate::bytes::lemma_string_roundtrip(s),
        Value::Bytes(b) => {},
        Value::Flag => {},
        Value::Words(w) => lemma_words_roundtrip(w),
        Value::List(rs) => {
            let ns = shape->List_0;
            lemma_records_roundtrip(ns, rs, 0);
        },
    }
}

/// A list of records that conform is read back from its bytes, in the same
/// order and with the same kinds.
pub proof fn lemma_records_roundtrip(ns: Namespace, rs: Seq<Record>, index: nat)
    requires
        records_conform(ns, rs, index),
    ensures
        decode_records(ns, records_bytes(rs), index) == Ok::<Seq<Record>, Nl80211ListError>(rs),
    decreases rs,
{
    if rs.len() == 0 {
        assert(rs =~= Seq::<Record>::empty());
    } else {
        let r = rs[0];
        let vb = value_bytes(r.value);
        let rest = records_bytes(rs.drop_first());
        assert(record_conforms(ns, index, r));
        assert(records_conform(ns, rs.drop_first(), index + 1));
        lemma_value_bytes_len(r.value);
        crate::nla::lemma_frame_roundtrip(r.kind, vb, rest);
        crate::nla::lemma_emitted_type_kind(r.kind);
        let b = records_bytes(rs);
        assert(b.len() > 0);
        assert(first_frame(b) == Frame { kind: nla_emitted_type(r.kind), value: vb });
        match ns.shape(nla_type(r.kind)) {
            Some(shape) => {
                lemma_value_roundtrip(shape, r.value);
            },
            None => {},
        }
        assert(decode_record(ns, index, first_frame(b)) == Ok::<Record, Nl80211ErrorKind>(r));
        lemma_records_roundtrip(ns, rs.drop_first(), index + 1);
        assert(after_first_frame(b) == rest);
        assert(frame_ok(b));
        assert(seq![r] + rs.drop_first() =~= rs);
    }
}

} // verus!
