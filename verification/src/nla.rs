// SPDX-License-Identifier: MIT

//! The framing of records: a header of two 16-bit integers in host byte
//! order, the length of header and value and then the type, followed by the
//! value and by zero bytes up to the next multiple of four.

use netlink_packet_utils::nla::{DefaultNla, NlaBuffer};
use netlink_packet_utils::{DecodeError, Emitable};
use vstd::prelude::*;
use vstd::slice::slice_subrange;

use crate::bytes::{host_u16, host_u16_bytes};

verus! {

/// The bit of the type field that marks a value made of records.
pub const NLA_F_NESTED: u16 = 0x8000;

/// The bit of the type field that marks a value in network byte order.
pub const NLA_F_NET_BYTEORDER: u16 = 0x4000;

/// The bits of the type field that hold the kind.
pub const NLA_TYPE_MASK: u16 = 0x3FFF;

/// Records start at multiples of this many bytes.
pub const NLA_ALIGNTO: usize = 4;

/// Size of a record's header.
pub const NLA_HEADER_SIZE: usize = 4;

/// The longest value that a record can hold: its length and the header's
/// must fit the 16-bit length field.
pub const NLA_MAX_VALUE_LEN: usize = 0xFFFB;

/// The kind that a type field selects: the field without its two flag bits.
pub open spec fn nla_type(kind: u16) -> u16 {
    kind & NLA_TYPE_MASK
}

/// `len` rounded up to a multiple of four.
pub open spec fn nla_align(len: int) -> int {
    (len + 3) / 4 * 4
}

/// The type field that is written for `kind`. A kind that has the nested
/// flag is written without the byte order flag.
pub open spec fn nla_emitted_type(kind: u16) -> u16 {
    if kind & NLA_F_NESTED != 0 {
        kind & !NLA_F_NET_BYTEORDER
    } else {
        kind
    }
}

/// Whether a type field is written as it is.
pub open spec fn nla_type_is_stable(kind: u16) -> bool {
    nla_emitted_type(kind) == kind
}

/// A record as it is framed: its type field and the bytes of its value.
pub struct Frame {
    pub kind: u16,
    pub value: Seq<u8>,
}

/// `n` zero bytes.
pub open spec fn zeros(n: int) -> Seq<u8> {
    Seq::new(n as nat, |i: int| 0u8)
}

/// The bytes of one record: header, value, padding.
pub open spec fn frame_bytes(kind: u16, value: Seq<u8>) -> Seq<u8>
    recommends
        value.len() <= NLA_MAX_VALUE_LEN,
{
    host_u16_bytes((value.len() + 4) as u16) + host_u16_bytes(nla_emitted_type(kind)) + value
        + zeros(nla_align(value.len() as int) - value.len())
}

/// The length field of the record at the start of `b`.
pub open spec fn frame_length(b: Seq<u8>) -> int
    recommends
        b.len() >= 4,
{
    host_u16(b.subrange(0, 2)) as int
}

/// Whether `b` starts with a record: it holds a header, and the length in
/// that header covers the header and does not pass the end of `b`.
pub open spec fn frame_ok(b: Seq<u8>) -> bool {
    b.len() >= 4 && 4 <= frame_length(b) <= b.len()
}

/// The record at the start of `b`.
pub open spec fn first_frame(b: Seq<u8>) -> Frame
    recommends
        frame_ok(b),
{
    Frame { kind: host_u16(b.subrange(2, 4)), value: b.subrange(4, frame_length(b)) }
}

/// What follows the record at the start of `b`, padding skipped. The last
/// record of a buffer may lack its padding.
pub open spec fn after_first_frame(b: Seq<u8>) -> Seq<u8>
    recommends
        frame_ok(b),
{
    if nla_align(frame_length(b)) >= b.len() {
        Seq::<u8>::empty()
    } else {
        b.skip(nla_align(frame_length(b)))
    }
}

/// The records that `b` starts with, up to its end or to the first header
/// that does not fit.
pub open spec fn frames(b: Seq<u8>) -> Seq<Frame>
    decreases b.len(),
{
    if b.len() == 0 || !frame_ok(b) {
        Seq::<Frame>::empty()
    } else {
        seq![first_frame(b)] + frames(after_first_frame(b))
    }
}

/// Whether `b` is made of records from its first byte to its last.
pub open spec fn frames_complete(b: Seq<u8>) -> bool
    decreases b.len(),
{
    if b.len() == 0 {
        true
    } else if !frame_ok(b) {
        false
    } else {
        frames_complete(after_first_frame(b))
    }
}

/// A record whose value is not interpreted: the type field, flags included,
/// and the bytes of the value.
#[derive(Debug, Clone, PartialEq, Eq)]
pub struct RawNla {
    pub kind: u16,
    pub value: Vec<u8>,
}

impl View for RawNla {
    type V = Frame;

    open spec fn view(&self) -> Frame {
        Frame { kind: self.kind, value: self.value@ }
    }
}

/// The frames that a sequence of raw records stands for.
pub open spec fn frames_of(v: Seq<RawNla>) -> Seq<Frame> {
    Seq::new(v.len(), |i: int| v[i]@)
}

impl RawNla {
    /// A raw record of the given type field and value.
    pub fn new(kind: u16, value: Vec<u8>) -> (r: Self)
        ensures
            r@ == (Frame { kind, value: value@ }),
    {
        RawNla { kind, value }
    }

    /// The kind: the type field without its flags.
    pub fn kind(&self) -> (k: u16)
        ensures
            k == nla_type(self@.kind),
    {
        self.kind & NLA_TYPE_MASK
    }

    /// Whether the type field has the nested flag.
    pub fn is_nested(&self) -> (b: bool)
        ensures
            b == (self@.kind & NLA_F_NESTED != 0),
    {
        self.kind & NLA_F_NESTED != 0
    }

    /// Whether the type field has the byte order flag.
    pub fn is_network_byteorder(&self) -> (b: bool)
        ensures
            b == (self@.kind & NLA_F_NET_BYTEORDER != 0),
    {
        self.kind & NLA_F_NET_BYTEORDER != 0
    }

    /// Length of the value.
    pub fn value_len(&self) -> (n: usize)
        ensures
            n == self@.value.len(),
    {
        self.value.len()
    }
}

/// `NlaBuffer::new_checked` accepts a buffer exactly when it starts with a
/// record: when it holds a header whose length field covers the header and
/// does not pass the end of the buffer.
#[verifier::external_body]
fn nla_check(buffer: &[u8]) -> (r: Result<(), DecodeError>)
    ensures
        r is Ok <==> frame_ok(buffer@),
{
    NlaBuffer::new_checked(buffer)?;
    Ok(())
}

/// `NlaBuffer::kind` gives the type field of the header without its two flag
/// bits. It reads the third and the fourth byte of the buffer.
#[verifier::external_body]
fn nla_kind(buffer: &[u8]) -> (k: u16)
    requires
        buffer@.len() >= 4,
    ensures
        k == nla_type(host_u16(buffer@.subrange(2, 4))),
{
    NlaBuffer::new(buffer).kind()
}

/// `NlaBuffer::nested_flag` tells whether the type field of the header has
/// the nested flag.
#[verifier::external_body]
fn nla_nested_flag(buffer: &[u8]) -> (b: bool)
    requires
        buffer@.len() >= 4,
    ensures
        b == (host_u16(buffer@.subrange(2, 4)) & NLA_F_NESTED != 0),
{
    NlaBuffer::new(buffer).nested_flag()
}

/// `NlaBuffer::network_byte_order_flag` tells whether the type field of the
/// header has the byte order flag.
#[verifier::external_body]
fn nla_network_byte_order_flag(buffer: &[u8]) -> (b: bool)
    requires
        buffer@.len() >= 4,
    ensures
        b == (host_u16(buffer@.subrange(2, 4)) & NLA_F_NET_BYTEORDER != 0),
{
    NlaBuffer::new(buffer).network_byte_order_flag()
}

/// `NlaBuffer::value` gives the bytes between the header and the end that
/// the length field tells. The buffer must start with a record.
#[verifier::external_body]
fn nla_value(buffer: &[u8]) -> (value: Vec<u8>)
    requires
        frame_ok(buffer@),
    ensures
        value@ == buffer@.subrange(4, frame_length(buffer@)),
{
    NlaBuffer::new(buffer).value().to_vec()
}

/// `Emitable::emit` of a `DefaultNla` writes the header, the value and the
/// padding of one record into a buffer of the size of the record. The length
/// field holds the length of header and value; a kind that has the nested
/// flag is written without the byte order flag.
#[verifier::external_body]
fn emit_nla(kind: u16, value: &[u8], size: usize) -> (r: Vec<u8>)
    requires
        value@.len() <= NLA_MAX_VALUE_LEN,
        size == nla_align(value@.len() as int) + 4,
    ensures
        r@ == frame_bytes(kind, value@),
{
    let mut buffer = vec![0u8; size];
    DefaultNla::new(kind, value.to_vec()).emit(&mut buffer);
    buffer
}

/// A type field is made of the kind that it selects and of its two flags.
proof fn lemma_type_field(field: u16)
    ensures
        field & NLA_F_NET_BYTEORDER != 0 && field & NLA_F_NESTED != 0 ==> (nla_type(field)
            | NLA_F_NET_BYTEORDER) | NLA_F_NESTED == field,
        field & NLA_F_NET_BYTEORDER != 0 && field & NLA_F_NESTED == 0 ==> nla_type(field)
            | NLA_F_NET_BYTEORDER == field,
        field & NLA_F_NET_BYTEORDER == 0 && field & NLA_F_NESTED != 0 ==> nla_type(field)
            | NLA_F_NESTED == field,
        field & NLA_F_NET_BYTEORDER == 0 && field & NLA_F_NESTED == 0 ==> nla_type(field) == field,
{
    assert(field & 0x4000 != 0 && field & 0x8000 != 0 ==> ((field & 0x3FFF) | 0x4000) | 0x8000
        == field) by (bit_vector);
    assert(field & 0x4000 != 0 && field & 0x8000 == 0 ==> (field & 0x3FFF) | 0x4000 == field)
        by (bit_vector);
    assert(field & 0x4000 == 0 && field & 0x8000 != 0 ==> (field & 0x3FFF) | 0x8000 == field)
        by (bit_vector);
    assert(field & 0x4000 == 0 && field & 0x8000 == 0 ==> field & 0x3FFF == field)
        by (bit_vector);
}

/// Reads the record at the start of a buffer: its type field, with the
/// flags, and a copy of its value. Gives `None` where the buffer does not
/// start with a record.
fn read_nla(buffer: &[u8]) -> (r: Option<RawNla>)
    ensures
        r is Some <==> frame_ok(buffer@),
        r is Some ==> r->Some_0@ == first_frame(buffer@),
{
    match nla_check(buffer) {
        Err(_) => None,
        Ok(_) => {
            proof {
                lemma_type_field(host_u16(buffer@.subrange(2, 4)));
            }
            let mut kind: u16 = nla_kind(buffer);
            if nla_network_byte_order_flag(buffer) {
                kind = kind | NLA_F_NET_BYTEORDER;
            }
            if nla_nested_flag(buffer) {
                kind = kind | NLA_F_NESTED;
            }
            Some(RawNla { kind, value: nla_value(buffer) })
        },
    }
}

/// The size of a record whose value has `value_len` bytes: header, value and
/// padding.
pub fn nla_buffer_len(value_len: usize) -> (n: usize)
    requires
        nla_align(value_len as int) + 4 <= usize::MAX,
    ensures
        n == nla_align(value_len as int) + 4,
{
    let rem: usize = value_len % NLA_ALIGNTO;
    if rem == 0 {
        value_len + NLA_HEADER_SIZE
    } else {
        value_len + (NLA_ALIGNTO - rem) + NLA_HEADER_SIZE
    }
}

/// Appends to `out` the record of type field `kind` and value `value`.
pub fn push_nla(out: &mut Vec<u8>, kind: u16, value: &[u8])
    requires
        value@.len() <= NLA_MAX_VALUE_LEN,
    ensures
        final(out)@ == old(out)@ + frame_bytes(kind, value@),
{
    let record: Vec<u8> = emit_nla(kind, value, nla_buffer_len(value.len()));
    out.extend_from_slice(record.as_slice());
}

/// `len` rounded up to a multiple of four.
pub fn align_up(len: usize) -> (n: usize)
    requires
        len + 3 <= usize::MAX,
    ensures
        n == nla_align(len as int),
{
    (len + 3) / NLA_ALIGNTO * NLA_ALIGNTO
}

/// Reads the record that starts at `pos`. Gives the record and the position
/// of the next one, or `None` where no record starts at `pos`: at the end of
/// the buffer or behind it, or where the header does not fit.
pub fn next_nla(payload: &[u8], pos: usize) -> (r: Option<(RawNla, usize)>)
    ensures
        r is Some <==> pos < payload@.len() && frame_ok(payload@.skip(pos as int)),
        match r {
            Some((nla, next)) => {
                &&& nla@ == first_frame(payload@.skip(pos as int))
                &&& pos < next <= payload@.len()
                &&& payload@.skip(next as int) == after_first_frame(payload@.skip(pos as int))
            },
            None => true,
        },
{
    let len: usize = payload.len();
    if pos >= len {
        return None;
    }
    let rest: &[u8] = slice_subrange(payload, pos, len);
    assert(rest@ == payload@.skip(pos as int));
    match read_nla(rest) {
        None => None,
        Some(nla) => {
            assert(nla.value@.len() + 4 == frame_length(rest@));
            let step: usize = align_up(nla.value.len() + NLA_HEADER_SIZE);
            if step >= len - pos {
                assert(after_first_frame(rest@) =~= payload@.skip(len as int));
                Some((nla, len))
            } else {
                assert(rest@.skip(step as int) =~= payload@.skip(pos + step));
                Some((nla, pos + step))
            }
        },
    }
}

/// Splits a buffer into the records that it holds. The flag tells whether the
/// whole buffer was made of records; where it is false, the records before
/// the first header that does not fit are returned.
pub fn split_nlas(payload: &[u8]) -> (r: (Vec<RawNla>, bool))
    ensures
        frames_of(r.0@) == frames(payload@),
        r.1 == frames_complete(payload@),
{
    let len: usize = payload.len();
    let mut out: Vec<RawNla> = Vec::new();
    let mut pos: usize = 0;
    let mut complete: bool = true;
    proof {
        assert(payload@.skip(0) =~= payload@);
        assert(frames_of(out@) + frames(payload@) =~= frames(payload@));
    }
    while pos < len
        invariant_except_break
            complete,
        invariant
            pos <= len,
            len == payload@.len(),
            frames(payload@) == frames_of(out@) + frames(payload@.skip(pos as int)),
            frames_complete(payload@) == frames_complete(payload@.skip(pos as int)),
        ensures
            complete ==> pos == len,
            !complete ==> !frames_complete(payload@) && frames(payload@.skip(pos as int)).len()
                == 0,
        decreases len - pos,
    {
        let ghost rest = payload@.skip(pos as int);
        match next_nla(payload, pos) {
            None => {
                complete = false;
                break ;
            },
            Some((nla, next)) => {
                let ghost before = frames_of(out@);
                out.push(nla);
                pos = next;
                proof {
                    assert(frames_of(out@) =~= before + seq![first_frame(rest)]);
                    assert(frames_of(out@) + frames(payload@.skip(pos as int)) =~= before + (
                    seq![first_frame(rest)] + frames(payload@.skip(pos as int))));
                }
            },
        }
    }
    proof {
        if complete {
            assert(payload@.skip(len as int).len() == 0);
        }
        assert(frames_of(out@) + Seq::<Frame>::empty() =~= frames_of(out@));
    }
    (out, complete)
}

/// A kind below 0x4000 has no flag: it is its own type field, and is written
/// as it is.
pub proof fn lemma_plain_kind(kind: u16)
    requires
        kind <= NLA_TYPE_MASK,
    ensures
        nla_type(kind) == kind,
        nla_emitted_type(kind) == kind,
{
    assert(kind <= 0x3FFF ==> kind & 0x3FFF == kind && kind & 0x8000 == 0) by (bit_vector);
}

/// The kind that a type field selects is below 0x4000.
pub proof fn lemma_nla_type_bound(kind: u16)
    ensures
        nla_type(kind) <= NLA_TYPE_MASK,
        nla_type(nla_type(kind)) == nla_type(kind),
{
    assert(kind & 0x3FFF <= 0x3FFF && (kind & 0x3FFF) & 0x3FFF == kind & 0x3FFF) by (bit_vector);
}

/// The type field that is written selects the kind that the given one
/// selects.
pub proof fn lemma_emitted_type_kind(kind: u16)
    ensures
        nla_type(nla_emitted_type(kind)) == nla_type(kind),
{
    assert((kind & !0x4000u16) & 0x3FFF == kind & 0x3FFF) by (bit_vector);
}

/// A record that was written is read back: it is found at the start of the
/// buffer with the type field that was written and the same value, and what
/// follows it is what was written behind it.
pub proof fn lemma_frame_roundtrip(kind: u16, value: Seq<u8>, rest: Seq<u8>)
    requires
        value.len() <= NLA_MAX_VALUE_LEN,
    ensures
        frame_bytes(kind, value).len() == nla_align(value.len() as int) + 4,
        frame_ok(frame_bytes(kind, value) + rest),
        first_frame(frame_bytes(kind, value) + rest) == (Frame {
            kind: nla_emitted_type(kind),
            value,
        }),
        after_first_frame(frame_bytes(kind, value) + rest) == rest,
{
    let length: u16 = (value.len() + 4) as u16;
    let head = host_u16_bytes(length);
    let kind_bytes = host_u16_bytes(nla_emitted_type(kind));
    let pad = zeros(nla_align(value.len() as int) - value.len());
    let b = frame_bytes(kind, value) + rest;
    crate::bytes::lemma_host_u16_roundtrip(length);
    crate::bytes::lemma_host_u16_roundtrip(nla_emitted_type(kind));
    assert(b.subrange(0, 2) =~= head);
    assert(b.subrange(2, 4) =~= kind_bytes);
    assert(frame_length(b) == value.len() + 4);
    assert(b.subrange(4, frame_length(b)) =~= value);
    assert(nla_align(frame_length(b)) == nla_align(value.len() as int) + 4);
    assert(nla_align(frame_length(b)) == frame_bytes(kind, value).len());
    if nla_align(frame_length(b)) >= b.len() {
        assert(rest =~= Seq::<u8>::empty());
    } else {
        assert(b.skip(nla_align(frame_length(b))) =~= rest);
    }
}

} // verus!
