// SPDX-License-Identifier: MIT

//! The primitive field codec: integers in host byte order, strings with a
//! terminating zero byte, hardware addresses.

use netlink_packet_utils::parsers::{parse_string, parse_u16, parse_u32, parse_u64, parse_u8};
use netlink_packet_utils::DecodeError;
use vstd::prelude::*;
use vstd::utf8::{decode_utf8, encode_utf8, valid_utf8};

use crate::error::Nl80211ErrorKind;

verus! {

/// Length of a hardware address.
pub const ETH_ALEN: usize = 6;

/// `netlink_packet_utils::DecodeError`, the error of the parsers of that
/// crate. Nothing is said of what it holds.
#[verifier::external_type_specification]
#[verifier::external_body]
pub struct ExDecodeError(DecodeError);

/// Whether the machine that runs the code stores the least significant byte
/// of an integer first.
pub open spec fn host_is_little_endian() -> bool {
    vstd::endian::endianness() is Little
}

/// The little-endian reading of two bytes.
pub open spec fn le_u16(b: Seq<u8>) -> int
    recommends
        b.len() == 2,
{
    b[0] as int + 0x100 * (b[1] as int)
}

/// The two little-endian bytes of an integer below 2^16.
pub open spec fn le_u16_bytes(v: int) -> Seq<u8>
    recommends
        0 <= v < 0x1_0000,
{
    seq![(v % 0x100) as u8, (v / 0x100) as u8]
}

/// The little-endian reading of four bytes.
pub open spec fn le_u32(b: Seq<u8>) -> int
    recommends
        b.len() == 4,
{
    b[0] as int + 0x100 * (b[1] as int + 0x100 * (b[2] as int + 0x100 * (b[3] as int)))
}

/// The four little-endian bytes of an integer below 2^32.
pub open spec fn le_u32_bytes(v: int) -> Seq<u8>
    recommends
        0 <= v < 0x1_0000_0000,
{
    seq![
        (v % 0x100) as u8,
        (v / 0x100 % 0x100) as u8,
        (v / 0x100 / 0x100 % 0x100) as u8,
        (v / 0x100 / 0x100 / 0x100) as u8,
    ]
}

/// The little-endian reading of eight bytes.
pub open spec fn le_u64(b: Seq<u8>) -> int
    recommends
        b.len() == 8,
{
    le_u32(b.subrange(0, 4)) + 0x1_0000_0000 * le_u32(b.subrange(4, 8))
}

/// The eight little-endian bytes of an integer below 2^64.
pub open spec fn le_u64_bytes(v: int) -> Seq<u8>
    recommends
        0 <= v < 0x1_0000_0000_0000_0000,
{
    le_u32_bytes(v % 0x1_0000_0000) + le_u32_bytes(v / 0x1_0000_0000)
}

/// The bytes in the order in which a little-endian reader takes them: as they
/// stand on a little-endian host, reversed on a big-endian one.
pub open spec fn host_order(b: Seq<u8>) -> Seq<u8> {
    if host_is_little_endian() {
        b
    } else {
        b.reverse()
    }
}

/// The integer that two bytes hold in host byte order.
pub open spec fn host_u16(b: Seq<u8>) -> u16
    recommends
        b.len() == 2,
{
    le_u16(host_order(b)) as u16
}

/// The two bytes of an integer in host byte order.
pub open spec fn host_u16_bytes(v: u16) -> Seq<u8> {
    host_order(le_u16_bytes(v as int))
}

/// The integer that four bytes hold in host byte order.
pub open spec fn host_u32(b: Seq<u8>) -> u32
    recommends
        b.len() == 4,
{
    le_u32(host_order(b)) as u32
}

/// The four bytes of an integer in host byte order.
pub open spec fn host_u32_bytes(v: u32) -> Seq<u8> {
    host_order(le_u32_bytes(v as int))
}

/// The integer that eight bytes hold in host byte order.
pub open spec fn host_u64(b: Seq<u8>) -> u64
    recommends
        b.len() == 8,
{
    le_u64(host_order(b)) as u64
}

/// The eight bytes of an integer in host byte order.
pub open spec fn host_u64_bytes(v: u64) -> Seq<u8> {
    host_order(le_u64_bytes(v as int))
}

proof fn lemma_host_order_twice(b: Seq<u8>)
    ensures
        host_order(b).len() == b.len(),
        host_order(host_order(b)) == b,
{
    assert(host_order(host_order(b)) =~= b);
}

proof fn lemma_split_byte(q: int, r: int)
    requires
        0 <= r < 0x100,
    ensures
        (r + 0x100 * q) % 0x100 == r,
        (r + 0x100 * q) / 0x100 == q,
{
    vstd::arithmetic::div_mod::lemma_fundamental_div_mod_converse(r + 0x100 * q, 0x100, q, r);
}

proof fn lemma_split_word(q: int, r: int)
    requires
        0 <= r < 0x1_0000_0000,
    ensures
        (r + 0x1_0000_0000 * q) % 0x1_0000_0000 == r,
        (r + 0x1_0000_0000 * q) / 0x1_0000_0000 == q,
{
    vstd::arithmetic::div_mod::lemma_fundamental_div_mod_converse(
        r + 0x1_0000_0000 * q,
        0x1_0000_0000,
        q,
        r,
    );
}

proof fn lemma_le_u16_roundtrip(v: int)
    requires
        0 <= v < 0x1_0000,
    ensures
        le_u16_bytes(v).len() == 2,
        le_u16(le_u16_bytes(v)) == v,
{
}

proof fn lemma_le_u16_bytes_roundtrip(b: Seq<u8>)
    requires
        b.len() == 2,
    ensures
        0 <= le_u16(b) < 0x1_0000,
        le_u16_bytes(le_u16(b)) == b,
{
    lemma_split_byte(b[1] as int, b[0] as int);
    assert(le_u16_bytes(le_u16(b)) =~= b);
}

proof fn lemma_le_u32_roundtrip(v: int)
    requires
        0 <= v < 0x1_0000_0000,
    ensures
        le_u32_bytes(v).len() == 4,
        le_u32(le_u32_bytes(v)) == v,
{
    let a: int = v / 0x100;
    let b: int = a / 0x100;
    let c: int = b / 0x100;
    assert(v == v % 0x100 + 0x100 * a);
    assert(a == a % 0x100 + 0x100 * b);
    assert(b == b % 0x100 + 0x100 * c);
    assert(0 <= c < 0x100);
}

proof fn lemma_le_u32_bytes_roundtrip(b: Seq<u8>)
    requires
        b.len() == 4,
    ensures
        0 <= le_u32(b) < 0x1_0000_0000,
        le_u32_bytes(le_u32(b)) == b,
{
    let c: int = b[3] as int;
    let x: int = b[2] as int + 0x100 * c;
    let y: int = b[1] as int + 0x100 * x;
    let z: int = b[0] as int + 0x100 * y;
    lemma_split_byte(c, b[2] as int);
    lemma_split_byte(x, b[1] as int);
    lemma_split_byte(y, b[0] as int);
    assert(z == le_u32(b));
    assert(z / 0x100 == y);
    assert(y / 0x100 == x);
    assert(x / 0x100 == c);
    assert(le_u32_bytes(z) =~= b);
}

proof fn lemma_le_u64_roundtrip(v: int)
    requires
        0 <= v < 0x1_0000_0000_0000_0000,
    ensures
        le_u64_bytes(v).len() == 8,
        le_u64(le_u64_bytes(v)) == v,
{
    let lo: int = v % 0x1_0000_0000;
    let hi: int = v / 0x1_0000_0000;
    let b = le_u64_bytes(v);
    lemma_le_u32_roundtrip(lo);
    lemma_le_u32_roundtrip(hi);
    assert(b.subrange(0, 4) =~= le_u32_bytes(lo));
    assert(b.subrange(4, 8) =~= le_u32_bytes(hi));
    assert(v == lo + 0x1_0000_0000 * hi);
}

proof fn lemma_le_u64_bytes_roundtrip(b: Seq<u8>)
    requires
        b.len() == 8,
    ensures
        0 <= le_u64(b) < 0x1_0000_0000_0000_0000,
        le_u64_bytes(le_u64(b)) == b,
{
    let lo = le_u32(b.subrange(0, 4));
    let hi = le_u32(b.subrange(4, 8));
    lemma_le_u32_bytes_roundtrip(b.subrange(0, 4));
    lemma_le_u32_bytes_roundtrip(b.subrange(4, 8));
    lemma_split_word(hi, lo);
    assert(le_u64_bytes(le_u64(b)) =~= b.subrange(0, 4) + b.subrange(4, 8));
    assert(b.subrange(0, 4) + b.subrange(4, 8) =~= b);
}

/// Reading back the bytes of a 16-bit integer gives the integer.
pub proof fn lemma_host_u16_roundtrip(v: u16)
    ensures
        host_u16_bytes(v).len() == 2,
        host_u16(host_u16_bytes(v)) == v,
{
    lemma_le_u16_roundtrip(v as int);
    lemma_host_order_twice(le_u16_bytes(v as int));
}

/// Writing back the integer that two bytes hold gives the two bytes.
pub proof fn lemma_host_u16_bytes_roundtrip(b: Seq<u8>)
    requires
        b.len() == 2,
    ensures
        host_u16_bytes(host_u16(b)) == b,
{
    lemma_host_order_twice(b);
    lemma_le_u16_bytes_roundtrip(host_order(b));
}

/// Reading back the bytes of a 32-bit integer gives the integer.
pub proof fn lemma_host_u32_roundtrip(v: u32)
    ensures
        host_u32_bytes(v).len() == 4,
        host_u32(host_u32_bytes(v)) == v,
{
    lemma_le_u32_roundtrip(v as int);
    lemma_host_order_twice(le_u32_bytes(v as int));
}

/// Writing back the integer that four bytes hold gives the four bytes.
pub proof fn lemma_host_u32_bytes_roundtrip(b: Seq<u8>)
    requires
        b.len() == 4,
    ensures
        host_u32_bytes(host_u32(b)) == b,
{
    lemma_host_order_twice(b);
    lemma_le_u32_bytes_roundtrip(host_order(b));
}

/// Reading back the bytes of a 64-bit integer gives the integer.
pub proof fn lemma_host_u64_roundtrip(v: u64)
    ensures
        host_u64_bytes(v).len() == 8,
        host_u64(host_u64_bytes(v)) == v,
{
    lemma_le_u64_roundtrip(v as int);
    lemma_host_order_twice(le_u64_bytes(v as int));
}

/// Writing back the integer that eight bytes hold gives the eight bytes.
pub proof fn lemma_host_u64_bytes_roundtrip(b: Seq<u8>)
    requires
        b.len() == 8,
    ensures
        host_u64_bytes(host_u64(b)) == b,
{
    lemma_host_order_twice(b);
    lemma_le_u64_bytes_roundtrip(host_order(b));
}

/// `netlink_packet_utils::parsers::parse_u8` accepts exactly the buffers of
/// one byte, and returns that byte.
pub assume_specification[ netlink_packet_utils::parsers::parse_u8 ](payload: &[u8]) -> (r: Result<
    u8,
    DecodeError,
>)
    ensures
        r is Ok <==> payload@.len() == 1,
        r is Ok ==> r->Ok_0 == payload@[0],
;

/// `netlink_packet_utils::parsers::parse_u16` accepts exactly the buffers of
/// two bytes, and reads them in host byte order.
pub assume_specification[ netlink_packet_utils::parsers::parse_u16 ](payload: &[u8]) -> (r: Result<
    u16,
    DecodeError,
>)
    ensures
        r is Ok <==> payload@.len() == 2,
        r is Ok ==> r->Ok_0 == host_u16(payload@),
;

/// `netlink_packet_utils::parsers::parse_u32` accepts exactly the buffers of
/// four bytes, and reads them in host byte order.
pub assume_specification[ netlink_packet_utils::parsers::parse_u32 ](payload: &[u8]) -> (r: Result<
    u32,
    DecodeError,
>)
    ensures
        r is Ok <==> payload@.len() == 4,
        r is Ok ==> r->Ok_0 == host_u32(payload@),
;

/// `netlink_packet_utils::parsers::parse_u64` accepts exactly the buffers of
/// eight bytes, and reads them in host byte order.
pub assume_specification[ netlink_packet_utils::parsers::parse_u64 ](payload: &[u8]) -> (r: Result<
    u64,
    DecodeError,
>)
    ensures
        r is Ok <==> payload@.len() == 8,
        r is Ok ==> r->Ok_0 == host_u64(payload@),
;

/// What `parse_string` reads as text: the buffer without its last byte when
/// that byte is zero, the whole buffer otherwise.
pub open spec fn string_body(b: Seq<u8>) -> Seq<u8> {
    if b.len() > 0 && b.last() == 0 {
        b.drop_last()
    } else {
        b
    }
}

/// `netlink_packet_utils::parsers::parse_string` drops one trailing zero byte
/// if there is one, and succeeds exactly when the rest is valid UTF-8, with
/// the text that the rest encodes.
pub assume_specification[ netlink_packet_utils::parsers::parse_string ](payload: &[u8]) -> (r:
    Result<String, DecodeError>)
    ensures
        r is Ok <==> valid_utf8(string_body(payload@)),
        r is Ok ==> r->Ok_0@ == decode_utf8(string_body(payload@)),
;

/// `u16::to_ne_bytes` gives the two bytes of the integer in host byte order.
#[verifier::external_body]
fn u16_to_host(v: u16) -> (r: [u8; 2])
    ensures
        r@ == host_u16_bytes(v),
{
    v.to_ne_bytes()
}

/// `u32::to_ne_bytes` gives the four bytes of the integer in host byte order.
#[verifier::external_body]
fn u32_to_host(v: u32) -> (r: [u8; 4])
    ensures
        r@ == host_u32_bytes(v),
{
    v.to_ne_bytes()
}

/// `u64::to_ne_bytes` gives the eight bytes of the integer in host byte order.
#[verifier::external_body]
fn u64_to_host(v: u64) -> (r: [u8; 8])
    ensures
        r@ == host_u64_bytes(v),
{
    v.to_ne_bytes()
}

/// What decoding an 8-bit integer gives.
pub open spec fn spec_decode_u8(b: Seq<u8>) -> Result<u8, Nl80211ErrorKind> {
    if b.len() < 1 {
        Err(Nl80211ErrorKind::Truncated)
    } else if b.len() > 1 {
        Err(Nl80211ErrorKind::WrongLength)
    } else {
        Ok(b[0])
    }
}

/// What decoding a 16-bit integer gives.
pub open spec fn spec_decode_u16(b: Seq<u8>) -> Result<u16, Nl80211ErrorKind> {
    if b.len() < 2 {
        Err(Nl80211ErrorKind::Truncated)
    } else if b.len() > 2 {
        Err(Nl80211ErrorKind::WrongLength)
    } else {
        Ok(host_u16(b))
    }
}

/// What decoding a 32-bit integer gives.
pub open spec fn spec_decode_u32(b: Seq<u8>) -> Result<u32, Nl80211ErrorKind> {
    if b.len() < 4 {
        Err(Nl80211ErrorKind::Truncated)
    } else if b.len() > 4 {
        Err(Nl80211ErrorKind::WrongLength)
    } else {
        Ok(host_u32(b))
    }
}

/// What decoding a 64-bit integer gives.
pub open spec fn spec_decode_u64(b: Seq<u8>) -> Result<u64, Nl80211ErrorKind> {
    if b.len() < 8 {
        Err(Nl80211ErrorKind::Truncated)
    } else if b.len() > 8 {
        Err(Nl80211ErrorKind::WrongLength)
    } else {
        Ok(host_u64(b))
    }
}

/// What decoding a string gives: the text before the terminating zero byte.
pub open spec fn spec_decode_string(b: Seq<u8>) -> Result<Seq<char>, Nl80211ErrorKind> {
    if b.len() == 0 || b.last() != 0 || !valid_utf8(b.drop_last()) {
        Err(Nl80211ErrorKind::Malformed)
    } else {
        Ok(decode_utf8(b.drop_last()))
    }
}

/// The bytes of a string: its UTF-8 encoding and one zero byte.
pub open spec fn spec_encode_string(s: Seq<char>) -> Seq<u8> {
    encode_utf8(s).push(0u8)
}

/// What decoding a hardware address gives.
pub open spec fn spec_decode_mac(b: Seq<u8>) -> Result<Seq<u8>, Nl80211ErrorKind> {
    if b.len() != ETH_ALEN {
        Err(Nl80211ErrorKind::WrongLength)
    } else {
        Ok(b)
    }
}

/// Decoding the bytes of a string gives the string.
pub proof fn lemma_string_roundtrip(s: Seq<char>)
    ensures
        spec_decode_string(spec_encode_string(s)) == Ok::<Seq<char>, Nl80211ErrorKind>(s),
{
    vstd::utf8::encode_utf8_valid_utf8(s);
    vstd::utf8::encode_utf8_decode_utf8(s);
    assert(spec_encode_string(s).drop_last() =~= encode_utf8(s));
}

/// Decodes an 8-bit integer.
pub fn decode_u8(payload: &[u8]) -> (r: Result<u8, Nl80211ErrorKind>)
    ensures
        r == spec_decode_u8(payload@),
{
    if payload.len() < 1 {
        Err(Nl80211ErrorKind::Truncated)
    } else if payload.len() > 1 {
        Err(Nl80211ErrorKind::WrongLength)
    } else {
        match parse_u8(payload) {
            Ok(v) => Ok(v),
            Err(_) => Err(Nl80211ErrorKind::Malformed),
        }
    }
}

/// Decodes a 16-bit integer in host byte order.
pub fn decode_u16(payload: &[u8]) -> (r: Result<u16, Nl80211ErrorKind>)
    ensures
        r == spec_decode_u16(payload@),
{
    if payload.len() < 2 {
        Err(Nl80211ErrorKind::Truncated)
    } else if payload.len() > 2 {
        Err(Nl80211ErrorKind::WrongLength)
    } else {
        match parse_u16(payload) {
            Ok(v) => Ok(v),
            Err(_) => Err(Nl80211ErrorKind::Malformed),
        }
    }
}

/// Decodes a 32-bit integer in host byte order.
pub fn decode_u32(payload: &[u8]) -> (r: Result<u32, Nl80211ErrorKind>)
    ensures
        r == spec_decode_u32(payload@),
{
    if payload.len() < 4 {
        Err(Nl80211ErrorKind::Truncated)
    } else if payload.len() > 4 {
        Err(Nl80211ErrorKind::WrongLength)
    } else {
        match parse_u32(payload) {
            Ok(v) => Ok(v),
            Err(_) => Err(Nl80211ErrorKind::Malformed),
        }
    }
}

/// Decodes a 64-bit integer in host byte order.
pub fn decode_u64(payload: &[u8]) -> (r: Result<u64, Nl80211ErrorKind>)
    ensures
        r == spec_decode_u64(payload@),
{
    if payload.len() < 8 {
        Err(Nl80211ErrorKind::Truncated)
    } else if payload.len() > 8 {
        Err(Nl80211ErrorKind::WrongLength)
    } else {
        match parse_u64(payload) {
            Ok(v) => Ok(v),
            Err(_) => Err(Nl80211ErrorKind::Malformed),
        }
    }
}

/// Decodes a string: the buffer must end in a zero byte, and what stands
/// before that byte must be valid UTF-8.
pub fn decode_string(payload: &[u8]) -> (r: Result<String, Nl80211ErrorKind>)
    ensures
        match r {
            Ok(s) => spec_decode_string(payload@) == Ok::<Seq<char>, Nl80211ErrorKind>(s@),
            Err(e) => spec_decode_string(payload@) == Err::<Seq<char>, Nl80211ErrorKind>(e),
        },
{
    let n: usize = payload.len();
    if n == 0 || payload[n - 1] != 0 {
        return Err(Nl80211ErrorKind::Malformed);
    }
    match parse_string(payload) {
        Ok(s) => Ok(s),
        Err(_) => Err(Nl80211ErrorKind::Malformed),
    }
}

/// Decodes a hardware address: exactly six bytes.
pub fn decode_mac(payload: &[u8]) -> (r: Result<[u8; ETH_ALEN], Nl80211ErrorKind>)
    ensures
        match r {
            Ok(m) => spec_decode_mac(payload@) == Ok::<Seq<u8>, Nl80211ErrorKind>(m@),
            Err(e) => spec_decode_mac(payload@) == Err::<Seq<u8>, Nl80211ErrorKind>(e),
        },
{
    if payload.len() != ETH_ALEN {
        Err(Nl80211ErrorKind::WrongLength)
    } else {
        let m: [u8; ETH_ALEN] = [
            payload[0],
            payload[1],
            payload[2],
            payload[3],
            payload[4],
            payload[5],
        ];
        assert(m@ =~= payload@);
        Ok(m)
    }
}

/// The byte of an 8-bit integer.
pub fn encode_u8(v: u8) -> (r: [u8; 1])
    ensures
        r@ == seq![v],
        spec_decode_u8(r@) == Ok::<u8, Nl80211ErrorKind>(v),
{
    let r: [u8; 1] = [v];
    assert(r@ =~= seq![v]);
    r
}

/// The two bytes of a 16-bit integer in host byte order.
pub fn encode_u16(v: u16) -> (r: [u8; 2])
    ensures
        r@ == host_u16_bytes(v),
        spec_decode_u16(r@) == Ok::<u16, Nl80211ErrorKind>(v),
{
    proof {
        lemma_host_u16_roundtrip(v);
    }
    u16_to_host(v)
}

/// The four bytes of a 32-bit integer in host byte order.
pub fn encode_u32(v: u32) -> (r: [u8; 4])
    ensures
        r@ == host_u32_bytes(v),
        spec_decode_u32(r@) == Ok::<u32, Nl80211ErrorKind>(v),
{
    proof {
        lemma_host_u32_roundtrip(v);
    }
    u32_to_host(v)
}

/// The eight bytes of a 64-bit integer in host byte order.
pub fn encode_u64(v: u64) -> (r: [u8; 8])
    ensures
        r@ == host_u64_bytes(v),
        spec_decode_u64(r@) == Ok::<u64, Nl80211ErrorKind>(v),
{
    proof {
        lemma_host_u64_roundtrip(v);
    }
    u64_to_host(v)
}

/// The bytes of a string: its UTF-8 encoding and one zero byte.
pub fn encode_string(s: &str) -> (r: Vec<u8>)
    ensures
        r@ == spec_encode_string(s@),
        spec_decode_string(r@) == Ok::<Seq<char>, Nl80211ErrorKind>(s@),
{
    proof {
        lemma_string_roundtrip(s@);
    }
    let mut r: Vec<u8> = Vec::new();
    push_string(&mut r, s);
    assert(r@ =~= spec_encode_string(s@));
    r
}

/// The signed number that a byte holds, in two's complement.
pub open spec fn i8_of_byte(b: u8) -> i8 {
    if b < 0x80 {
        b as i8
    } else {
        (b - 0x100) as i8
    }
}

/// The byte that holds a signed number, in two's complement.
pub open spec fn byte_of_i8(v: i8) -> u8 {
    if v >= 0 {
        v as u8
    } else {
        (v + 0x100) as u8
    }
}

/// The signed number that a 32-bit integer holds, in two's complement.
pub open spec fn i32_of_word(w: u32) -> i32 {
    if w < 0x8000_0000 {
        w as i32
    } else {
        (w - 0x1_0000_0000) as i32
    }
}

/// The 32-bit integer that holds a signed number, in two's complement.
pub open spec fn word_of_i32(v: i32) -> u32 {
    if v >= 0 {
        v as u32
    } else {
        (v + 0x1_0000_0000) as u32
    }
}

/// A signed number and the integer that holds it stand for each other.
pub proof fn lemma_signed_roundtrip(b: u8, v: i8, w: u32, x: i32)
    ensures
        byte_of_i8(i8_of_byte(b)) == b,
        i8_of_byte(byte_of_i8(v)) == v,
        word_of_i32(i32_of_word(w)) == w,
        i32_of_word(word_of_i32(x)) == x,
{
}

/// The signed number that a byte holds.
pub fn i8_from_byte(b: u8) -> (v: i8)
    ensures
        v == i8_of_byte(b),
{
    if b < 0x80 {
        b as i8
    } else {
        (b as i16 - 0x100) as i8
    }
}

/// The byte that holds a signed number.
pub fn i8_to_byte(v: i8) -> (b: u8)
    ensures
        b == byte_of_i8(v),
{
    if v >= 0 {
        v as u8
    } else {
        (v as i16 + 0x100) as u8
    }
}

/// The signed number that a 32-bit integer holds.
pub fn i32_from_word(w: u32) -> (v: i32)
    ensures
        v == i32_of_word(w),
{
    if w < 0x8000_0000 {
        w as i32
    } else {
        (w as i64 - 0x1_0000_0000) as i32
    }
}

/// The 32-bit integer that holds a signed number.
pub fn i32_to_word(v: i32) -> (w: u32)
    ensures
        w == word_of_i32(v),
{
    if v >= 0 {
        v as u32
    } else {
        (v as i64 + 0x1_0000_0000) as u32
    }
}

/// Appends `bytes` to `out`.
pub fn push_bytes(out: &mut Vec<u8>, bytes: &[u8])
    ensures
        final(out)@ == old(out)@ + bytes@,
{
    out.extend_from_slice(bytes);
}

/// Appends the byte `v` to `out`.
pub fn push_u8(out: &mut Vec<u8>, v: u8)
    ensures
        final(out)@ == old(out)@ + seq![v],
{
    out.push(v);
    assert(out@ =~= old(out)@ + seq![v]);
}

/// Appends `v` in host byte order to `out`.
pub fn push_u16(out: &mut Vec<u8>, v: u16)
    ensures
        final(out)@ == old(out)@ + host_u16_bytes(v),
{
    let b: [u8; 2] = u16_to_host(v);
    out.extend_from_slice(b.as_slice());
}

/// Appends `v` in host byte order to `out`.
pub fn push_u32(out: &mut Vec<u8>, v: u32)
    ensures
        final(out)@ == old(out)@ + host_u32_bytes(v),
{
    let b: [u8; 4] = u32_to_host(v);
    out.extend_from_slice(b.as_slice());
}

/// Appends `v` in host byte order to `out`.
pub fn push_u64(out: &mut Vec<u8>, v: u64)
    ensures
        final(out)@ == old(out)@ + host_u64_bytes(v),
{
    let b: [u8; 8] = u64_to_host(v);
    out.extend_from_slice(b.as_slice());
}

/// Appends the bytes of a string to `out`: its UTF-8 encoding, then one zero
/// byte.
pub fn push_string(out: &mut Vec<u8>, s: &str)
    ensures
        final(out)@ == old(out)@ + spec_encode_string(s@),
{
    out.extend_from_slice(s.as_bytes());
    out.push(0u8);
    assert(out@ =~= old(out)@ + spec_encode_string(s@));
}

/// Overwrites `buffer` with `bytes`.
pub fn copy_into(buffer: &mut [u8], bytes: &[u8])
    requires
        old(buffer)@.len() == bytes@.len(),
    ensures
        final(buffer)@ == bytes@,
{
    let n: usize = bytes.len();
    let mut i: usize = 0;
    while i < n
        invariant
            i <= n,
            n == bytes@.len(),
            buffer@.len() == n,
            forall|j: int| 0 <= j < i ==> buffer@[j] == bytes@[j],
        decreases n - i,
    {
        buffer[i] = bytes[i];
        i += 1;
    }
    assert(buffer@ =~= bytes@);
}

/// Writes `v` in host byte order over the two bytes of `buffer`.
pub fn write_u16(buffer: &mut [u8], v: u16)
    requires
        old(buffer)@.len() == 2,
    ensures
        final(buffer)@ == host_u16_bytes(v),
{
    let b: [u8; 2] = u16_to_host(v);
    copy_into(buffer, b.as_slice());
}

/// Writes `v` in host byte order over the four bytes of `buffer`.
pub fn write_u32(buffer: &mut [u8], v: u32)
    requires
        old(buffer)@.len() == 4,
    ensures
        final(buffer)@ == host_u32_bytes(v),
{
    let b: [u8; 4] = u32_to_host(v);
    copy_into(buffer, b.as_slice());
}

/// Writes `v` in host byte order over the eight bytes of `buffer`.
pub fn write_u64(buffer: &mut [u8], v: u64)
    requires
        old(buffer)@.len() == 8,
    ensures
        final(buffer)@ == host_u64_bytes(v),
{
    let b: [u8; 8] = u64_to_host(v);
    copy_into(buffer, b.as_slice());
}

} // verus!
