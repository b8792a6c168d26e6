use wl_nl80211::bytes::{decode_mac, decode_string, decode_u16, decode_u32, decode_u64, decode_u8};
use wl_nl80211::Nl80211ErrorKind;

#[test]
fn decode_u32_of_three_bytes_is_truncated() {
    assert_eq!(decode_u32(&[1, 2, 3]), Err(Nl80211ErrorKind::Truncated));
}

#[test]
fn decode_u32_of_five_bytes_is_wrong_length() {
    assert_eq!(decode_u32(&[1, 2, 3, 4, 5]), Err(Nl80211ErrorKind::WrongLength));
}

#[test]
fn decode_u32_reads_host_order() {
    assert_eq!(decode_u32(&3u32.to_ne_bytes()), Ok(3));
    assert_eq!(decode_u32(&0xDEADBEEFu32.to_ne_bytes()), Ok(0xDEADBEEF));
}

#[test]
fn decode_other_widths() {
    assert_eq!(decode_u8(&[7]), Ok(7));
    assert_eq!(decode_u8(&[]), Err(Nl80211ErrorKind::Truncated));
    assert_eq!(decode_u16(&0x1234u16.to_ne_bytes()), Ok(0x1234));
    assert_eq!(decode_u16(&[1]), Err(Nl80211ErrorKind::Truncated));
    assert_eq!(decode_u64(&0x0102030405060708u64.to_ne_bytes()), Ok(0x0102030405060708));
    assert_eq!(decode_u64(&[0; 7]), Err(Nl80211ErrorKind::Truncated));
}

#[test]
fn string_needs_its_terminator() {
    assert_eq!(decode_string(&[0x61, 0x62, 0x63, 0x00]), Ok(String::from("abc")));
    assert_eq!(decode_string(&[0x61, 0x62, 0x63]), Err(Nl80211ErrorKind::Malformed));
    assert_eq!(decode_string(&[]), Err(Nl80211ErrorKind::Malformed));
    assert_eq!(decode_string(&[0xFF, 0x00]), Err(Nl80211ErrorKind::Malformed));
}

#[test]
fn mac_is_exactly_six_bytes() {
    assert_eq!(decode_mac(&[1, 2, 3, 4, 5]), Err(Nl80211ErrorKind::WrongLength));
    assert_eq!(decode_mac(&[1, 2, 3, 4, 5, 6, 7]), Err(Nl80211ErrorKind::WrongLength));
    assert_eq!(decode_mac(&[1, 2, 3, 4, 5, 6]), Ok([1, 2, 3, 4, 5, 6]));
}

#[test]
fn encode_gives_what_decode_reads() {
    assert_eq!(wl_nl80211::bytes::encode_u8(7), [7]);
    assert_eq!(wl_nl80211::bytes::encode_u16(0x1234), 0x1234u16.to_ne_bytes());
    assert_eq!(wl_nl80211::bytes::encode_u32(0xDEADBEEF), 0xDEADBEEFu32.to_ne_bytes());
    assert_eq!(wl_nl80211::bytes::encode_u64(0x0102030405060708), 0x0102030405060708u64.to_ne_bytes());
    assert_eq!(decode_u16(&wl_nl80211::bytes::encode_u16(0xBEEF)), Ok(0xBEEF));
    assert_eq!(decode_u32(&wl_nl80211::bytes::encode_u32(1)), Ok(1));
    assert_eq!(decode_u64(&wl_nl80211::bytes::encode_u64(u64::MAX - 1)), Ok(u64::MAX - 1));
    assert_eq!(wl_nl80211::bytes::encode_string("abc"), vec![0x61, 0x62, 0x63, 0x00]);
    assert_eq!(wl_nl80211::bytes::encode_string(""), vec![0x00]);
    assert_eq!(decode_string(&wl_nl80211::bytes::encode_string("a\0b")), Ok(String::from("a\0b")));
}

#[test]
fn writing_into_a_buffer() {
    let mut two = [0u8; 2];
    wl_nl80211::bytes::write_u16(&mut two, 0x1234);
    assert_eq!(two, 0x1234u16.to_ne_bytes());
    let mut four = [0u8; 4];
    wl_nl80211::bytes::write_u32(&mut four, 0x12345678);
    assert_eq!(four, 0x12345678u32.to_ne_bytes());
    let mut eight = [0u8; 8];
    wl_nl80211::bytes::write_u64(&mut eight, 0x1234567890ABCDEF);
    assert_eq!(eight, 0x1234567890ABCDEFu64.to_ne_bytes());
    let mut out = vec![9];
    wl_nl80211::bytes::push_u16(&mut out, 1);
    wl_nl80211::bytes::push_u8(&mut out, 2);
    wl_nl80211::bytes::push_bytes(&mut out, &[3, 4]);
    let mut expected = vec![9];
    expected.extend_from_slice(&1u16.to_ne_bytes());
    expected.extend_from_slice(&[2, 3, 4]);
    assert_eq!(out, expected);
}

#[test]
fn text_must_be_utf8() {
    // an overlong encoding, a surrogate, a number above the last scalar, a
    // sequence that is cut short
    for bytes in [
        vec![0xC0, 0x80, 0x00],
        vec![0xED, 0xA0, 0x80, 0x00],
        vec![0xF4, 0x90, 0x80, 0x80, 0x00],
        vec![0xE2, 0x82, 0x00],
    ] {
        assert_eq!(decode_string(&bytes), Err(Nl80211ErrorKind::Malformed));
    }
    assert_eq!(decode_string(&[0xE2, 0x82, 0xAC, 0x00]), Ok(String::from("\u{20AC}")));
    assert_eq!(decode_string(&[0xF4, 0x8F, 0xBF, 0xBF, 0x00]), Ok(String::from("\u{10FFFF}")));
    assert_eq!(decode_string(&[0x00]), Ok(String::new()));
    assert_eq!(decode_string(&[0x00, 0x00]), Ok(String::from("\0")));
}
