use netlink_packet_utils::nla::{DefaultNla, NlasIterator};
use netlink_packet_utils::Emitable;
use wl_nl80211::nla::{align_up, next_nla, nla_buffer_len, push_nla, split_nlas};
use wl_nl80211::RawNla;

fn header(length: u16, kind: u16) -> Vec<u8> {
    let mut bytes = Vec::new();
    bytes.extend_from_slice(&length.to_ne_bytes());
    bytes.extend_from_slice(&kind.to_ne_bytes());
    bytes
}

#[test]
fn a_record_is_header_value_and_padding() {
    let mut out = Vec::new();
    push_nla(&mut out, 3, &[0xAA, 0xBB, 0xCC]);
    let mut expected = header(7, 3);
    expected.extend_from_slice(&[0xAA, 0xBB, 0xCC, 0x00]);
    assert_eq!(out, expected);
}

#[test]
fn a_record_without_value_is_its_header() {
    let mut out = vec![0x55];
    push_nla(&mut out, 104, &[]);
    let mut expected = vec![0x55];
    expected.extend_from_slice(&header(4, 104));
    assert_eq!(out, expected);
}

#[test]
fn push_nla_writes_what_the_outside_crate_writes() {
    for (kind, len) in [(0u16, 0usize), (1, 1), (2, 2), (3, 3), (4, 4), (0x8005, 5), (0x4006, 9), (0xFFFF, 2)] {
        let value: Vec<u8> = (0..len).map(|i| i as u8 + 1).collect();
        let nla = DefaultNla::new(kind, value.clone());
        let mut expected = vec![0xEE; nla.buffer_len()];
        nla.emit(&mut expected);
        let mut out = Vec::new();
        push_nla(&mut out, kind, &value);
        assert_eq!(out, expected);
        assert_eq!(out.len(), nla_buffer_len(len));
    }
}

#[test]
fn a_kind_with_both_flags_is_written_without_the_byte_order_flag() {
    let mut out = Vec::new();
    push_nla(&mut out, 0xC005, &[]);
    assert_eq!(out, header(4, 0x8005));
    let mut out = Vec::new();
    push_nla(&mut out, 0x4005, &[]);
    assert_eq!(out, header(4, 0x4005));
    let mut out = Vec::new();
    push_nla(&mut out, 0x8005, &[]);
    assert_eq!(out, header(4, 0x8005));
}

#[test]
fn align_up_rounds_to_four() {
    assert_eq!(align_up(0), 0);
    assert_eq!(align_up(1), 4);
    assert_eq!(align_up(4), 4);
    assert_eq!(align_up(5), 8);
    assert_eq!(nla_buffer_len(0), 4);
    assert_eq!(nla_buffer_len(6), 12);
}

#[test]
fn next_nla_reads_one_record_and_tells_where_the_next_starts() {
    let mut buffer = header(5, 7);
    buffer.extend_from_slice(&[9, 0, 0, 0]);
    buffer.extend_from_slice(&header(4, 8));
    let (nla, next) = next_nla(&buffer, 0).unwrap();
    assert_eq!(nla, RawNla { kind: 7, value: vec![9] });
    assert_eq!(next, 8);
    let (nla, next) = next_nla(&buffer, 8).unwrap();
    assert_eq!(nla, RawNla { kind: 8, value: vec![] });
    assert_eq!(next, 12);
}

#[test]
fn the_type_field_is_kept_with_its_flags() {
    let buffer = header(4, 0xFFFF);
    let (nla, _) = next_nla(&buffer, 0).unwrap();
    assert_eq!(nla.kind, 0xFFFF);
    assert_eq!(nla.kind(), 0x3FFF);
    assert!(nla.is_nested());
    assert!(nla.is_network_byteorder());
    assert_eq!(nla.value_len(), 0);
}

#[test]
fn the_last_record_may_lack_its_padding() {
    let mut buffer = header(4, 1);
    buffer.extend_from_slice(&header(6, 2));
    buffer.extend_from_slice(&[1, 2]);
    let (nlas, complete) = split_nlas(&buffer);
    assert!(complete);
    assert_eq!(nlas, vec![RawNla { kind: 1, value: vec![] }, RawNla { kind: 2, value: vec![1, 2] }]);
}

#[test]
fn a_header_that_does_not_fit_ends_the_split() {
    // three bytes are no header
    let (nlas, complete) = split_nlas(&[1, 2, 3]);
    assert!(!complete);
    assert!(nlas.is_empty());
    // a length below the size of the header
    let (nlas, complete) = split_nlas(&header(3, 1));
    assert!(!complete);
    assert!(nlas.is_empty());
    // a length that passes the end of the buffer, behind a good record
    let mut buffer = header(4, 1);
    buffer.extend_from_slice(&header(9, 2));
    buffer.extend_from_slice(&[1, 2, 3, 4]);
    let (nlas, complete) = split_nlas(&buffer);
    assert!(!complete);
    assert_eq!(nlas, vec![RawNla { kind: 1, value: vec![] }]);
    assert!(next_nla(&buffer, 4).is_none());
}

#[test]
fn split_nlas_reads_what_the_outside_iterator_reads() {
    let mut buffer = Vec::new();
    push_nla(&mut buffer, 3, &7u32.to_ne_bytes());
    push_nla(&mut buffer, 0x8015, b"abc");
    push_nla(&mut buffer, 104, &[]);
    let (nlas, complete) = split_nlas(&buffer);
    assert!(complete);
    let outside: Vec<(u16, Vec<u8>)> = NlasIterator::new(&buffer[..])
        .map(|nla| {
            let nla = nla.unwrap();
            (nla.kind(), nla.value().to_vec())
        })
        .collect();
    assert_eq!(outside.len(), nlas.len());
    for (raw, (kind, value)) in nlas.iter().zip(outside.iter()) {
        assert_eq!(raw.kind(), *kind);
        assert_eq!(&raw.value, value);
    }
    assert_eq!(nlas[1].kind, 0x8015);
}

#[test]
fn an_empty_buffer_holds_no_record() {
    let (nlas, complete) = split_nlas(&[]);
    assert!(complete);
    assert!(nlas.is_empty());
}

#[test]
fn behind_the_end_there_is_no_record() {
    let buffer = header(4, 1);
    assert!(next_nla(&buffer, 4).is_none());
    assert!(next_nla(&buffer, 400).is_none());
    assert!(next_nla(&[], 0).is_none());
}
