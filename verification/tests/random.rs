use netlink_packet_utils::nla::NlasIterator;
use wl_nl80211::nla::{push_nla, split_nlas};
use wl_nl80211::{Nl80211Attr, Nl80211Command, Nl80211Message};

/// A small generator of numbers that look random and are the same in every
/// run.
struct Numbers(u64);

impl Numbers {
    fn next(&mut self) -> u64 {
        self.0 = self.0.wrapping_mul(6364136223846793005).wrapping_add(1442695040888963407);
        self.0 >> 33
    }

    fn below(&mut self, bound: u64) -> u64 {
        self.next() % bound
    }

    fn bytes(&mut self, len: usize) -> Vec<u8> {
        (0..len).map(|_| self.next() as u8).collect()
    }
}

/// A value that an attribute of the given kind is often read from.
fn likely_value(numbers: &mut Numbers) -> Vec<u8> {
    match numbers.below(8) {
        0 => vec![],
        1 => numbers.bytes(1),
        2 => numbers.bytes(2),
        3 => numbers.bytes(4),
        4 => numbers.bytes(8),
        5 => {
            let mut text = b"wlan".to_vec();
            text.push(b'0' + numbers.below(10) as u8);
            text.push(0);
            text
        }
        6 => {
            let mut list = Vec::new();
            for _ in 0..numbers.below(4) {
                let kind = numbers.below(48) as u16;
                let len = [0usize, 1, 2, 4, 6, 8][numbers.below(6) as usize];
                push_nla(&mut list, kind, &numbers.bytes(len));
            }
            list
        }
        _ => {
            let len = numbers.below(30) as usize;
            numbers.bytes(len)
        }
    }
}

#[test]
fn what_was_read_is_written_and_read_again_as_the_same() {
    let mut numbers = Numbers(0x5EED);
    let mut read = 0;
    for _ in 0..4000 {
        let mut buffer = Vec::new();
        for _ in 0..numbers.below(5) {
            let kind = match numbers.below(4) {
                0 => numbers.below(340) as u16,
                1 => numbers.below(340) as u16 | 0x8000,
                2 => numbers.next() as u16,
                _ => [3u16, 4, 6, 21, 22, 32, 47, 50, 57, 99, 118, 120, 166, 230, 265, 312][numbers.below(16) as usize],
            };
            let value = likely_value(&mut numbers);
            push_nla(&mut buffer, kind, &value);
        }
        let message = match Nl80211Message::parse(Nl80211Command::GetWiphy, &buffer) {
            Ok(message) => message,
            Err(_) => continue,
        };
        read += 1;
        let len = message.encoded_len().expect("what was read can be written");
        assert_eq!(len, message.buffer_len());
        let bytes = message.to_bytes();
        assert_eq!(bytes.len(), len);
        for attr in &message.attributes {
            let mut value = vec![0xEE; attr.value_len()];
            attr.emit_value(&mut value);
            assert_eq!(attr.encoded_len(), Some(value.len()));
            let again = Nl80211Attr::parse(attr.kind(), &value).expect("what was written is read");
            let mut value_again = vec![0xEE; again.value_len()];
            again.emit_value(&mut value_again);
            assert_eq!(value_again, value);
        }
        let again = Nl80211Message::parse(Nl80211Command::GetWiphy, &bytes).expect("what was written is read");
        assert_eq!(again.attributes.len(), message.attributes.len());
        assert_eq!(again.to_bytes(), bytes);
        let outside = NlasIterator::new(&bytes[..]).map(|nla| nla.unwrap()).count();
        assert_eq!(outside, message.attributes.len());
    }
    assert!(read > 500);
}

#[test]
fn any_bytes_are_split_as_the_outside_iterator_splits_them() {
    let mut numbers = Numbers(0xF00D);
    for _ in 0..4000 {
        let len = numbers.below(40) as usize;
        let mut buffer = numbers.bytes(len);
        // short lengths in the headers, so that some records fit
        if len >= 2 && numbers.below(2) == 0 {
            let field = (numbers.below(12) as u16).to_ne_bytes();
            buffer[0] = field[0];
            buffer[1] = field[1];
        }
        let (nlas, complete) = split_nlas(&buffer);
        let mut outside = Vec::new();
        let mut outside_complete = true;
        for nla in NlasIterator::new(&buffer[..]) {
            match nla {
                Ok(nla) => outside.push((nla.kind(), nla.value().to_vec())),
                Err(_) => {
                    outside_complete = false;
                    break;
                }
            }
        }
        assert_eq!(complete, outside_complete);
        assert_eq!(nlas.len(), outside.len());
        for (nla, (kind, value)) in nlas.iter().zip(outside.iter()) {
            assert_eq!(nla.kind(), *kind);
            assert_eq!(&nla.value, value);
        }
    }
}
