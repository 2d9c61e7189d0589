use chacha20stream::ext::{HexStringIterExt, HexStringSliceIterExt};

#[test]
fn hex_of_nothing_is_empty() {
    let none: Vec<u8> = Vec::new();
    assert_eq!(none.hex().into_string(), "");
    assert_eq!(none.hex().next(), None);
    assert_eq!(none.hex().size_hint(), (0, Some(0)));
}

#[test]
fn hex_is_two_lower_case_digits_a_byte() {
    let bytes: Vec<u8> = vec![0x00, 0x09, 0x0a, 0x10, 0x9f, 0xa0, 0xff];
    assert_eq!(bytes.hex().into_string(), "00090a109fa0ff");
    assert_eq!(bytes[..].hex().into_string(), "00090a109fa0ff");
    assert_eq!((&bytes[..]).into_hex().into_string(), "00090a109fa0ff");
}

#[test]
fn hex_of_every_byte_matches_format() {
    for b in 0..=255u8 {
        let one = [b];
        assert_eq!(one[..].hex().into_string(), format!("{:02x}", b));
    }
}

#[test]
fn hex_iter_yields_char_by_char() {
    let bytes = [0xdeu8, 0xad];
    let mut it = bytes[..].hex();
    assert_eq!(it.size_hint(), (4, Some(4)));
    assert_eq!(it.next(), Some('d'));
    assert_eq!(it.size_hint(), (3, Some(3)));
    assert_eq!(it.next(), Some('e'));
    assert_eq!(it.next(), Some('a'));
    assert_eq!(it.next(), Some('d'));
    assert_eq!(it.size_hint(), (0, Some(0)));
    assert_eq!(it.next(), None);
    assert_eq!(it.next(), None);
}

#[test]
fn hex_consume_appends_what_is_left() {
    let bytes = [0x12u8, 0x34, 0x56];
    let mut it = bytes[..].hex();
    assert_eq!(it.next(), Some('1'));
    let mut out = String::from("x=");
    it.consume(&mut out);
    assert_eq!(out, "x=23456");
}

#[test]
fn hex_clone_starts_where_the_iterator_stands() {
    let bytes = [0xabu8, 0xcd];
    let mut it = bytes[..].hex();
    assert_eq!(it.next(), Some('a'));
    let copy = it.clone();
    assert_eq!(copy.into_string(), "bcd");
    assert_eq!(it.into_string(), "bcd");
}
