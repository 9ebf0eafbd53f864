use media_atoms::bytes::{copy_range, u16_from_be, u24_from_be, u32_from_be, u32_to_be, u64_from_be};
use media_atoms::source::ByteSource;
use media_atoms::text::{code_string, push_code, push_decimal, push_radix, push_upper_hex};

fn decimal(n: u64) -> String {
    let mut text = String::new();
    push_decimal(&mut text, n);
    text
}

fn hex(n: u64) -> String {
    let mut text = String::new();
    push_upper_hex(&mut text, n);
    text
}

#[test]
fn big_endian_readers_agree_with_the_standard_ones() {
    let bytes = [0u8, 0x12, 0x34, 0x56, 0x78, 0x9A, 0xBC, 0xDE, 0xF0, 0xFF, 0xFF];
    assert_eq!(u16_from_be(&bytes, 1), 0x1234);
    assert_eq!(u16_from_be(&bytes, 9), 0xFFFF);
    assert_eq!(u24_from_be(&bytes, 1), 0x123456);
    assert_eq!(u32_from_be(&bytes, 1), 0x1234_5678);
    assert_eq!(u32_from_be(&bytes, 7), 0xDEF0_FFFF);
    assert_eq!(u64_from_be(&bytes, 1), 0x1234_5678_9ABC_DEF0);
    assert_eq!(u64_from_be(&bytes, 0), 0x0012_3456_789A_BCDE);
    for at in 0..8 {
        let four: [u8; 4] = bytes[at..at + 4].try_into().unwrap();
        assert_eq!(u32_from_be(&bytes, at), u32::from_be_bytes(four));
    }
    assert_eq!(u64_from_be(&[0xFF; 8], 0), u64::MAX);
}

#[test]
fn big_endian_bytes_of_a_number() {
    for value in [0u32, 1, 0xFF, 0x100, 0x0102_0304, 0x6973_6F6D, u32::MAX] {
        assert_eq!(u32_to_be(value), value.to_be_bytes());
        assert_eq!(u32_from_be(&u32_to_be(value), 0), value);
    }
}

#[test]
fn copy_of_a_range() {
    let bytes = [1u8, 2, 3, 4, 5];
    assert_eq!(copy_range(&bytes, 1, 4), vec![2, 3, 4]);
    assert_eq!(copy_range(&bytes, 0, 5), bytes.to_vec());
    assert!(copy_range(&bytes, 3, 3).is_empty());
}

#[test]
fn numbers_in_decimal() {
    assert_eq!(decimal(0), "0");
    assert_eq!(decimal(7), "7");
    assert_eq!(decimal(10), "10");
    assert_eq!(decimal(1904), "1904");
    assert_eq!(decimal(4294967296), "4294967296");
    assert_eq!(decimal(u64::MAX), "18446744073709551615");
    let mut text = String::from("size: ");
    push_decimal(&mut text, 20);
    assert_eq!(text, "size: 20");
}

#[test]
fn numbers_in_hexadecimal() {
    assert_eq!(hex(0), "0");
    assert_eq!(hex(9), "9");
    assert_eq!(hex(10), "A");
    assert_eq!(hex(15), "F");
    assert_eq!(hex(16), "10");
    assert_eq!(hex(0xDEAD_BEEF), "DEADBEEF");
    assert_eq!(hex(u64::MAX), "FFFFFFFFFFFFFFFF");
    for n in [0u64, 1, 255, 256, 0xABCDEF, 1 << 40] {
        assert_eq!(hex(n), format!("{:X}", n));
        assert_eq!(decimal(n), format!("{}", n));
    }
}

#[test]
fn numbers_in_other_bases() {
    let mut text = String::new();
    push_radix(&mut text, 5, 2);
    text.push(' ');
    push_radix(&mut text, 255, 8);
    assert_eq!(text, "101 377");
}

#[test]
fn code_as_text() {
    assert_eq!(code_string(b"moov"), "moov");
    assert_eq!(code_string(&[0x41, 0x00, 0x7F, 0xFF]), "A\0\u{7F}\u{FF}");
    let mut text = String::from("[");
    push_code(&mut text, b"ftyp");
    assert_eq!(text, "[ftyp");
}

#[test]
fn source_reads_what_is_there() {
    let mut source = ByteSource::new(vec![10, 11, 12, 13, 14]);
    assert_eq!(source.len(), 5);
    assert_eq!(source.position(), 0);
    assert_eq!(source.read(2), vec![10, 11]);
    assert_eq!(source.position(), 2);
    assert_eq!(source.read(0), Vec::<u8>::new());
    assert_eq!(source.position(), 2);
    assert_eq!(source.read(10), vec![12, 13, 14]);
    assert_eq!(source.position(), 5);
    assert_eq!(source.read(1), Vec::<u8>::new());
    assert_eq!(source.position(), 5);
    source.seek(100);
    assert_eq!(source.read(u64::MAX), Vec::<u8>::new());
    assert_eq!(source.position(), 100);
    source.seek(1);
    assert_eq!(source.read(u64::MAX), vec![11, 12, 13, 14]);
    assert_eq!(source.as_slice(), &[10, 11, 12, 13, 14]);
}
