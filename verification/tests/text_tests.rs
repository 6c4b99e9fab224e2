use rusty_visio_parser::bytes::read_i16;
use rusty_visio_parser::bytes::read_i32;
use rusty_visio_parser::bytes::read_u16;
use rusty_visio_parser::bytes::read_u32;
use rusty_visio_parser::bytes::read_u64;
use rusty_visio_parser::text::decimal_signed;
use rusty_visio_parser::text::decimal_unsigned;
use rusty_visio_parser::text::decode_utf16;
use rusty_visio_parser::text::format_byte_list;
use rusty_visio_parser::text::push_hex;

fn hex(n: u64, width: usize, upper: bool) -> String {
    let mut text = String::new();
    push_hex(&mut text, n, width, upper);
    text
}

#[test]
fn decimal_of_unsigned_numbers() {
    assert_eq!(decimal_unsigned(0), "0");
    assert_eq!(decimal_unsigned(7), "7");
    assert_eq!(decimal_unsigned(10), "10");
    assert_eq!(decimal_unsigned(4294967295), "4294967295");
    assert_eq!(decimal_unsigned(u64::MAX), "18446744073709551615");
    for n in [0u64, 9, 99, 100, 12345, 1 << 40] {
        assert_eq!(decimal_unsigned(n), n.to_string());
    }
}

#[test]
fn decimal_of_signed_numbers() {
    assert_eq!(decimal_signed(0), "0");
    assert_eq!(decimal_signed(-1), "-1");
    assert_eq!(decimal_signed(-2147483648), "-2147483648");
    assert_eq!(decimal_signed(i64::MIN), "-9223372036854775808");
    assert_eq!(decimal_signed(i64::MAX), "9223372036854775807");
    for n in [-32768i64, -100, -10, -9, 5, 32767] {
        assert_eq!(decimal_signed(n), n.to_string());
    }
}

#[test]
fn hexadecimal_with_and_without_padding() {
    assert_eq!(hex(0, 0, true), "0");
    assert_eq!(hex(0, 2, true), "00");
    assert_eq!(hex(0xAB, 2, true), "AB");
    assert_eq!(hex(0xAB, 2, false), "ab");
    assert_eq!(hex(0xABC, 2, true), "ABC");
    assert_eq!(hex(0x464D4520, 8, true), "464D4520");
    assert_eq!(hex(0x1F, 8, true), "0000001F");
    assert_eq!(hex(0xFFFFFFFF, 8, true), "FFFFFFFF");
    assert_eq!(hex(0x6c, 2, false), format!("{:02x}", 0x6c));
    assert_eq!(hex(0x5, 2, false), format!("{:02x}", 0x5));
    assert_eq!(hex(0x12345, 0, true), format!("{:X}", 0x12345));
}

#[test]
fn hexadecimal_is_appended() {
    let mut text = String::from("0x");
    push_hex(&mut text, 255, 4, true);
    assert_eq!(text, "0x00FF");
}

#[test]
fn byte_lists() {
    assert_eq!(format_byte_list(&[]), "[]");
    assert_eq!(format_byte_list(&[7]), "[7]");
    assert_eq!(format_byte_list(&[71, 68, 73, 67]), "[71, 68, 73, 67]");
    assert_eq!(format_byte_list(&[0, 255, 10]), format!("{:?}", &[0u8, 255, 10][..]));
}

#[test]
fn utf16_units_become_text() {
    assert_eq!(decode_utf16(&[0x48, 0x00, 0x69, 0x00], 2), Some("Hi".to_string()));
    assert_eq!(decode_utf16(&[0x48, 0x00, 0x69, 0x00], 1), Some("H".to_string()));
    assert_eq!(decode_utf16(&[0xFF, 0xFE, 0x69, 0x00], 2), Some("\u{FEFF}i".to_string()));
    assert_eq!(decode_utf16(&[0xFF, 0xFF], 1), Some("\u{FFFF}".to_string()));
    assert_eq!(decode_utf16(&[0xFF, 0xD7, 0x00, 0xE0], 2), Some("\u{D7FF}\u{E000}".to_string()));
    assert_eq!(decode_utf16(&[0xFF, 0xDB, 0xFF, 0xDF], 2), Some("\u{10FFFF}".to_string()));
    assert_eq!(decode_utf16(&[0x00, 0xD8, 0x00, 0xDC], 2), Some("\u{10000}".to_string()));
    assert_eq!(decode_utf16(&[0x00, 0xD8, 0x00, 0xD8], 2), None);
    assert_eq!(decode_utf16(&[0x00, 0xDC], 1), None);
    assert_eq!(decode_utf16(&[], 0), Some(String::new()));
    let units: Vec<u16> = "na\u{ef}ve \u{1F600} text".encode_utf16().collect();
    let bytes: Vec<u8> = units.iter().flat_map(|u| u.to_le_bytes()).collect();
    assert_eq!(
        decode_utf16(&bytes, units.len()),
        Some(String::from_utf16(&units).unwrap())
    );
}

#[test]
fn integers_at_an_offset() {
    let data: [u8; 12] = [0xAA, 0x34, 0x12, 0xFF, 0xFF, 0xFE, 0xFF, 0xFF, 0xFF, 0x00, 0x80, 0x01];
    assert_eq!(read_u16(&data, 1), 0x1234);
    assert_eq!(read_u16(&data, 3), 0xFFFF);
    assert_eq!(read_i16(&data, 3), -1);
    assert_eq!(read_i16(&data, 1), 0x1234);
    assert_eq!(read_i16(&data, 9), -32768);
    assert_eq!(read_u32(&data, 1), 0xFFFF1234);
    assert_eq!(read_i32(&data, 5), -2);
    assert_eq!(read_i32(&data, 8), 0x018000FF);
    assert_eq!(read_u32(&data, 5), 0xFFFFFFFE);
    assert_eq!(read_u64(&data, 1), 0xFFFFFFFEFFFF1234);
    assert_eq!(read_u64(&data, 4), 0x018000FFFFFFFEFF);
}
