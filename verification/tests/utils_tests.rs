use rusty_visio_parser::parser_vsd::vsdinternal_stream::VSDInternalStream;
use rusty_visio_parser::utils::check_file_signature;
use rusty_visio_parser::utils::read_guid;
use rusty_visio_parser::utils::read_u16_checked;
use rusty_visio_parser::utils::read_u32_checked;
use rusty_visio_parser::utils::read_u64_checked;
use rusty_visio_parser::utils::read_utf16_string;
use rusty_visio_parser::utils::skip_bytes;
use rusty_visio_parser::utils::VisioUtilsError;

fn cursor(data: &[u8]) -> VSDInternalStream {
    VSDInternalStream::new(data, data.len(), false)
}

#[test]
fn test_read_utf16_string() {
    let data = b"H\0e\0l\0l\0o\0";
    let mut cursor = cursor(data);
    let s = read_utf16_string(&mut cursor, 5).unwrap();
    assert_eq!(s, "Hello");
}

#[test]
fn test_read_u32_checked() {
    let data = [0x78, 0x56, 0x34, 0x12];
    let mut cursor = cursor(&data);
    let val = read_u32_checked(&mut cursor).unwrap();
    assert_eq!(val, 0x12345678);
}

#[test]
fn utf16_string_with_a_surrogate_pair() {
    // U+1F600 is D83D DE00
    let data = [0x41, 0x00, 0x3D, 0xD8, 0x00, 0xDE, 0xE9, 0x00];
    let mut cursor = cursor(&data);
    let s = read_utf16_string(&mut cursor, 4).unwrap();
    assert_eq!(s, "A\u{1F600}\u{e9}");
    assert_eq!(cursor.tell(), 8);
}

#[test]
fn utf16_string_of_no_units_is_empty() {
    let data = [0x41, 0x00];
    let mut cursor = cursor(&data);
    assert_eq!(read_utf16_string(&mut cursor, 0).unwrap(), "");
    assert_eq!(cursor.tell(), 0);
}

#[test]
fn utf16_string_with_a_lone_surrogate_is_invalid() {
    let lone_high = [0x3D, 0xD8, 0x41, 0x00];
    let mut first = cursor(&lone_high);
    assert_eq!(read_utf16_string(&mut first, 2), Err(VisioUtilsError::InvalidUtf16));
    assert_eq!(first.tell(), 4);
    let lone_low = [0x00, 0xDE, 0x41, 0x00];
    let mut second = cursor(&lone_low);
    assert_eq!(read_utf16_string(&mut second, 2), Err(VisioUtilsError::InvalidUtf16));
    let high_at_end = [0x41, 0x00, 0x3D, 0xD8];
    let mut third = cursor(&high_at_end);
    assert_eq!(read_utf16_string(&mut third, 2), Err(VisioUtilsError::InvalidUtf16));
}

#[test]
fn utf16_string_longer_than_the_data_is_an_io_error() {
    let data = [0x41, 0x00, 0x42];
    let mut cursor = cursor(&data);
    assert_eq!(read_utf16_string(&mut cursor, 2), Err(VisioUtilsError::Io));
    assert_eq!(cursor.tell(), 3);
    let mut again = self::cursor(&data);
    assert_eq!(read_utf16_string(&mut again, usize::MAX), Err(VisioUtilsError::Io));
}

#[test]
fn integers_are_little_endian() {
    let data = [0x01, 0x02, 0x03, 0x04, 0x05, 0x06, 0x07, 0x08, 0xFF, 0xFE];
    let mut cursor = cursor(&data);
    assert_eq!(read_u16_checked(&mut cursor), Ok(0x0201));
    assert_eq!(cursor.tell(), 2);
    assert_eq!(read_u32_checked(&mut cursor), Ok(0x06050403));
    assert_eq!(cursor.tell(), 6);
    assert_eq!(read_u16_checked(&mut cursor), Ok(0x0807));
    assert_eq!(read_u16_checked(&mut cursor), Ok(0xFEFF));
    assert_eq!(read_u16_checked(&mut cursor), Err(VisioUtilsError::Io));
    let mut wide = self::cursor(&data);
    assert_eq!(read_u64_checked(&mut wide), Ok(0x0807060504030201));
    assert_eq!(wide.tell(), 8);
}

#[test]
fn short_reads_fail_at_the_end() {
    let data = [1u8, 2, 3];
    let mut cursor = cursor(&data);
    assert_eq!(read_u32_checked(&mut cursor), Err(VisioUtilsError::Io));
    assert_eq!(cursor.tell(), 3);
    let mut other = self::cursor(&data);
    assert_eq!(read_u64_checked(&mut other), Err(VisioUtilsError::Io));
    assert_eq!(other.tell(), 3);
}

#[test]
fn skip_moves_forward_and_stops_at_the_end() {
    let data = [1u8, 2, 3, 4, 5, 6];
    let mut cursor = cursor(&data);
    assert_eq!(skip_bytes(&mut cursor, 4), Ok(()));
    assert_eq!(cursor.tell(), 4);
    assert_eq!(skip_bytes(&mut cursor, 4), Ok(()));
    assert_eq!(cursor.tell(), 6);
    assert_eq!(skip_bytes(&mut cursor, u64::MAX), Ok(()));
    assert_eq!(cursor.tell(), 6);
}

#[test]
fn guid_is_sixteen_bytes() {
    let data: Vec<u8> = (1..=20u8).collect();
    let mut cursor = cursor(&data);
    assert_eq!(skip_bytes(&mut cursor, 2), Ok(()));
    let guid = read_guid(&mut cursor).unwrap();
    assert_eq!(guid, [3, 4, 5, 6, 7, 8, 9, 10, 11, 12, 13, 14, 15, 16, 17, 18]);
    assert_eq!(cursor.tell(), 18);
    assert_eq!(read_guid(&mut cursor), Err(VisioUtilsError::Io));
    assert_eq!(cursor.tell(), 20);
}

#[test]
fn signature_is_compared_and_the_cursor_rewound() {
    let data = [0xD0u8, 0xCF, 0x11, 0xE0, 0xA1];
    let mut cursor = cursor(&data);
    assert_eq!(check_file_signature(&mut cursor, &[0xD0, 0xCF, 0x11, 0xE0]), Ok(true));
    assert_eq!(cursor.tell(), 0);
    assert_eq!(check_file_signature(&mut cursor, &[0xD0, 0xCF, 0x11, 0xE1]), Ok(false));
    assert_eq!(cursor.tell(), 0);
    assert_eq!(skip_bytes(&mut cursor, 1), Ok(()));
    assert_eq!(check_file_signature(&mut cursor, &[0xCF, 0x11]), Ok(true));
    assert_eq!(
        check_file_signature(&mut cursor, &[1, 2, 3, 4, 5, 6]),
        Err(VisioUtilsError::Io)
    );
    assert_eq!(cursor.tell(), 5);
}

#[test]
fn error_messages() {
    assert_eq!(VisioUtilsError::InvalidUtf16.message(), "Invalid UTF-16 string");
    assert_eq!(VisioUtilsError::InvalidFormat.message(), "Invalid data format");
    assert_eq!(VisioUtilsError::Io.message(), "IO error: failed to fill whole buffer");
}
