use psd_rs::sections::psd_cursor::u32_from_be_bytes;
use psd_rs::sections::psd_cursor::PSDCursor;

#[test]
fn cursor_starts_at_zero_and_peek_does_not_move() {
    let bytes = [1u8, 2, 3, 4, 5, 6];
    let cursor = PSDCursor::new(&bytes);
    assert_eq!(cursor.position(), 0);
    assert_eq!(cursor.remaining(), 6);
    assert_eq!(cursor.peek(2), &[1, 2]);
    assert_eq!(cursor.peek_4bytes(), &[1, 2, 3, 4]);
    assert_eq!(cursor.peek(0), &[] as &[u8]);
    assert_eq!(cursor.position(), 0);
}

#[test]
fn cursor_reads_advance_by_what_they_return() {
    let bytes = [1u8, 2, 3, 4, 5, 6, 7, 8, 9, 10, 11, 12, 13, 14, 15, 16];
    let mut cursor = PSDCursor::new(&bytes);
    assert_eq!(cursor.read(3), &[1, 2, 3]);
    assert_eq!(cursor.position(), 3);
    assert_eq!(cursor.read_2bytes(), &[4, 5]);
    assert_eq!(cursor.position(), 5);
    assert_eq!(cursor.read_4bytes(), &[6, 7, 8, 9]);
    assert_eq!(cursor.position(), 9);
    assert_eq!(cursor.read_6bytes(), &[10, 11, 12, 13, 14, 15]);
    assert_eq!(cursor.position(), 15);
    assert_eq!(cursor.read_1byte_as_u8(), 16);
    assert_eq!(cursor.position(), 16);
    assert_eq!(cursor.remaining(), 0);
    assert_eq!(cursor.read(0), &[] as &[u8]);
    assert_eq!(cursor.position(), 16);
}

#[test]
fn cursor_decodes_big_endian_integers() {
    let bytes = [0x12u8, 0x34, 0xFF, 0xFE, 0x80, 0x00, 0x7F, 0xFF, 0x04, 0x1A, 0xDE, 0xAD, 0xBE, 0xEF];
    let mut cursor = PSDCursor::new(&bytes);
    assert_eq!(cursor.read_2bytes_as_u16(), 0x1234);
    assert_eq!(cursor.read_2bytes_as_i16(), -2);
    assert_eq!(cursor.read_2bytes_as_i16(), -32768);
    assert_eq!(cursor.read_2bytes_as_i16(), 32767);
    assert_eq!(cursor.read_2bytes_as_i16(), 1050);
    assert_eq!(cursor.read_4bytes_as_u32(), 0xDEADBEEF);
    assert_eq!(cursor.position(), 14);
}

#[test]
fn be_bytes_to_u32() {
    assert_eq!(u32_from_be_bytes(&[0, 0, 0, 0]), 0);
    assert_eq!(u32_from_be_bytes(&[0, 0, 1, 2]), 258);
    assert_eq!(u32_from_be_bytes(&[1, 0, 0, 0]), 16777216);
    assert_eq!(u32_from_be_bytes(&[0xFF, 0xFF, 0xFF, 0xFF]), u32::MAX);
}

#[test]
fn empty_pascal_string_takes_two_bytes() {
    let bytes = [0u8, 0, 7];
    let mut cursor = PSDCursor::new(&bytes);
    assert_eq!(cursor.read_pascal_string(), "");
    assert_eq!(cursor.position(), 2);
}

#[test]
fn odd_pascal_string_has_no_padding() {
    let bytes = [3u8, b'a', b'b', b'c', 7];
    let mut cursor = PSDCursor::new(&bytes);
    assert_eq!(cursor.read_pascal_string(), "abc");
    assert_eq!(cursor.position(), 4);
    let one = [1u8, b'x'];
    let mut cursor = PSDCursor::new(&one);
    assert_eq!(cursor.read_pascal_string(), "x");
    assert_eq!(cursor.position(), 2);
}

#[test]
fn even_pascal_string_has_one_pad_byte() {
    let bytes = [4u8, b'n', b'a', b'm', b'e', 0, 7];
    let mut cursor = PSDCursor::new(&bytes);
    assert_eq!(cursor.read_pascal_string(), "name");
    assert_eq!(cursor.position(), 6);
}

#[test]
fn pascal_string_decodes_utf8() {
    let bytes = [3u8, 0xE2, 0x82, 0xAC];
    let mut cursor = PSDCursor::new(&bytes);
    assert_eq!(cursor.read_pascal_string(), "\u{20AC}");
    assert_eq!(cursor.position(), 4);
}

#[test]
fn pascal_string_replaces_invalid_utf8() {
    let bytes = [3u8, b'a', 0xFF, b'b'];
    let mut cursor = PSDCursor::new(&bytes);
    assert_eq!(cursor.read_pascal_string(), "a\u{FFFD}b");
    assert_eq!(cursor.position(), 4);
}

#[test]
fn longest_pascal_string() {
    let mut bytes = vec![255u8];
    bytes.extend_from_slice(&[b'z'; 255]);
    let mut cursor = PSDCursor::new(&bytes);
    assert_eq!(cursor.read_pascal_string(), "z".repeat(255));
    assert_eq!(cursor.position(), 256);
}
