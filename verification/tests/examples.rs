use binwrite::writers::{null_terminated_string, utf16_null_string, utf16_string};
use binwrite::{BinWrite, Endian, WriterOption};

fn with(endian: Endian) -> WriterOption {
    WriterOption::default().with_endian(endian)
}

#[test]
fn u32_one_little() {
    let mut bytes: Vec<u8> = Vec::new();
    1u32.write_options(&mut bytes, &with(Endian::Little)).unwrap();
    assert_eq!(bytes, vec![0x01, 0x00, 0x00, 0x00]);
}

#[test]
fn u32_one_big() {
    let mut bytes: Vec<u8> = Vec::new();
    1u32.write_options(&mut bytes, &with(Endian::Big)).unwrap();
    assert_eq!(bytes, vec![0x00, 0x00, 0x00, 0x01]);
}

#[test]
fn pair_of_u16_big() {
    let mut bytes: Vec<u8> = Vec::new();
    (3u16, 4u16).write_options(&mut bytes, &with(Endian::Big)).unwrap();
    assert_eq!(bytes, vec![0x00, 0x03, 0x00, 0x04]);
}

#[test]
fn i32_minus_two_little() {
    let mut bytes: Vec<u8> = Vec::new();
    (-2i32).write_options(&mut bytes, &with(Endian::Little)).unwrap();
    assert_eq!(bytes, vec![0xFE, 0xFF, 0xFF, 0xFF]);
}

#[test]
fn null_terminated_abc() {
    let mut bytes: Vec<u8> = Vec::new();
    null_terminated_string("abc", &mut bytes, &with(Endian::Big)).unwrap();
    assert_eq!(bytes, vec![0x61, 0x62, 0x63, 0x00]);
}

#[test]
fn wide_ab_little() {
    let mut bytes: Vec<u8> = Vec::new();
    utf16_string("ab", &mut bytes, &with(Endian::Little)).unwrap();
    assert_eq!(bytes, vec![0x61, 0x00, 0x62, 0x00]);
}

#[test]
fn wide_null_a_big() {
    let mut bytes: Vec<u8> = Vec::new();
    utf16_null_string("a", &mut bytes, &with(Endian::Big)).unwrap();
    assert_eq!(bytes, vec![0x00, 0x61, 0x00, 0x00]);
}

#[test]
fn records_of_mixed_order() {
    // Two records, each `x` and `y` little endian and a pair of sizes big endian.
    let little = with(Endian::Little);
    let big = with(Endian::Big);
    let records = [(1i32, -2i32, (3u16, 4u16)), (20, 4, (5, 7))];
    let mut bytes: Vec<u8> = Vec::new();
    for (x, y, size) in records.iter() {
        x.write_options(&mut bytes, &little).unwrap();
        y.write_options(&mut bytes, &little).unwrap();
        size.write_options(&mut bytes, &big).unwrap();
    }
    assert_eq!(
        bytes,
        vec![
            0x01, 0x00, 0x00, 0x00, 0xFE, 0xFF, 0xFF, 0xFF, 0x00, 0x03, 0x00, 0x04, 0x14, 0x00,
            0x00, 0x00, 0x04, 0x00, 0x00, 0x00, 0x00, 0x05, 0x00, 0x07,
        ]
    );
}
