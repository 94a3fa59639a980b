use binwrite::writers::{encode_utf16, null_terminated_string, utf16_null_string, utf16_string};
use binwrite::{Endian, WriterOption};

fn with(endian: Endian) -> WriterOption {
    WriterOption::default().with_endian(endian)
}

#[test]
fn null_terminated_text() {
    let mut bytes: Vec<u8> = Vec::new();
    null_terminated_string("this is null terminated", &mut bytes, &with(Endian::Little)).unwrap();
    assert_eq!(bytes, b"this is null terminated\0".to_vec());
    let mut bytes: Vec<u8> = Vec::new();
    null_terminated_string("", &mut bytes, &with(Endian::Big)).unwrap();
    assert_eq!(bytes, vec![0]);
    let mut bytes: Vec<u8> = Vec::new();
    null_terminated_string("\u{e9}", &mut bytes, &with(Endian::Big)).unwrap();
    assert_eq!(bytes, vec![0xC3, 0xA9, 0]);
}

#[test]
fn null_terminated_number_as_text() {
    let mut bytes: Vec<u8> = Vec::new();
    null_terminated_string(&format!("{}", 1234u32), &mut bytes, &with(Endian::Big)).unwrap();
    null_terminated_string("this is null terminated", &mut bytes, &with(Endian::Big)).unwrap();
    assert_eq!(bytes, b"1234\0this is null terminated\0".to_vec());
}

#[test]
fn wide_text_follows_the_order() {
    let mut bytes: Vec<u8> = Vec::new();
    utf16_string("ab", &mut bytes, &with(Endian::Big)).unwrap();
    assert_eq!(bytes, vec![0x00, 0x61, 0x00, 0x62]);
    let mut bytes: Vec<u8> = Vec::new();
    utf16_string("\u{20ac}", &mut bytes, &with(Endian::Little)).unwrap();
    assert_eq!(bytes, vec![0xAC, 0x20]);
    let mut bytes: Vec<u8> = Vec::new();
    utf16_string("", &mut bytes, &with(Endian::Little)).unwrap();
    assert_eq!(bytes, Vec::<u8>::new());
}

#[test]
fn wide_text_beyond_sixteen_bits() {
    let mut bytes: Vec<u8> = Vec::new();
    utf16_string("\u{1f600}", &mut bytes, &with(Endian::Little)).unwrap();
    assert_eq!(bytes, vec![0x3D, 0xD8, 0x00, 0xDE]);
    let mut bytes: Vec<u8> = Vec::new();
    utf16_string("a\u{1f600}b", &mut bytes, &with(Endian::Big)).unwrap();
    assert_eq!(bytes, vec![0x00, 0x61, 0xD8, 0x3D, 0xDE, 0x00, 0x00, 0x62]);
}

#[test]
fn wide_null_terminated_text() {
    let mut bytes: Vec<u8> = Vec::new();
    utf16_null_string("ab", &mut bytes, &with(Endian::Little)).unwrap();
    assert_eq!(bytes, vec![0x61, 0x00, 0x62, 0x00, 0x00, 0x00]);
    let mut bytes: Vec<u8> = Vec::new();
    utf16_null_string("", &mut bytes, &with(Endian::Big)).unwrap();
    assert_eq!(bytes, vec![0x00, 0x00]);
}

#[test]
fn wide_text_under_the_machines_order() {
    let mut bytes: Vec<u8> = Vec::new();
    utf16_string("hi", &mut bytes, &WriterOption::default()).unwrap();
    let mut expected: Vec<u8> = Vec::new();
    for unit in "hi".encode_utf16() {
        expected.extend_from_slice(&unit.to_ne_bytes());
    }
    assert_eq!(bytes, expected);
}

#[test]
fn utf16_units_of_text() {
    assert_eq!(encode_utf16("ab"), vec![0x61, 0x62]);
    assert_eq!(encode_utf16(""), Vec::<u16>::new());
    assert_eq!(encode_utf16("\u{1f600}"), vec![0xD83D, 0xDE00]);
    assert_eq!(encode_utf16("\u{10000}"), vec![0xD800, 0xDC00]);
    assert_eq!(encode_utf16("\u{10ffff}"), vec![0xDBFF, 0xDFFF]);
    assert_eq!(encode_utf16("\u{ffff}"), vec![0xFFFF]);
    let samples = ["", "plain", "h\u{e9}llo w\u{f6}rld", "\u{d7ff}\u{e000}", "x\u{1f600}y\u{10348}z"];
    for s in samples {
        let expected: Vec<u16> = s.encode_utf16().collect();
        assert_eq!(encode_utf16(s), expected);
    }
}
