use binwrite::{utf8_bytes, write_pair, BinWrite, Endian, WriterOption};

fn with(endian: Endian) -> WriterOption {
    WriterOption::default().with_endian(endian)
}

fn written<T: BinWrite>(value: T, endian: Endian) -> Vec<u8> {
    let mut bytes: Vec<u8> = Vec::new();
    value.write_options(&mut bytes, &with(endian)).unwrap();
    bytes
}

#[test]
fn empty_tuple_is_no_bytes() {
    assert_eq!(written((), Endian::Big), Vec::<u8>::new());
    let mut bytes = vec![9u8];
    assert_eq!(().write(&mut bytes), Ok(()));
    assert_eq!(bytes, vec![9]);
}

#[test]
fn tuple_of_one() {
    assert_eq!(written((0x0102u16,), Endian::Big), vec![1, 2]);
}

#[test]
fn tuple_parts_come_in_order() {
    assert_eq!(written((1u8, 0x0203u16, 4u8), Endian::Big), vec![1, 2, 3, 4]);
    assert_eq!(written((1u8, 0x0203u16, 4u8), Endian::Little), vec![1, 3, 2, 4]);
    assert_eq!(
        written((0x0102u16, 'a', "bc", -1i8, [5u8, 6]), Endian::Little),
        vec![2, 1, b'a', b'b', b'c', 0xFF, 5, 6]
    );
}

#[test]
fn tuple_is_its_parts_joined() {
    let value = (0x01020304u32, -5i16, 'z', 7u64);
    for endian in [Endian::Big, Endian::Little] {
        let mut expected = written(value.0, endian);
        expected.extend(written(value.1, endian));
        expected.extend(written(value.2, endian));
        expected.extend(written(value.3, endian));
        assert_eq!(written(value, endian), expected);
    }
}

#[test]
fn tuple_of_twenty() {
    let value = (
        1u8, 2u8, 3u8, 4u8, 5u8, 6u8, 7u8, 8u8, 9u8, 10u8, 11u8, 12u8, 13u8, 14u8, 15u8, 16u8,
        17u8, 18u8, 19u8, 0x1415u16,
    );
    assert_eq!(
        written(value, Endian::Big),
        vec![1, 2, 3, 4, 5, 6, 7, 8, 9, 10, 11, 12, 13, 14, 15, 16, 17, 18, 19, 0x14, 0x15]
    );
    assert_eq!(
        written(value, Endian::Little),
        vec![1, 2, 3, 4, 5, 6, 7, 8, 9, 10, 11, 12, 13, 14, 15, 16, 17, 18, 19, 0x15, 0x14]
    );
}

#[test]
fn tuples_of_every_length() {
    let b = Endian::Big;
    assert_eq!(written((1u8, 2u8), b), vec![1, 2]);
    assert_eq!(written((1u8, 2u8, 3u8), b), vec![1, 2, 3]);
    assert_eq!(written((1u8, 2u8, 3u8, 4u8), b), vec![1, 2, 3, 4]);
    assert_eq!(written((1u8, 2u8, 3u8, 4u8, 5u8), b), vec![1, 2, 3, 4, 5]);
    assert_eq!(written((1u8, 2u8, 3u8, 4u8, 5u8, 6u8), b), vec![1, 2, 3, 4, 5, 6]);
    assert_eq!(written((1u8, 2u8, 3u8, 4u8, 5u8, 6u8, 7u8), b), vec![1, 2, 3, 4, 5, 6, 7]);
    assert_eq!(
        written((1u8, 2u8, 3u8, 4u8, 5u8, 6u8, 7u8, 8u8), b),
        vec![1, 2, 3, 4, 5, 6, 7, 8]
    );
    assert_eq!(
        written((1u8, 2u8, 3u8, 4u8, 5u8, 6u8, 7u8, 8u8, 9u8), b),
        vec![1, 2, 3, 4, 5, 6, 7, 8, 9]
    );
    assert_eq!(
        written((1u8, 2u8, 3u8, 4u8, 5u8, 6u8, 7u8, 8u8, 9u8, 10u8), b),
        vec![1, 2, 3, 4, 5, 6, 7, 8, 9, 10]
    );
    assert_eq!(
        written((1u8, 2u8, 3u8, 4u8, 5u8, 6u8, 7u8, 8u8, 9u8, 10u8, 11u8), b),
        vec![1, 2, 3, 4, 5, 6, 7, 8, 9, 10, 11]
    );
    assert_eq!(
        written((1u8, 2u8, 3u8, 4u8, 5u8, 6u8, 7u8, 8u8, 9u8, 10u8, 11u8, 12u8), b),
        vec![1, 2, 3, 4, 5, 6, 7, 8, 9, 10, 11, 12]
    );
    assert_eq!(
        written((1u8, 2u8, 3u8, 4u8, 5u8, 6u8, 7u8, 8u8, 9u8, 10u8, 11u8, 12u8, 13u8), b),
        vec![1, 2, 3, 4, 5, 6, 7, 8, 9, 10, 11, 12, 13]
    );
    assert_eq!(
        written((1u8, 2u8, 3u8, 4u8, 5u8, 6u8, 7u8, 8u8, 9u8, 10u8, 11u8, 12u8, 13u8, 14u8), b),
        vec![1, 2, 3, 4, 5, 6, 7, 8, 9, 10, 11, 12, 13, 14]
    );
    assert_eq!(
        written(
            (1u8, 2u8, 3u8, 4u8, 5u8, 6u8, 7u8, 8u8, 9u8, 10u8, 11u8, 12u8, 13u8, 14u8, 15u8),
            b
        ),
        vec![1, 2, 3, 4, 5, 6, 7, 8, 9, 10, 11, 12, 13, 14, 15]
    );
    assert_eq!(
        written(
            (
                1u8, 2u8, 3u8, 4u8, 5u8, 6u8, 7u8, 8u8, 9u8, 10u8, 11u8, 12u8, 13u8, 14u8, 15u8,
                16u8
            ),
            b
        ),
        vec![1, 2, 3, 4, 5, 6, 7, 8, 9, 10, 11, 12, 13, 14, 15, 16]
    );
    assert_eq!(
        written(
            (
                1u8, 2u8, 3u8, 4u8, 5u8, 6u8, 7u8, 8u8, 9u8, 10u8, 11u8, 12u8, 13u8, 14u8, 15u8,
                16u8, 17u8
            ),
            b
        ),
        vec![1, 2, 3, 4, 5, 6, 7, 8, 9, 10, 11, 12, 13, 14, 15, 16, 17]
    );
    assert_eq!(
        written(
            (
                1u8, 2u8, 3u8, 4u8, 5u8, 6u8, 7u8, 8u8, 9u8, 10u8, 11u8, 12u8, 13u8, 14u8, 15u8,
                16u8, 17u8, 18u8
            ),
            b
        ),
        vec![1, 2, 3, 4, 5, 6, 7, 8, 9, 10, 11, 12, 13, 14, 15, 16, 17, 18]
    );
    assert_eq!(
        written(
            (
                1u8, 2u8, 3u8, 4u8, 5u8, 6u8, 7u8, 8u8, 9u8, 10u8, 11u8, 12u8, 13u8, 14u8, 15u8,
                16u8, 17u8, 18u8, 19u8
            ),
            b
        ),
        vec![1, 2, 3, 4, 5, 6, 7, 8, 9, 10, 11, 12, 13, 14, 15, 16, 17, 18, 19]
    );
}

#[test]
fn nested_tuples() {
    assert_eq!(
        written(((1u8, 0x0203u16), ((), (4u8,)), [(5u8, 6u8), (7, 8)]), Endian::Big),
        vec![1, 2, 3, 4, 5, 6, 7, 8]
    );
}

#[test]
fn arrays_come_in_index_order() {
    assert_eq!(written([0x0102u16, 0x0304, 0x0506], Endian::Big), vec![1, 2, 3, 4, 5, 6]);
    assert_eq!(written([0x0102u16, 0x0304, 0x0506], Endian::Little), vec![2, 1, 4, 3, 6, 5]);
    assert_eq!(written([7u32; 0], Endian::Big), Vec::<u8>::new());
    assert_eq!(written(['a', 'b', 'c'], Endian::Big), b"abc".to_vec());
    assert_eq!(written([1u8; 25], Endian::Little), vec![1u8; 25]);
}

#[test]
fn vectors_and_slices_are_their_values_joined() {
    let values = vec![0x0102u16, 0xFFFE, 0, 0x8000];
    for endian in [Endian::Big, Endian::Little] {
        let mut expected: Vec<u8> = Vec::new();
        for v in values.iter() {
            expected.extend(written(*v, endian));
        }
        assert_eq!(written(values.clone(), endian), expected);
        let mut bytes: Vec<u8> = Vec::new();
        values[..].write_options(&mut bytes, &with(endian)).unwrap();
        assert_eq!(bytes, expected);
        let mut bytes: Vec<u8> = Vec::new();
        values[1..3].write_options(&mut bytes, &with(endian)).unwrap();
        assert_eq!(bytes, expected[2..6].to_vec());
    }
    assert_eq!(written(Vec::<u64>::new(), Endian::Big), Vec::<u8>::new());
    assert_eq!(written(vec![vec![1u8, 2], vec![], vec![3]], Endian::Big), vec![1, 2, 3]);
}

#[test]
fn no_length_goes_before_a_vector() {
    assert_eq!(written(vec![0u8, 1, 2, 3], Endian::Big), vec![0, 1, 2, 3]);
    let with_length = (4u32, vec![0u8, 1, 2, 3]);
    assert_eq!(written(with_length, Endian::Big), vec![0, 0, 0, 4, 0, 1, 2, 3]);
}

#[test]
fn a_reference_is_written_as_its_value() {
    let value = 0x01020304u32;
    assert_eq!(written(&value, Endian::Big), written(value, Endian::Big));
    assert_eq!(written(&&value, Endian::Little), written(value, Endian::Little));
    let pair = (1u8, 0x0203u16);
    assert_eq!(written(&pair, Endian::Big), vec![1, 2, 3]);
    assert_eq!(written((&1u8, &0x0203u16), Endian::Big), vec![1, 2, 3]);
}

#[test]
fn bytes_are_written_as_they_are() {
    let data: &[u8] = &[9, 8, 7];
    assert_eq!(written(data, Endian::Little), vec![9, 8, 7]);
    assert_eq!(written(data, Endian::Big), vec![9, 8, 7]);
    let none: &[u8] = &[];
    assert_eq!(written(none, Endian::Big), Vec::<u8>::new());
}

#[test]
fn text_is_written_in_utf8() {
    for endian in [Endian::Big, Endian::Little, Endian::Native] {
        assert_eq!(written("abc", endian), b"abc".to_vec());
        assert_eq!(written(String::from("h\u{e9}llo"), endian), "h\u{e9}llo".as_bytes().to_vec());
        assert_eq!(written("", endian), Vec::<u8>::new());
    }
    let mut bytes: Vec<u8> = Vec::new();
    "\u{20ac}5".write_options(&mut bytes, &with(Endian::Big)).unwrap();
    assert_eq!(bytes, vec![0xE2, 0x82, 0xAC, b'5']);
}

#[test]
fn a_character_is_written_in_utf8() {
    assert_eq!(written('a', Endian::Big), vec![0x61]);
    assert_eq!(written('\u{e9}', Endian::Big), vec![0xC3, 0xA9]);
    assert_eq!(written('\u{20ac}', Endian::Little), vec![0xE2, 0x82, 0xAC]);
    assert_eq!(written('\u{1f600}', Endian::Little), vec![0xF0, 0x9F, 0x98, 0x80]);
    assert_eq!(written('\0', Endian::Big), vec![0]);
}

#[test]
fn utf8_of_characters_at_the_edges() {
    let edges = [
        '\0', '\u{7f}', '\u{80}', '\u{7ff}', '\u{800}', '\u{d7ff}', '\u{e000}', '\u{ffff}',
        '\u{10000}', '\u{10ffff}',
    ];
    for c in edges {
        let mut buffer = [0u8; 4];
        let expected = c.encode_utf8(&mut buffer).as_bytes().to_vec();
        assert_eq!(utf8_bytes(c), expected);
        assert_eq!(written(c, Endian::Big), expected);
    }
}

#[test]
fn a_pair_is_first_then_second() {
    let mut bytes: Vec<u8> = Vec::new();
    write_pair(&0x0102u16, &"x", &mut bytes, &with(Endian::Little)).unwrap();
    assert_eq!(bytes, vec![2, 1, b'x']);
}

#[test]
fn floating_point_goes_by_its_bits() {
    let value = (1u8, 1.5f32.to_bits(), vec![(-2.25f64).to_bits()]);
    let mut expected = vec![1u8];
    expected.extend_from_slice(&1.5f32.to_be_bytes());
    expected.extend_from_slice(&(-2.25f64).to_be_bytes());
    assert_eq!(written(value, Endian::Big), expected);
}
