use pvz_demo::plain::Plain;

#[test]
fn a_four_byte_integer_has_four_bytes() {
    assert_eq!(<i32 as Plain>::size_of(), 4);
    assert_eq!(Plain::to_bytes(&0i32).len(), 4);
}

#[test]
fn bytes_are_lowest_first() {
    assert_eq!(Plain::to_bytes(&9990i32), vec![0x06, 0x27, 0x00, 0x00]);
    assert_eq!(Plain::to_bytes(&0x6A9EC0i32), vec![0xC0, 0x9E, 0x6A, 0x00]);
    assert_eq!(Plain::to_bytes(&0x12345678i32), vec![0x78, 0x56, 0x34, 0x12]);
    assert_eq!(Plain::to_bytes(&0i32), vec![0, 0, 0, 0]);
}

#[test]
fn negative_values_are_in_twos_complement() {
    assert_eq!(Plain::to_bytes(&-1i32), vec![0xFF, 0xFF, 0xFF, 0xFF]);
    assert_eq!(Plain::to_bytes(&-2i32), vec![0xFE, 0xFF, 0xFF, 0xFF]);
    assert_eq!(Plain::to_bytes(&i32::MIN), vec![0x00, 0x00, 0x00, 0x80]);
    assert_eq!(Plain::to_bytes(&i32::MAX), vec![0xFF, 0xFF, 0xFF, 0x7F]);
}

#[test]
fn from_bytes_reads_lowest_first() {
    assert_eq!(<i32 as Plain>::from_bytes(&[0x06, 0x27, 0x00, 0x00]), 9990);
    assert_eq!(<i32 as Plain>::from_bytes(&[0x78, 0x56, 0x34, 0x12]), 0x12345678);
    assert_eq!(<i32 as Plain>::from_bytes(&[0xFF, 0xFF, 0xFF, 0xFF]), -1);
    assert_eq!(<i32 as Plain>::from_bytes(&[0x00, 0x00, 0x00, 0x80]), i32::MIN);
    assert_eq!(<i32 as Plain>::from_bytes(&[0xFF, 0xFF, 0xFF, 0x7F]), i32::MAX);
    assert_eq!(<i32 as Plain>::from_bytes(&[0, 0, 0, 0]), 0);
}

#[test]
fn bytes_agree_with_the_standard_layout() {
    for value in [0i32, 1, -1, 9990, 50, i32::MIN, i32::MAX, 0x6A9EC0, -0x768, 0x0100_0000, 0x00FF_FFFF] {
        assert_eq!(Plain::to_bytes(&value), value.to_le_bytes().to_vec());
        assert_eq!(<i32 as Plain>::from_bytes(&value.to_le_bytes()), value);
    }
}

#[test]
fn a_value_read_from_its_bytes_is_the_value() {
    for value in [0i32, 1, -1, 9990, i32::MIN, i32::MAX, 255, 256, 65535, 65536, -65536] {
        let bytes = Plain::to_bytes(&value);
        assert_eq!(<i32 as Plain>::from_bytes(&bytes), value);
    }
}
