use write_into::{write_into, Plain};

#[test]
fn write_u8() {
    let mut buffer = Vec::new();
    write_into(&mut buffer, Plain(&0x7Fu8));
    assert_eq!(&buffer, &[0x7F]);
}

#[test]
fn write_str() {
    let bytes = "([java/lang/String;)V";
    let mut buffer = Vec::new();
    write_into(&mut buffer, Plain(bytes));
    assert_eq!(&buffer, b"([java/lang/String;)V");
}

#[test]
fn write_slice_of_arrays() {
    let bytes: &[[u8; 2]] = &[[0x01, 0x02], [0x03, 0x04]];
    let mut buffer = Vec::new();
    write_into(&mut buffer, Plain(bytes));
    assert_eq!(&buffer, &[0x01, 0x02, 0x03, 0x04]);
}

#[test]
fn packed_fields_are_concatenated() {
    let color: [u8; 4] = [0x18, 0x18, 0x18, 0xFF];
    let mut buffer = Vec::new();
    write_into(&mut buffer, Plain(&color));
    assert_eq!(&buffer, &[0x18, 0x18, 0x18, 0xFF]);

    let magic: &[u8; 4] = b"\0asm";
    let mut buffer = Vec::new();
    write_into(&mut buffer, Plain(magic));
    assert_eq!(&buffer, b"\0asm");
}

#[test]
fn plain_slices_and_values() {
    let bytes: &[u8] = b"([java/lang/String;)V";
    let mut buffer = Vec::new();
    write_into(&mut buffer, Plain(bytes));
    assert_eq!(&buffer, b"([java/lang/String;)V");

    let mut buffer = Vec::new();
    write_into(&mut buffer, Plain(-1i8));
    write_into(&mut buffer, Plain(true));
    write_into(&mut buffer, Plain(0x42u8));
    write_into(&mut buffer, Plain(&[[false, true], [true, false]]));
    assert_eq!(&buffer, &[0xFF, 0x01, 0x42, 0x00, 0x01, 0x01, 0x00]);
}

#[test]
fn text_is_utf8_without_framing() {
    let mut buffer = Vec::new();
    write_into(&mut buffer, Plain("é€"));
    assert_eq!(&buffer, "é€".as_bytes());

    let mut buffer = Vec::new();
    write_into(&mut buffer, Plain(""));
    assert!(buffer.is_empty());
}

#[test]
fn wider_values_use_native_layout() {
    let mut buffer = Vec::new();
    write_into(&mut buffer, Plain(&0x12345678u32));
    assert_eq!(buffer, 0x12345678u32.to_ne_bytes());

    let mut buffer = Vec::new();
    write_into(&mut buffer, Plain(-2i16));
    write_into(&mut buffer, Plain(0x0102030405060708u64));
    let mut expected = (-2i16).to_ne_bytes().to_vec();
    expected.extend_from_slice(&0x0102030405060708u64.to_ne_bytes());
    assert_eq!(buffer, expected);

    let mut buffer = Vec::new();
    write_into(&mut buffer, Plain('A'));
    write_into(&mut buffer, Plain(usize::MAX - 1));
    write_into(&mut buffer, Plain(i128::MIN));
    let mut expected = ('A' as u32).to_ne_bytes().to_vec();
    expected.extend_from_slice(&(usize::MAX - 1).to_ne_bytes());
    expected.extend_from_slice(&i128::MIN.to_ne_bytes());
    assert_eq!(buffer, expected);
}

#[test]
fn slice_of_wide_values_is_one_flat_run() {
    let values: &[u16] = &[0x0102, 0x0304];
    let mut buffer = Vec::new();
    write_into(&mut buffer, Plain(values));
    let mut expected = 0x0102u16.to_ne_bytes().to_vec();
    expected.extend_from_slice(&0x0304u16.to_ne_bytes());
    assert_eq!(buffer, expected);
}
