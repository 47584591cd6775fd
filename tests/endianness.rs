use write_into::{write_into, BigEndian, LittleEndian};

#[test]
fn char_be() {
    let mut buffer = Vec::new();
    write_into(&mut buffer, BigEndian('\x7F'));
    assert_eq!(buffer, 0x7Fu32.to_be_bytes());
}

#[test]
fn char_le() {
    let mut buffer = Vec::new();
    write_into(&mut buffer, LittleEndian('\x7F'));
    assert_eq!(buffer, 0x7Fu32.to_le_bytes());
}

#[test]
fn big_endian_u32() {
    let mut buffer = Vec::new();
    write_into(&mut buffer, BigEndian(0xCAFEBABEu32));
    assert_eq!(&buffer, &[0xCA, 0xFE, 0xBA, 0xBE]);
}

#[test]
fn little_endian_u32() {
    let mut buffer = Vec::new();
    write_into(&mut buffer, LittleEndian(0xCAFEBABEu32));
    assert_eq!(&buffer, &[0xBE, 0xBA, 0xFE, 0xCA]);
}

#[test]
fn signed_values_use_twos_complement() {
    let mut buffer = Vec::new();
    write_into(&mut buffer, BigEndian(-2i16));
    write_into(&mut buffer, LittleEndian(-2i32));
    write_into(&mut buffer, BigEndian(i8::MIN));
    assert_eq!(&buffer, &[0xFF, 0xFE, 0xFE, 0xFF, 0xFF, 0xFF, 0x80]);
}

#[test]
fn widths_match_std() {
    let mut buffer = Vec::new();
    write_into(&mut buffer, BigEndian(0x0102030405060708u64));
    assert_eq!(buffer, 0x0102030405060708u64.to_be_bytes());

    let mut buffer = Vec::new();
    write_into(&mut buffer, LittleEndian(u128::MAX - 1));
    assert_eq!(buffer, (u128::MAX - 1).to_le_bytes());

    let mut buffer = Vec::new();
    write_into(&mut buffer, BigEndian(0x1234usize));
    assert_eq!(buffer, 0x1234usize.to_be_bytes());

    let mut buffer = Vec::new();
    write_into(&mut buffer, LittleEndian(-5isize));
    assert_eq!(buffer, (-5isize).to_le_bytes());
}

#[test]
fn booleans_take_one_byte() {
    let mut buffer = Vec::new();
    write_into(&mut buffer, BigEndian(true));
    write_into(&mut buffer, LittleEndian(false));
    write_into(&mut buffer, LittleEndian(true));
    assert_eq!(&buffer, &[0x01, 0x00, 0x01]);
}

#[test]
fn writes_append_to_the_sink() {
    let mut buffer = vec![0x11u8];
    write_into(&mut buffer, BigEndian(0x2233u16));
    assert_eq!(&buffer, &[0x11, 0x22, 0x33]);
}
