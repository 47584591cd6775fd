use write_into::{count_bits_in_chunks, max_leb128_size, write_into, Sleb128, Uleb128};

fn unsigned(number: u16) -> Vec<u8> {
    let mut buffer = Vec::new();
    let written = write_into(&mut buffer, Uleb128(number));
    assert_eq!(written, buffer.len());
    buffer
}

fn signed(number: i16) -> Vec<u8> {
    let mut buffer = Vec::new();
    let written = write_into(&mut buffer, Sleb128(number));
    assert_eq!(written, buffer.len());
    buffer
}

#[test]
fn max_leb128_size_for_primitive_types() {
    assert_eq!(max_leb128_size(1), 2);
    assert_eq!(max_leb128_size(2), 3);
    assert_eq!(max_leb128_size(4), 5);
    assert_eq!(max_leb128_size(8), 10);
    assert_eq!(max_leb128_size(16), 19);
}

#[test]
fn chunk_counts_round_up() {
    assert_eq!(count_bits_in_chunks(0, 7), 0);
    assert_eq!(count_bits_in_chunks(7, 7), 1);
    assert_eq!(count_bits_in_chunks(8, 7), 2);
    assert_eq!(count_bits_in_chunks(80, 8), 10);
    assert_eq!(count_bits_in_chunks(usize::MAX, 2), usize::MAX / 2 + 1);
}

#[test]
fn write_u16() {
    assert_eq!(unsigned(0), [0x00]);
    assert_eq!(unsigned(69), [0x45]);
    assert_eq!(unsigned(123), [0x7B]);
    assert_eq!(unsigned(127), [0x7F]);
    assert_eq!(unsigned(128), [0x80, 0x01]);
    assert_eq!(unsigned(228), [0xE4, 0x01]);
    assert_eq!(unsigned(255), [0xFF, 0x01]);
    assert_eq!(unsigned(4200), [0xE8, 0x20]);
    assert_eq!(unsigned(16383), [0xFF, 0x7F]);
    assert_eq!(unsigned(32767), [0xFF, 0xFF, 0x01]);
    assert_eq!(unsigned(42000), [0x90, 0xC8, 0x02]);
    assert_eq!(unsigned(65535), [0xFF, 0xFF, 0x03]);
}

#[test]
fn write_i16() {
    assert_eq!(signed(-32768), [0x80, 0x80, 0x7E]);
    assert_eq!(signed(-8192), [0x80, 0x40]);
    assert_eq!(signed(-4200), [0x98, 0x5F]);
    assert_eq!(signed(-128), [0x80, 0x7F]);
    assert_eq!(signed(-123), [0x85, 0x7F]);
    assert_eq!(signed(-69), [0xBB, 0x7F]);
    assert_eq!(signed(-34), [0x5E]);
    assert_eq!(signed(0), [0x00]);
    assert_eq!(signed(34), [0x22]);
    assert_eq!(signed(69), [0xC5, 0x00]);
    assert_eq!(signed(123), [0xFB, 0x00]);
    assert_eq!(signed(127), [0xFF, 0x00]);
    assert_eq!(signed(4200), [0xE8, 0x20]);
    assert_eq!(signed(8191), [0xFF, 0x3F]);
    assert_eq!(signed(32767), [0xFF, 0xFF, 0x01]);
}

#[test]
fn documented_examples() {
    let mut buffer = Vec::new();
    assert_eq!(write_into(&mut buffer, Uleb128(69u32)), 1);
    assert_eq!(&buffer, &[0x45]);

    let mut buffer = Vec::new();
    assert_eq!(write_into(&mut buffer, Uleb128(128u32)), 2);
    assert_eq!(&buffer, &[0x80, 0x01]);

    let mut buffer = Vec::new();
    assert_eq!(write_into(&mut buffer, Sleb128(-69i32)), 2);
    assert_eq!(&buffer, &[0xBB, 0x7F]);

    let mut buffer = Vec::new();
    write_into(&mut buffer, Sleb128(-128i64));
    assert_eq!(&buffer, &[0x80, 0x7F]);

    let mut buffer = Vec::new();
    write_into(&mut buffer, Sleb128(0i8));
    assert_eq!(&buffer, &[0x00]);
}

#[test]
fn signed_edge_values() {
    let mut buffer = Vec::new();
    assert_eq!(write_into(&mut buffer, Sleb128(-1i32)), 1);
    assert_eq!(&buffer, &[0x7F]);

    let mut buffer = Vec::new();
    assert_eq!(write_into(&mut buffer, Sleb128(i8::MIN)), 2);
    assert_eq!(&buffer, &[0x80, 0x7F]);

    let mut buffer = Vec::new();
    assert_eq!(write_into(&mut buffer, Sleb128(i8::MAX)), 2);
    assert_eq!(&buffer, &[0xFF, 0x00]);

    let mut buffer = Vec::new();
    assert_eq!(write_into(&mut buffer, Sleb128(-64i16)), 1);
    assert_eq!(&buffer, &[0x40]);

    let mut buffer = Vec::new();
    assert_eq!(write_into(&mut buffer, Sleb128(64i16)), 2);
    assert_eq!(&buffer, &[0xC0, 0x00]);
}

#[test]
fn widest_values_fill_the_bound() {
    let mut buffer = Vec::new();
    assert_eq!(write_into(&mut buffer, Uleb128(u128::MAX)), 19);
    assert_eq!(buffer[18], 0x03);
    assert!(buffer[..18].iter().all(|b| *b == 0xFF));

    let mut buffer = Vec::new();
    assert_eq!(write_into(&mut buffer, Uleb128(u64::MAX)), 10);
    assert_eq!(buffer[9], 0x01);

    let mut buffer = Vec::new();
    assert_eq!(write_into(&mut buffer, Sleb128(i128::MIN)), 19);
    assert_eq!(buffer[18], 0x7E);

    let mut buffer = Vec::new();
    assert_eq!(write_into(&mut buffer, Sleb128(i64::MIN)), 10);
    assert_eq!(buffer[9], 0x7F);

    let mut buffer = Vec::new();
    assert_eq!(write_into(&mut buffer, Uleb128(u8::MAX)), 2);
    assert_eq!(&buffer, &[0xFF, 0x01]);

    let mut buffer = Vec::new();
    assert_eq!(write_into(&mut buffer, Uleb128(usize::MAX)), max_leb128_size(std::mem::size_of::<usize>()));
}

#[test]
fn unsigned_round_trip_decodes() {
    for number in [0u64, 1, 127, 128, 300, 16384, 1 << 35, u64::MAX] {
        let mut buffer = Vec::new();
        let written = write_into(&mut buffer, Uleb128(number));
        let mut value: u128 = 0;
        for (i, byte) in buffer.iter().enumerate() {
            value |= ((byte & 0x7F) as u128) << (7 * i);
            assert_eq!(byte & 0x80 != 0, i + 1 < written);
        }
        assert_eq!(value, number as u128);
    }
}

#[test]
fn signed_round_trip_decodes() {
    for number in [0i64, -1, 63, -64, 64, -65, 1 << 40, -(1 << 40), i64::MAX, i64::MIN] {
        let mut buffer = Vec::new();
        write_into(&mut buffer, Sleb128(number));
        let mut value: i128 = 0;
        let mut shift = 0;
        for byte in &buffer {
            value |= ((byte & 0x7F) as i128) << shift;
            shift += 7;
        }
        if buffer[buffer.len() - 1] & 0x40 != 0 {
            value -= 1i128 << shift;
        }
        assert_eq!(value, number as i128);
    }
}
