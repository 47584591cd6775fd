use write_into::{write_into, BigEndian, Plain, Sequence, Sized, SizedSequence, Uleb128};

#[test]
fn size_prefixed_text() {
    let mut buffer = Vec::new();
    let written = write_into(&mut buffer, Sized(Uleb128, Plain("Hello, Sailor!")));
    assert_eq!(written, 14);
    assert_eq!(&buffer, b"\x0EHello, Sailor!");
}

#[test]
fn size_field_counts_encoded_bytes() {
    let mut buffer = Vec::new();
    let written = write_into(&mut buffer, Sized(|size| BigEndian(size as u16), Uleb128(300u32)));
    assert_eq!(written, 2);
    assert_eq!(&buffer, &[0x00, 0x02, 0xAC, 0x02]);
}

#[test]
fn long_payload_takes_a_wider_size_field() {
    let text = "x".repeat(200);
    let mut buffer = Vec::new();
    let written = write_into(&mut buffer, Sized(Uleb128, Plain(text.as_str())));
    assert_eq!(written, 200);
    assert_eq!(&buffer[..2], &[0xC8, 0x01]);
    assert_eq!(buffer.len(), 202);
}

#[test]
fn empty_payload() {
    let mut buffer = Vec::new();
    let written = write_into(&mut buffer, Sized(Uleb128, Plain("")));
    assert_eq!(written, 0);
    assert_eq!(&buffer, &[0x00]);
}

#[test]
fn sequence_of_big_endian_values() {
    let mut buffer = Vec::new();
    let written = write_into(&mut buffer, Sequence(vec![BigEndian(0xAABBu16), BigEndian(0xCCDDu16)]));
    assert_eq!(written, 2);
    assert_eq!(&buffer, &[0xAA, 0xBB, 0xCC, 0xDD]);
}

#[test]
fn empty_sequence() {
    let mut buffer = Vec::new();
    let written = write_into(&mut buffer, Sequence(Vec::<Uleb128<u8>>::new()));
    assert_eq!(written, 0);
    assert!(buffer.is_empty());
}

#[test]
fn sized_sequence_writes_count_first() {
    let mut buffer = Vec::new();
    let written = write_into(
        &mut buffer,
        SizedSequence(|size| BigEndian(size as u16), vec![BigEndian(0xAABBu16), BigEndian(0xCCDDu16)]),
    );
    assert_eq!(written, 2);
    assert_eq!(&buffer, &[0x00, 0x02, 0xAA, 0xBB, 0xCC, 0xDD]);
}

#[test]
fn nested_wrappers() {
    let mut buffer = Vec::new();
    let written = write_into(
        &mut buffer,
        Sequence(vec![Sized(Uleb128, Plain("ab")), Sized(Uleb128, Plain("c"))]),
    );
    assert_eq!(written, 2);
    assert_eq!(&buffer, &[0x02, b'a', b'b', 0x01, b'c']);
}
