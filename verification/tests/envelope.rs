use lt_kafka::envelope::{decode, encode, Envelope, EnvelopeError};

#[test]
fn encode_puts_magic_and_big_endian_id_before_payload() {
    assert_eq!(encode(42, b"hello"), vec![0, 0, 0, 0, 42, b'h', b'e', b'l', b'l', b'o']);
    assert_eq!(encode(0x0102_0304, &[9]), vec![0, 1, 2, 3, 4, 9]);
    assert_eq!(encode(u32::MAX, &[]), vec![0, 255, 255, 255, 255]);
}

#[test]
fn encoded_length_is_five_more_than_payload() {
    for n in [0usize, 1, 7, 300] {
        let payload = vec![7u8; n];
        assert_eq!(encode(1, &payload).len(), n + 5);
    }
}

#[test]
fn decode_reads_id_and_payload() {
    let decoded = decode(&[0, 0, 0, 1, 0, 10, 20, 30]).unwrap();
    assert_eq!(decoded, Envelope { schema_id: 256, payload: vec![10, 20, 30] });
}

#[test]
fn decode_accepts_empty_payload() {
    let decoded = decode(&[0, 0, 0, 0, 7]).unwrap();
    assert_eq!(decoded.schema_id, 7);
    assert!(decoded.payload.is_empty());
}

#[test]
fn decode_inverts_encode() {
    let ids = [0u32, 1, 42, 255, 256, 65_535, 65_536, 0x00ff_ffff, 0x0100_0000, u32::MAX];
    let payloads: [&[u8]; 4] = [b"", b"hello", &[0, 0, 0, 0, 0], &[255; 17]];
    for id in ids {
        for payload in payloads {
            let decoded = decode(&encode(id, payload)).unwrap();
            assert_eq!(decoded.schema_id, id);
            assert_eq!(decoded.payload, payload);
        }
    }
}

#[test]
fn decode_rejects_short_input() {
    assert_eq!(decode(&[]), Err(EnvelopeError::Truncated));
    assert_eq!(decode(&[0]), Err(EnvelopeError::Truncated));
    assert_eq!(decode(&[0, 0, 0, 1]), Err(EnvelopeError::Truncated));
    assert_eq!(decode(&[1, 0, 0, 1]), Err(EnvelopeError::Truncated));
}

#[test]
fn decode_rejects_bad_magic() {
    assert_eq!(decode(&[1, 0, 0, 0, 42]), Err(EnvelopeError::BadMagic));
    assert_eq!(decode(&[255, 0, 0, 0, 42, 1, 2, 3]), Err(EnvelopeError::BadMagic));
}
