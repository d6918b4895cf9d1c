use spark_deploy::framing::{decode_frame, encode_frame, FrameError};

#[test]
fn round_trip_empty_payload() {
    let payload: Vec<u8> = Vec::new();
    let frame = encode_frame(&payload);
    assert_eq!(frame, vec![0u8, 0, 0, 0]);
    let (decoded, used) = decode_frame(&frame).unwrap();
    assert_eq!(decoded, payload);
    assert_eq!(used, 4);
}

#[test]
fn round_trip_small_payload() {
    let payload = b"hello".to_vec();
    let frame = encode_frame(&payload);
    assert_eq!(frame, vec![0u8, 0, 0, 5, b'h', b'e', b'l', b'l', b'o']);
    let (decoded, used) = decode_frame(&frame).unwrap();
    assert_eq!(decoded, payload);
    assert_eq!(used, 9);
}

#[test]
fn round_trip_many_lengths() {
    for n in 0..300usize {
        let payload: Vec<u8> = (0..n).map(|i| (i % 251) as u8).collect();
        let frame = encode_frame(&payload);
        assert_eq!(frame.len(), 4 + n);
        let (decoded, used) = decode_frame(&frame).unwrap();
        assert_eq!(decoded, payload);
        assert_eq!(used, 4 + n);
    }
}

#[test]
fn prefix_is_big_endian() {
    let payload = vec![0u8; 0x0102];
    let frame = encode_frame(&payload);
    assert_eq!(&frame[0..4], &[0u8, 0, 1, 2]);
}

#[test]
fn decode_rejects_short_header() {
    assert!(matches!(decode_frame(&[0u8, 0, 1]), Err(FrameError::Truncated)));
    assert!(matches!(decode_frame(&[]), Err(FrameError::Truncated)));
}

#[test]
fn decode_rejects_short_body() {
    let data = vec![0u8, 0, 0, 10, 1, 2, 3];
    assert!(matches!(decode_frame(&data), Err(FrameError::Truncated)));
}

#[test]
fn decode_leaves_trailing_bytes() {
    let mut data = encode_frame(&vec![9u8, 8, 7]);
    data.extend_from_slice(&[0xAA, 0xBB]);
    let (decoded, used) = decode_frame(&data).unwrap();
    assert_eq!(decoded, vec![9u8, 8, 7]);
    assert_eq!(used, 7);
}
