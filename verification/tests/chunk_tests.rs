use sendspin_cli::chunk::{ChunkError, LegacyAudioChunk};

#[test]
fn test_chunk_from_bytes_parses_header_and_payload() {
    // Type byte 4, big-endian timestamp 0x0102030405060708, two payload
    // bytes.
    let frame = [4u8, 0x01, 0x02, 0x03, 0x04, 0x05, 0x06, 0x07, 0x08, 0xAA, 0xBB];
    let chunk = LegacyAudioChunk::from_bytes(&frame).unwrap();
    assert_eq!(chunk.timestamp, 0x0102030405060708);
    assert_eq!(chunk.data, vec![0xAA, 0xBB]);
}

#[test]
fn test_chunk_from_bytes_negative_timestamp() {
    let frame = [4u8, 0xFF, 0xFF, 0xFF, 0xFF, 0xFF, 0xFF, 0xFF, 0xFF];
    let chunk = LegacyAudioChunk::from_bytes(&frame).unwrap();
    assert_eq!(chunk.timestamp, -1);
    assert!(chunk.data.is_empty());
}

#[test]
fn test_chunk_from_bytes_rejects_short_frame() {
    let frame = [4u8, 0, 0, 0, 0, 0, 0, 0];
    assert!(matches!(LegacyAudioChunk::from_bytes(&frame), Err(ChunkError::TooShort)));
    assert!(matches!(LegacyAudioChunk::from_bytes(&[]), Err(ChunkError::TooShort)));
}

#[test]
fn test_chunk_from_bytes_rejects_wrong_type() {
    // The newer framing uses 0x01 for audio; the legacy format wants 4.
    let frame = [1u8, 0, 0, 0, 0, 0, 0, 0, 0, 0xAA];
    assert!(matches!(LegacyAudioChunk::from_bytes(&frame), Err(ChunkError::InvalidType(1))));
}
