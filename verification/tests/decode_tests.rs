use sendspin_cli::decode::{DecodeError, PcmDecoder, PcmEndian};

#[test]
fn test_decode_16bit_little_endian() {
    let dec = PcmDecoder::with_endian(16, PcmEndian::Little);
    // 0x0100 = 256 as a 16-bit sample, widened into the top two bytes.
    let samples = dec.decode(&[0x00, 0x01]).unwrap();
    assert_eq!(samples, vec![256 << 16]);
    // -1 as a 16-bit sample stays -1 after widening by 16 bits of zeros:
    // 0xFFFF0000 as i32.
    let samples = dec.decode(&[0xFF, 0xFF]).unwrap();
    assert_eq!(samples, vec![-65536]);
}

#[test]
fn test_decode_16bit_big_endian() {
    let dec = PcmDecoder::with_endian(16, PcmEndian::Big);
    let samples = dec.decode(&[0x01, 0x00]).unwrap();
    assert_eq!(samples, vec![256 << 16]);
}

#[test]
fn test_decode_24bit_little_endian() {
    let dec = PcmDecoder::with_endian(24, PcmEndian::Little);
    // 4096 in 24-bit little-endian, widened by 8 bits.
    let samples = dec.decode(&[0x00, 0x10, 0x00]).unwrap();
    assert_eq!(samples, vec![4096 << 8]);
    // -1 in 24 bits is 0xFFFFFF; widened it is 0xFFFFFF00 = -256.
    let samples = dec.decode(&[0xFF, 0xFF, 0xFF]).unwrap();
    assert_eq!(samples, vec![-256]);
    // The 24-bit extremes.
    let samples = dec.decode(&[0xFF, 0xFF, 0x7F, 0x00, 0x00, 0x80]).unwrap();
    assert_eq!(samples, vec![8388607 << 8, -8388608 * 256]);
}

#[test]
fn test_decode_24bit_big_endian() {
    let dec = PcmDecoder::with_endian(24, PcmEndian::Big);
    let samples = dec.decode(&[0x00, 0x10, 0x00]).unwrap();
    assert_eq!(samples, vec![4096 << 8]);
}

#[test]
fn test_decode_interleaved_order_is_kept() {
    let dec = PcmDecoder::with_endian(16, PcmEndian::Little);
    let samples = dec.decode(&[0x01, 0x00, 0x02, 0x00, 0x03, 0x00]).unwrap();
    assert_eq!(samples, vec![1 << 16, 2 << 16, 3 << 16]);
}

#[test]
fn test_decode_rejects_unsupported_bit_depth() {
    let dec = PcmDecoder::with_endian(32, PcmEndian::Little);
    assert_eq!(dec.decode(&[0, 0, 0, 0]), Err(DecodeError::UnsupportedBitDepth));
}

#[test]
fn test_decode_rejects_empty_payload() {
    let dec = PcmDecoder::with_endian(16, PcmEndian::Little);
    assert_eq!(dec.decode(&[]), Err(DecodeError::EmptyData));
}

#[test]
fn test_decode_rejects_truncated_payload() {
    let dec = PcmDecoder::with_endian(16, PcmEndian::Little);
    assert_eq!(dec.decode(&[0x00, 0x01, 0x02]), Err(DecodeError::TruncatedData));
    let dec = PcmDecoder::with_endian(24, PcmEndian::Little);
    assert_eq!(dec.decode(&[0x00, 0x01]), Err(DecodeError::TruncatedData));
}
