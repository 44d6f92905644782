use file_transfer::codec::{
    bytes_eq, decode_string, decode_string_frame, decode_u16, decode_u64, encode_string,
    encode_u16, encode_u64, str_eq,
};
use file_transfer::error::TransferError;

#[test]
fn u64_encodes_big_endian() {
    assert_eq!(encode_u64(0x0102030405060708), vec![1, 2, 3, 4, 5, 6, 7, 8]);
    assert_eq!(encode_u64(0), vec![0; 8]);
    assert_eq!(encode_u64(u64::MAX), vec![0xff; 8]);
    assert_eq!(encode_u64(258), vec![0, 0, 0, 0, 0, 0, 1, 2]);
}

#[test]
fn u64_round_trips() {
    for n in [0u64, 1, 255, 256, 65535, 1 << 40, u64::MAX] {
        assert_eq!(decode_u64(&encode_u64(n)), n);
    }
}

#[test]
fn u16_round_trips() {
    assert_eq!(encode_u16(65535), vec![0xff, 0xff]);
    assert_eq!(encode_u16(0x0102), vec![1, 2]);
    for n in [0u16, 1, 255, 256, 65535] {
        assert_eq!(decode_u16(&encode_u16(n)), n);
    }
}

#[test]
fn string_frame_round_trips() {
    let frame = encode_string("hello").unwrap();
    assert_eq!(frame, vec![0, 5, b'h', b'e', b'l', b'l', b'o']);
    let (s, used) = decode_string_frame(&frame).unwrap();
    assert_eq!(s, "hello");
    assert_eq!(used, 7);
}

#[test]
fn empty_string_frame_round_trips() {
    let frame = encode_string("").unwrap();
    assert_eq!(frame, vec![0, 0]);
    let (s, used) = decode_string_frame(&frame).unwrap();
    assert_eq!(s, "");
    assert_eq!(used, 2);
}

#[test]
fn name_of_exactly_65535_bytes_is_framable() {
    let name = "a".repeat(65535);
    let frame = encode_string(&name).unwrap();
    assert_eq!(frame.len(), 2 + 65535);
    assert_eq!(&frame[0..2], &[0xff, 0xff]);
    let (s, used) = decode_string_frame(&frame).unwrap();
    assert_eq!(s, name);
    assert_eq!(used, 2 + 65535);
}

#[test]
fn name_of_65536_bytes_fails_validation() {
    let name = "a".repeat(65536);
    assert_eq!(encode_string(&name), Err(TransferError::NameTooLong));
}

#[test]
fn multibyte_name_length_counts_bytes_not_chars() {
    // 32768 two-byte characters: 65536 bytes, over the limit.
    let name = "\u{00e9}".repeat(32768);
    assert_eq!(encode_string(&name), Err(TransferError::NameTooLong));
    // 32767 of them fit.
    let name = "\u{00e9}".repeat(32767);
    assert!(encode_string(&name).is_ok());
}

#[test]
fn invalid_utf8_decodes_lossily_not_fatally() {
    let s = decode_string(&[0xff, b'h', b'i']);
    assert_eq!(s, "\u{FFFD}hi");
    let s = decode_string(&[0xe2, 0x28, 0xa1]);
    assert!(s.contains('\u{FFFD}'));
}

#[test]
fn short_frames_are_rejected() {
    assert!(decode_string_frame(&[]).is_none());
    assert!(decode_string_frame(&[0]).is_none());
    // Prefix promises 3 bytes, only 2 follow.
    assert!(decode_string_frame(&[0, 3, b'a', b'b']).is_none());
}

#[test]
fn byte_and_string_equality() {
    assert!(bytes_eq(&[1, 2, 3], &[1, 2, 3]));
    assert!(!bytes_eq(&[1, 2, 3], &[1, 2, 4]));
    assert!(!bytes_eq(&[1, 2], &[1, 2, 3]));
    assert!(str_eq("production", "production"));
    assert!(!str_eq("production", "staging"));
}
