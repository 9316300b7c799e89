use shreds_client::reader::{
    read_length_prefixed_utf8, read_pubkey_b58, read_u16_le, read_u32_le, read_u64_le,
};
use shreds_client::text::decimal_string;

#[test]
fn u16_is_read_little_endian() {
    let buf = [0x34u8, 0x12, 0xff];
    assert_eq!(read_u16_le(&buf, 0), Some(0x1234));
    assert_eq!(read_u16_le(&buf, 1), Some(0xff12));
}

#[test]
fn u16_needs_two_bytes() {
    let buf = [0x34u8, 0x12, 0xff];
    assert_eq!(read_u16_le(&buf, 2), None);
    assert_eq!(read_u16_le(&buf, 3), None);
    assert_eq!(read_u16_le(&[], 0), None);
    assert_eq!(read_u16_le(&[1], 0), None);
}

#[test]
fn u32_is_read_little_endian() {
    let buf = [0x78u8, 0x56, 0x34, 0x12, 0x01];
    assert_eq!(read_u32_le(&buf, 0), Some(0x1234_5678));
    assert_eq!(read_u32_le(&buf, 1), Some(0x0112_3456));
    assert_eq!(read_u32_le(&[0xff, 0xff, 0xff, 0xff], 0), Some(u32::MAX));
}

#[test]
fn u32_needs_four_bytes() {
    let buf = [0x78u8, 0x56, 0x34, 0x12, 0x01];
    assert_eq!(read_u32_le(&buf, 2), None);
    assert_eq!(read_u32_le(&buf, 5), None);
    assert_eq!(read_u32_le(&[1, 2, 3], 0), None);
}

#[test]
fn u64_is_read_little_endian() {
    let buf = [0xefu8, 0xcd, 0xab, 0x89, 0x67, 0x45, 0x23, 0x01, 0x00];
    assert_eq!(read_u64_le(&buf, 0), Some(0x0123_4567_89ab_cdef));
    assert_eq!(read_u64_le(&buf, 1), Some(0x0001_2345_6789_abcd));
    assert_eq!(read_u64_le(&[0xff; 8], 0), Some(u64::MAX));
    assert_eq!(read_u64_le(&[1, 0, 0, 0, 0, 0, 0, 0], 0), Some(1));
}

#[test]
fn u64_needs_eight_bytes() {
    let buf = [0u8; 9];
    assert_eq!(read_u64_le(&buf, 2), None);
    assert_eq!(read_u64_le(&buf, 9), None);
    assert_eq!(read_u64_le(&[0; 7], 0), None);
}

#[test]
fn reads_far_past_the_end_are_absent() {
    let buf = [0u8; 16];
    assert_eq!(read_u16_le(&buf, usize::MAX), None);
    assert_eq!(read_u32_le(&buf, usize::MAX), None);
    assert_eq!(read_u64_le(&buf, usize::MAX), None);
    assert_eq!(read_u64_le(&buf, usize::MAX - 7), None);
    assert_eq!(read_length_prefixed_utf8(&buf, usize::MAX), None);
    assert_eq!(read_length_prefixed_utf8(&buf, usize::MAX - 3), None);
    assert_eq!(read_pubkey_b58(&buf, usize::MAX), None);
}

#[test]
fn text_is_read_behind_its_length() {
    let buf = [9u8, 3, 0, 0, 0, b'a', b'b', b'c', 7];
    assert_eq!(read_length_prefixed_utf8(&buf, 1), Some(("abc".to_string(), 8)));
}

#[test]
fn empty_text_is_read() {
    let buf = [0u8, 0, 0, 0];
    assert_eq!(read_length_prefixed_utf8(&buf, 0), Some((String::new(), 4)));
}

#[test]
fn text_may_end_with_the_buffer() {
    let buf = [2u8, 0, 0, 0, b'h', b'i'];
    assert_eq!(read_length_prefixed_utf8(&buf, 0), Some(("hi".to_string(), 6)));
}

#[test]
fn text_that_runs_past_the_end_is_absent() {
    let buf = [3u8, 0, 0, 0, b'h', b'i'];
    assert_eq!(read_length_prefixed_utf8(&buf, 0), None);
    let huge = [0xffu8, 0xff, 0xff, 0xff, b'h', b'i'];
    assert_eq!(read_length_prefixed_utf8(&huge, 0), None);
}

#[test]
fn text_with_a_cut_length_field_is_absent() {
    let buf = [2u8, 0, 0];
    assert_eq!(read_length_prefixed_utf8(&buf, 0), None);
    assert_eq!(read_length_prefixed_utf8(&[], 0), None);
}

#[test]
fn invalid_utf8_is_replaced_not_rejected() {
    let buf = [3u8, 0, 0, 0, b'a', 0xff, b'b'];
    assert_eq!(read_length_prefixed_utf8(&buf, 0), Some(("a\u{fffd}b".to_string(), 7)));
}

#[test]
fn multi_byte_text_is_decoded() {
    let bytes = "h\u{e9}\u{4e16}".as_bytes();
    let mut buf = vec![bytes.len() as u8, 0, 0, 0];
    buf.extend_from_slice(bytes);
    assert_eq!(
        read_length_prefixed_utf8(&buf, 0),
        Some(("h\u{e9}\u{4e16}".to_string(), 4 + bytes.len()))
    );
}

#[test]
fn key_is_read_as_base58() {
    let mut buf = vec![0xaau8];
    buf.extend_from_slice(&[1u8; 32]);
    assert_eq!(
        read_pubkey_b58(&buf, 1),
        Some(("4vJ9JU1bJJE96FWSJKvHsmmFADCg4gpZQff4P3bkLKi".to_string(), 33))
    );
}

#[test]
fn key_of_zero_bytes_is_all_ones() {
    let buf = [0u8; 32];
    assert_eq!(
        read_pubkey_b58(&buf, 0),
        Some(("11111111111111111111111111111111".to_string(), 32))
    );
}

#[test]
fn key_needs_thirty_two_bytes() {
    let buf = [1u8; 32];
    assert_eq!(read_pubkey_b58(&buf, 1), None);
    assert_eq!(read_pubkey_b58(&buf[..31], 0), None);
}

#[test]
fn key_text_matches_the_base58_crate() {
    let bytes: Vec<u8> = (0u8..32).collect();
    let (text, next) = read_pubkey_b58(&bytes, 0).unwrap();
    assert_eq!(next, 32);
    assert_eq!(text, bs58::encode(&bytes).into_string());
    assert_eq!(text, "1thX6LZfHDZZKUs92febYZhYRcXddmzfzF2NvTkPNE");
}

#[test]
fn decimal_of_small_and_large_numbers() {
    assert_eq!(decimal_string(0), "0");
    assert_eq!(decimal_string(7), "7");
    assert_eq!(decimal_string(10), "10");
    assert_eq!(decimal_string(1234567890), "1234567890");
    assert_eq!(decimal_string(u64::MAX), "18446744073709551615");
}

#[test]
fn decimal_agrees_with_std_formatting() {
    let mut n: u64 = 1;
    for _ in 0..19 {
        assert_eq!(decimal_string(n), format!("{}", n));
        assert_eq!(decimal_string(n - 1), format!("{}", n - 1));
        n *= 10;
    }
}
