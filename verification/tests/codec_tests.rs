use huion_switcher::codec::{bytestring, check_descriptor_len, decode_hex, trim_trailing_nul};

#[test]
fn hex_exact_values() {
    assert_eq!(bytestring(&[0x00, 0xff, 0x0a]), "00ff0a");
    assert_eq!(bytestring(&[0x12, 0x03]), "1203");
    assert_eq!(bytestring(&[0xde, 0xad, 0xbe, 0xef]), "deadbeef");
}

#[test]
fn hex_empty_buffer() {
    assert_eq!(bytestring(&[]), "");
}

#[test]
fn hex_single_byte() {
    assert_eq!(bytestring(&[0x07]), "07");
    assert_eq!(bytestring(&[0xf0]), "f0");
}

#[test]
fn round_trip_small() {
    let bytes: Vec<u8> = vec![0x00, 0x01, 0x7f, 0x80, 0xfe, 0xff];
    let hex = bytestring(&bytes);
    assert_eq!(decode_hex(&hex), Some(bytes));
}

#[test]
fn round_trip_empty() {
    let bytes: Vec<u8> = vec![];
    let hex = bytestring(&bytes);
    assert_eq!(decode_hex(&hex), Some(bytes));
}

#[test]
fn round_trip_all_byte_values() {
    let bytes: Vec<u8> = (0u16..=255u16).map(|b| b as u8).collect();
    assert_eq!(bytes.len(), 256);
    let full = bytestring(&bytes);
    assert_eq!(full.len(), 512);
    assert_eq!(decode_hex(&full), Some(bytes.clone()));
    // Buffers of length up to 255 are what a descriptor read can yield.
    let capped = &bytes[..255];
    let hex = bytestring(capped);
    assert_eq!(hex.len(), 510);
    assert_eq!(decode_hex(&hex), Some(capped.to_vec()));
}

#[test]
fn decode_rejects_odd_length() {
    assert_eq!(decode_hex("abc"), None);
    assert_eq!(decode_hex("0"), None);
}

#[test]
fn decode_rejects_non_hex() {
    assert_eq!(decode_hex("0g"), None);
    assert_eq!(decode_hex("zz"), None);
}

#[test]
fn decode_rejects_uppercase() {
    assert_eq!(decode_hex("AB"), None);
}

#[test]
fn trim_strips_trailing_nuls() {
    assert_eq!(trim_trailing_nul("abc\0\0"), "abc");
    assert_eq!(trim_trailing_nul("abc"), "abc");
}

#[test]
fn trim_all_nuls_leaves_empty() {
    assert_eq!(trim_trailing_nul("\0\0"), "");
    assert_eq!(trim_trailing_nul(""), "");
}

#[test]
fn trim_keeps_inner_nuls() {
    assert_eq!(trim_trailing_nul("a\0b"), "a\0b");
    assert_eq!(trim_trailing_nul("a\0b\0"), "a\0b");
}

#[test]
fn descriptor_len_prefix_must_match() {
    assert!(check_descriptor_len(&[3, 0x03, 0xaa]));
    assert!(!check_descriptor_len(&[4, 0x03, 0xaa]));
    assert!(!check_descriptor_len(&[2, 0x03, 0xaa]));
    assert!(!check_descriptor_len(&[]));
}
