use espnow_msg::view::display_vec;

#[test]
fn test_valid_utf8_fits() {
    let data = b"hello".to_vec();
    let s = display_vec(&data, 16);
    assert_eq!(s, "hello");
}

#[test]
fn test_valid_utf8_too_long() {
    let data = b"hello world, this is a long string".to_vec();
    let s = display_vec(&data, 20);
    // Truncates to 17 bytes plus the marker.
    let expected_prefix = &b"hello world, this"[..];
    let expected_str = core::str::from_utf8(expected_prefix).unwrap();
    assert_eq!(s.as_str(), format!("{}...", expected_str));
}

#[test]
fn test_invalid_utf8_short() {
    let data = vec![0xFF, 0xFE, 0xFD];
    let s = display_vec(&data, 16);
    assert_eq!(s, "ff fe fd");
}

#[test]
fn test_invalid_utf8_long_hex_truncated() {
    let data = vec![0xFF; 100];
    let s = display_vec(&data, 16);
    assert_eq!(s, "ff ff ff ff...");
}

#[test]
fn test_invalid_utf8_no_room_for_ellipsis() {
    let data = vec![0xFF, 0xFE, 0xFD, 0xFC];
    let s = display_vec(&data, 8);
    assert_eq!(s, "ff...");
}

#[test]
fn test_invalid_utf8_tiny_buffer() {
    let data = vec![0xFF, 0xFE];
    let s = display_vec(&data, 2);
    assert_eq!(s, "");
}

#[test]
fn test_valid_utf8_exactly_full() {
    let data = b"1234567890".to_vec();
    let s = display_vec(&data, 10);
    assert_eq!(s, "1234567890");
}

#[test]
fn test_valid_utf8_one_over_limit() {
    let data = b"12345678901".to_vec();
    let s = display_vec(&data, 10);
    assert_eq!(s, "1234567...");
}

#[test]
fn test_multibyte_utf8() {
    let data = "café".as_bytes().to_vec();
    let s = display_vec(&data, 10);
    assert_eq!(s, "café");
}

#[test]
fn test_multibyte_utf8_truncate() {
    let data = "éééééééé".as_bytes().to_vec();
    let s = display_vec(&data, 12);
    assert_eq!(s, "éééé...");
}

#[test]
fn empty_input_is_empty_text() {
    let data: Vec<u8> = Vec::new();
    assert_eq!(display_vec(&data, 16), "");
}

#[test]
fn wide_chars_narrow_width_fall_back_to_hex() {
    // Two four-byte characters at width 6: no character boundary sits in
    // 1..=3, so the hex stage takes over with room for one byte.
    let data = "𝄞𝄞".as_bytes().to_vec();
    assert_eq!(data.len(), 8);
    assert_eq!(display_vec(&data, 6), "f0...");
    assert_eq!(display_vec(&data, 5), "");
}
