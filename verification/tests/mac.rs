use espnow_msg::format_mac::format_mac;
use espnow_msg::format_mac::from_mac;

#[test]
fn test_format_mac_broadcast() {
    let mac = [0xff, 0xff, 0xff, 0xff, 0xff, 0xff];
    assert_eq!(format_mac(&mac), "<BROADCAST>");
}

#[test]
fn test_format_mac_normal() {
    let mac = [0x12, 0x34, 0x56, 0x78, 0x9a, 0xbc];
    assert_eq!(format_mac(&mac), "12:34:56:78:9a:bc");
}

#[test]
fn test_format_mac_zeros() {
    let mac = [0x00, 0x00, 0x00, 0x00, 0x00, 0x00];
    assert_eq!(format_mac(&mac), "00:00:00:00:00:00");
}

#[test]
fn test_from_mac_valid() {
    let cases = &[
        ("<BROADCAST>", [0xff; 6]),
        ("12:34:56:78:9a:bc", [0x12, 0x34, 0x56, 0x78, 0x9a, 0xbc]),
        ("12:34:56:78:9A:BC", [0x12, 0x34, 0x56, 0x78, 0x9a, 0xbc]),
        ("Ab:CD:ef:01:23:45", [0xab, 0xcd, 0xef, 0x01, 0x23, 0x45]),
        ("00:00:00:00:00:00", [0x00; 6]),
        ("ff:ff:ff:ff:ff:ff", [0xff; 6]),
    ];

    for &(input, expected) in cases {
        assert_eq!(from_mac(input), Ok(expected), "failed to parse: {}", input);
    }
}

#[test]
fn test_from_mac_invalid() {
    let cases = &[
        "broadcast",
        "<broadcast>",
        "BROADCAST",
        "12:34:56:78:9a",
        "12:34:56:78:9a:bc:de",
        "123:45:67:89:ab:cd",
        "1:34:56:78:9a:bc",
        "12:34:56:78:9g:bc",
        "12:34:5z:78:9a:bc",
        "123456789abc",
        "1234:5678:9abc",
        "",
    ];

    for &input in cases {
        assert!(from_mac(input).is_err(), "unexpectedly accepted: {}", input);
    }
}

#[test]
fn format_then_parse_is_identity() {
    let cases: &[[u8; 6]] = &[
        [0, 0, 0, 0, 0, 0],
        [0x12, 0x34, 0x56, 0x78, 0x9a, 0xbc],
        [0xff, 0xff, 0xff, 0xff, 0xff, 0xfe],
        [0xff; 6],
        [1, 2, 3, 4, 5, 6],
    ];
    for mac in cases {
        let text = format_mac(mac);
        assert_eq!(from_mac(text.as_str()), Ok(*mac));
    }
}

#[test]
fn multibyte_text_is_rejected() {
    assert!(from_mac("é2:34:56:78:9a:b").is_err());
    assert!(from_mac("<BROADCASTé>").is_err());
}
