use espnow_msg::Ack;
use espnow_msg::BroadcastData;
use espnow_msg::HubConfig;
use espnow_msg::InitConfig;
use espnow_msg::Msg;
use espnow_msg::MsgError;
use espnow_msg::PeerAddress;
use espnow_msg::PeerInfo;
use espnow_msg::RxData;
use espnow_msg::TxData;
use espnow_msg::WifiPhyRate;
use espnow_msg::MAX_MSG_LENGTH;

fn round_trip(msg: Msg) -> Msg {
    // The largest variants encode a few bytes past MAX_MSG_LENGTH.
    let mut buf = vec![0u8; MAX_MSG_LENGTH + 32];
    let n = msg.to_slice(&mut buf).expect("encoding must fit");
    let back = Msg::from_slice(&buf[..n]).expect("decoding must succeed");
    assert_eq!(back, msg);
    back
}

#[test]
fn test_postcard() {
    let config = HubConfig::new(1234, Some(0), None, None, Some(WifiPhyRate::RateMcs6Lgi));
    let msgs = vec![
        Msg::new_hub_config(config),
        Msg::new_remove_peer(PeerAddress::new(1234, [17u8; 6])),
        Msg::new_broadcast(BroadcastData::new(9876, b"123456789".to_vec(), Some(30)).unwrap()),
    ];
    for msg in &msgs {
        let mut buf = vec![0u8; 256];
        let n = msg.to_slice(&mut buf).unwrap();
        let heapless_form = msg.to_heapless().unwrap();
        assert_eq!(&buf[..n], heapless_form.as_slice());
        assert_eq!(
            Msg::from_slice(&buf[..n]).unwrap(),
            Msg::from_slice(heapless_form.as_slice()).unwrap()
        );
    }
}

#[test]
fn ack_scenario() {
    let msg = Msg::new_ack(Ack::new(1234, 9876, true));
    let mut buf = vec![0u8; 256];
    let n = msg.to_slice(&mut buf).unwrap();
    let back = Msg::from_slice(&buf[..n]).unwrap();
    assert_eq!(back, msg);
    assert_eq!(back.get_id(), 1234);
}

#[test]
fn round_trip_every_variant() {
    round_trip(Msg::new_init(InitConfig::new(1, 0, 2, 11, [1, 2, 3, 4, 5, 6])));
    round_trip(Msg::new_hub_config(HubConfig::new(
        2,
        Some(3),
        Some([7u8; 16]),
        Some(512),
        Some(WifiPhyRate::RateLora500k),
    )));
    round_trip(Msg::new_hub_config(HubConfig::new(3, None, None, None, None)));
    round_trip(Msg::new_send(
        TxData::new(4, [9, 8, 7, 6, 5, 4], b"HELLO".to_vec(), true).unwrap(),
    ));
    round_trip(Msg::new_recv(
        RxData::new(5, [1; 6], [2; 6], vec![0xff, 0x00, 0x80], -87).unwrap(),
    ));
    round_trip(Msg::new_broadcast(
        BroadcastData::new(6, Vec::new(), None).unwrap(),
    ));
    round_trip(Msg::new_add_peer(PeerInfo::new(
        7,
        [0xf1, 0xf2, 0xf3, 0xf4, 0xf5, 0xf6],
        Some([0u8; 16]),
        Some(5),
        true,
    )));
    round_trip(Msg::new_modify_peer(PeerInfo::new(8, [0; 6], None, None, false)));
    round_trip(Msg::new_remove_peer(PeerAddress::new(9, [0xff; 6])));
    round_trip(Msg::new_ack(Ack::new(u32::MAX, 0, false)));
}

#[test]
fn round_trip_extreme_values() {
    round_trip(Msg::new_recv(
        RxData::new(u32::MAX, [0xff; 6], [0; 6], vec![0xaa; 250], i32::MIN).unwrap(),
    ));
    round_trip(Msg::new_recv(
        RxData::new(0, [0; 6], [0xff; 6], vec![0x55; 250], i32::MAX).unwrap(),
    ));
    round_trip(Msg::new_send(
        TxData::new(300, [1; 6], vec![0; 250], false).unwrap(),
    ));
}

#[test]
fn ack_wire_form_is_fixed() {
    let msg = Msg::new_ack(Ack::new(1, 2, true));
    let mut buf = vec![0u8; 16];
    let n = msg.to_slice(&mut buf).unwrap();
    assert_eq!(&buf[..n], &[8, 1, 2, 1]);
}

#[test]
fn varints_use_base_128() {
    let msg = Msg::new_ack(Ack::new(300, 0x12345678, false));
    let mut buf = vec![0u8; 16];
    let n = msg.to_slice(&mut buf).unwrap();
    assert_eq!(&buf[..n], &[8, 0xac, 0x02, 0xf8, 0xac, 0xd1, 0x91, 0x01, 0]);
}

#[test]
fn rssi_is_zigzag_folded() {
    let msg = Msg::new_recv(RxData::new(0, [0; 6], [0; 6], Vec::new(), -1).unwrap());
    let mut buf = vec![0u8; 32];
    let n = msg.to_slice(&mut buf).unwrap();
    // tag, id, src, dst, empty payload, zigzag(-1) == 1
    assert_eq!(&buf[..n], &[3, 0, 0, 0, 0, 0, 0, 0, 0, 0, 0, 0, 0, 0, 0, 1]);
}

#[test]
fn init_wire_form_is_fixed() {
    let msg = Msg::new_init(InitConfig::new(5, 1, 2, 11, [0xaa, 0xbb, 0xcc, 0xdd, 0xee, 0xff]));
    let mut buf = vec![0u8; 32];
    let n = msg.to_slice(&mut buf).unwrap();
    assert_eq!(&buf[..n], &[0, 5, 1, 2, 11, 0xaa, 0xbb, 0xcc, 0xdd, 0xee, 0xff]);
}

#[test]
fn encoding_is_deterministic() {
    let make = || Msg::new_send(TxData::new(42, [1; 6], b"abc".to_vec(), true).unwrap());
    let mut a = vec![0u8; 64];
    let mut b = vec![0u8; 64];
    let na = make().to_slice(&mut a).unwrap();
    let nb = make().to_slice(&mut b).unwrap();
    assert_eq!(&a[..na], &b[..nb]);
}

#[test]
fn to_slice_reports_capacity() {
    let msg = Msg::new_send(TxData::new(1, [0; 6], vec![9; 100], false).unwrap());
    let mut tiny = vec![0u8; 8];
    let before = tiny.clone();
    assert_eq!(msg.to_slice(&mut tiny), Err(MsgError::CapacityError));
    assert_eq!(tiny, before);
    let mut fits = vec![0u8; 256];
    assert!(msg.to_slice(&mut fits).is_ok());
}

#[test]
fn to_heapless_matches_to_slice() {
    let msg = Msg::new_recv(RxData::new(77, [1; 6], [2; 6], vec![1, 2, 3], -5).unwrap());
    let mut buf = vec![0u8; 256];
    let n = msg.to_slice(&mut buf).unwrap();
    let hv = msg.to_heapless().unwrap();
    assert_eq!(hv.len(), n);
    assert_eq!(hv.as_slice(), &buf[..n]);
}

#[test]
fn decode_rejects_malformed_bytes() {
    // Empty input.
    assert_eq!(Msg::from_slice(&[]), Err(MsgError::FormatError));
    // Unknown discriminant.
    assert_eq!(Msg::from_slice(&[9, 0, 0, 0]), Err(MsgError::FormatError));
    // Truncated acknowledgement.
    assert_eq!(Msg::from_slice(&[8, 1]), Err(MsgError::FormatError));
    // A bool byte must be 0 or 1.
    assert_eq!(Msg::from_slice(&[8, 1, 2, 7]), Err(MsgError::FormatError));
    // An option presence byte must be 0 or 1.
    assert_eq!(
        Msg::from_slice(&[1, 0, 2, 0, 0, 0]),
        Err(MsgError::FormatError)
    );
    // A payload length above the capacity bound.
    assert_eq!(
        Msg::from_slice(&[4, 0, 0xfb, 0x01]),
        Err(MsgError::FormatError)
    );
    // A rate ordinal out of range.
    assert_eq!(
        Msg::from_slice(&[1, 0, 0, 0, 0, 1, 34]),
        Err(MsgError::FormatError)
    );
    // A varint that never terminates within five bytes.
    assert_eq!(
        Msg::from_slice(&[8, 0x80, 0x80, 0x80, 0x80, 0x80, 0x80]),
        Err(MsgError::FormatError)
    );
}

#[test]
fn decode_ignores_trailing_bytes() {
    let msg = Msg::new_ack(Ack::new(1, 2, false));
    let mut buf = vec![0u8; 64];
    let n = msg.to_slice(&mut buf).unwrap();
    assert!(n < buf.len());
    assert_eq!(Msg::from_slice(&buf), Ok(msg));
}

#[test]
fn wire_form_matches_postcard() {
    // The library's codec follows the same schema-derived format that
    // postcard produces, checked here on plain values.
    let mut buf = [0u8; 64];
    assert_eq!(postcard::to_slice(&300u32, &mut buf).unwrap(), &[0xac, 0x02]);
    assert_eq!(postcard::to_slice(&-1i32, &mut buf).unwrap(), &[1]);
    assert_eq!(postcard::to_slice(&-87i32, &mut buf).unwrap(), &[0xad, 0x01]);
    assert_eq!(postcard::to_slice(&Some(5u8), &mut buf).unwrap(), &[1, 5]);
    assert_eq!(postcard::to_slice(&None::<u8>, &mut buf).unwrap(), &[0]);
    assert_eq!(
        postcard::to_slice(&b"abc".to_vec(), &mut buf).unwrap(),
        &[3, 97, 98, 99]
    );

    // An acknowledgement envelope next to the same fields as a postcard
    // tuple behind the discriminant byte.
    let msg = Msg::new_ack(Ack::new(1234, 9876, true));
    let mut out = vec![0u8; 64];
    let n = msg.to_slice(&mut out).unwrap();
    let tuple = (8u8, 1234u32, 9876u32, true);
    let expected = postcard::to_slice(&tuple, &mut buf).unwrap();
    assert_eq!(&out[..n], &*expected);
    let back: (u8, u32, u32, bool) = postcard::from_bytes(&out[..n]).unwrap();
    assert_eq!(back, tuple);
}
