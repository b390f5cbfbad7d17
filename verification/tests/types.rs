use espnow_msg::monitor::Monitor;
use espnow_msg::Ack;
use espnow_msg::BroadcastData;
use espnow_msg::Data;
use espnow_msg::HubConfig;
use espnow_msg::InitConfig;
use espnow_msg::Msg;
use espnow_msg::MsgError;
use espnow_msg::ParseWifiPhyRateError;
use espnow_msg::PeerAddress;
use espnow_msg::PeerInfo;
use espnow_msg::RxData;
use espnow_msg::TxData;
use espnow_msg::WifiPhyRate;
use espnow_msg::MAX_DATA_LEN;
use espnow_msg::VERSION;

#[test]
fn get_id_projects_every_variant() {
    let k = 0xDEAD_BEEFu32;
    let msgs = vec![
        Msg::new_init(InitConfig::new(k, 0, 1, 2, [0; 6])),
        Msg::new_hub_config(HubConfig::new(k, None, None, None, None)),
        Msg::new_send(TxData::new(k, [0; 6], Vec::new(), false).unwrap()),
        Msg::new_recv(RxData::new(k, [0; 6], [0; 6], Vec::new(), 0).unwrap()),
        Msg::new_broadcast(BroadcastData::new(k, Vec::new(), None).unwrap()),
        Msg::new_add_peer(PeerInfo::new(k, [0; 6], None, None, false)),
        Msg::new_modify_peer(PeerInfo::new(k, [0; 6], None, None, true)),
        Msg::new_remove_peer(PeerAddress::new(k, [0; 6])),
        Msg::new_ack(Ack::new(k, 1, true)),
    ];
    for msg in &msgs {
        assert_eq!(msg.get_id(), k);
    }
}

#[test]
fn get_type_names_every_variant() {
    let names = vec![
        (Msg::new_init(InitConfig::new(1, 0, 1, 2, [0; 6])), "Init"),
        (Msg::new_hub_config(HubConfig::new(1, None, None, None, None)), "HubConfig"),
        (Msg::new_send(TxData::new(1, [0; 6], Vec::new(), false).unwrap()), "Send"),
        (Msg::new_recv(RxData::new(1, [0; 6], [0; 6], Vec::new(), 0).unwrap()), "Recv"),
        (Msg::new_broadcast(BroadcastData::new(1, Vec::new(), None).unwrap()), "Broadcast"),
        (Msg::new_add_peer(PeerInfo::new(1, [0; 6], None, None, false)), "AddPeer"),
        (Msg::new_modify_peer(PeerInfo::new(1, [0; 6], None, None, true)), "ModifyPeer"),
        (Msg::new_remove_peer(PeerAddress::new(1, [0; 6])), "RemovePeer"),
        (Msg::new_ack(Ack::new(1, 1, true)), "Ack"),
    ];
    for (msg, name) in &names {
        assert_eq!(msg.get_type(), *name);
    }
}

#[test]
fn oversized_data_is_rejected_at_construction() {
    let too_long = vec![0u8; MAX_DATA_LEN + 1];
    assert_eq!(
        TxData::new(1, [0; 6], too_long.clone(), false).unwrap_err(),
        MsgError::CapacityError
    );
    assert_eq!(
        RxData::new(1, [0; 6], [0; 6], too_long.clone(), 0).unwrap_err(),
        MsgError::CapacityError
    );
    assert_eq!(
        BroadcastData::new(1, too_long.clone(), None).unwrap_err(),
        MsgError::CapacityError
    );
    assert_eq!(Data::from_vec(too_long).unwrap_err(), MsgError::CapacityError);
}

#[test]
fn maximum_data_is_accepted() {
    let max = vec![0u8; MAX_DATA_LEN];
    assert!(TxData::new(1, [0; 6], max.clone(), false).is_ok());
    assert!(RxData::new(1, [0; 6], [0; 6], max.clone(), 0).is_ok());
    assert!(BroadcastData::new(1, max.clone(), None).is_ok());
    let d = Data::from_vec(max).unwrap();
    assert_eq!(d.len(), MAX_DATA_LEN);
}

#[test]
fn rx_data_getters_return_fields() {
    let rx = RxData::new(7, [1, 2, 3, 4, 5, 6], [6, 5, 4, 3, 2, 1], b"hi".to_vec(), -42).unwrap();
    assert_eq!(rx.get_id(), 7);
    assert_eq!(rx.get_src_addr(), [1, 2, 3, 4, 5, 6]);
    assert_eq!(rx.get_dst_addr(), [6, 5, 4, 3, 2, 1]);
    assert_eq!(rx.get_data(), b"hi");
    assert_eq!(rx.get_rssi(), -42);
}

#[test]
fn rate_names_round_trip() {
    let all = [
        WifiPhyRate::Rate1mL,
        WifiPhyRate::Rate2m,
        WifiPhyRate::Rate5mL,
        WifiPhyRate::Rate11mL,
        WifiPhyRate::Rate2mS,
        WifiPhyRate::Rate5mS,
        WifiPhyRate::Rate11mS,
        WifiPhyRate::Rate48m,
        WifiPhyRate::Rate24m,
        WifiPhyRate::Rate12m,
        WifiPhyRate::Rate6m,
        WifiPhyRate::Rate54m,
        WifiPhyRate::Rate36m,
        WifiPhyRate::Rate18m,
        WifiPhyRate::Rate9m,
        WifiPhyRate::RateMcs0Lgi,
        WifiPhyRate::RateMcs1Lgi,
        WifiPhyRate::RateMcs2Lgi,
        WifiPhyRate::RateMcs3Lgi,
        WifiPhyRate::RateMcs4Lgi,
        WifiPhyRate::RateMcs5Lgi,
        WifiPhyRate::RateMcs6Lgi,
        WifiPhyRate::RateMcs7Lgi,
        WifiPhyRate::RateMcs0Sgi,
        WifiPhyRate::RateMcs1Sgi,
        WifiPhyRate::RateMcs2Sgi,
        WifiPhyRate::RateMcs3Sgi,
        WifiPhyRate::RateMcs4Sgi,
        WifiPhyRate::RateMcs5Sgi,
        WifiPhyRate::RateMcs6Sgi,
        WifiPhyRate::RateMcs7Sgi,
        WifiPhyRate::RateLora250k,
        WifiPhyRate::RateLora500k,
        WifiPhyRate::RateMax,
    ];
    for (i, rate) in all.iter().enumerate() {
        assert_eq!(rate.to_index(), i as u32);
        assert_eq!(WifiPhyRate::from_index(i as u32), Some(*rate));
        let name = rate.name();
        assert_eq!(WifiPhyRate::from_name(name.as_str()), Ok(*rate));
    }
    assert_eq!(WifiPhyRate::from_index(34), None);
    assert_eq!(WifiPhyRate::from_name("Mcs0Sgi"), Ok(WifiPhyRate::RateMcs0Sgi));
    assert_eq!(WifiPhyRate::from_name("1mL"), Ok(WifiPhyRate::Rate1mL));
    assert_eq!(WifiPhyRate::from_name("bogus"), Err(ParseWifiPhyRateError));
    assert_eq!(WifiPhyRate::from_name(""), Err(ParseWifiPhyRateError));
}

#[test]
fn ack_text_forms() {
    let ack = Ack::new(7, 9, false);
    assert_eq!(ack.to_text(), "[7] Ack: rx_id=9 status=false");
    assert_eq!(ack.debug(), "Ack: Ack { id: 7, rx_id: 9, status: false }");
}

#[test]
fn init_config_text_forms() {
    let init = InitConfig::new(5, 0, 1, 2, [0x01, 0x02, 0x03, 0x04, 0x05, 0x06]);
    assert_eq!(
        init.to_text(),
        "[5] INIT: address=01:02:03:04:05:06 channel=2 api_version=0 now_version=1"
    );
    assert_eq!(
        init.debug(),
        "InitConfig: InitConfig { id: 5, api_version: 0, now_version: 1, channel: 2, \
         address: [1, 2, 3, 4, 5, 6] }"
    );
}

#[test]
fn hub_config_text_forms() {
    let hc = HubConfig::new(2, Some(3), None, Some(512), Some(WifiPhyRate::RateMcs6Lgi));
    assert_eq!(
        hc.to_text(),
        "[2] HubConfig: channel=Some(3) pmk=None wake_window=Some(512) rate=Some(RateMcs6Lgi)"
    );
    let with_key = HubConfig::new(2, None, Some([0u8; 16]), None, None);
    assert_eq!(
        with_key.to_text(),
        "[2] HubConfig: channel=None pmk=Some([0, 0, 0, 0, 0, 0, 0, 0, 0, 0, 0, 0, 0, 0, 0, 0]) \
         wake_window=None rate=None"
    );
}

#[test]
fn data_carrier_text_forms() {
    let tx = TxData::new(1, [1, 2, 3, 4, 5, 6], b"hi".to_vec(), true).unwrap();
    assert_eq!(
        tx.to_text(),
        "[1] TxData: dst=01:02:03:04:05:06 defer=true data=\"hi\""
    );
    let rx = RxData::new(3, [0xff; 6], [0; 6], vec![0xff, 0xfe], -9).unwrap();
    assert_eq!(
        rx.to_text(),
        "[3] RxData: src=<BROADCAST> dst=00:00:00:00:00:00 rssi=-9 data=\"ff fe\""
    );
    let bc = BroadcastData::new(4, b"ping".to_vec(), Some(10)).unwrap();
    assert_eq!(
        bc.to_text(),
        "[4] BroadcastData: interval=Some(10) data=\"ping\""
    );
}

#[test]
fn peer_text_forms() {
    let peer = PeerInfo::new(6, [0xf1, 0xf2, 0xf3, 0xf4, 0xf5, 0xf6], None, Some(5), true);
    assert_eq!(
        peer.to_text(),
        "[6] PeerInfo: address=f1:f2:f3:f4:f5:f6 lmk=None channel=Some(5) encrypt=true"
    );
    assert_eq!(
        peer.debug(),
        "PeerInfo: PeerInfo { id: 6, peer_address: [241, 242, 243, 244, 245, 246], lmk: None, \
         channel: Some(5), encrypt: true }"
    );
    let gone = PeerAddress::new(8, [1, 0, 0, 0, 0, 255]);
    assert_eq!(gone.to_text(), "[8] PEER: address=01:00:00:00:00:ff");
    assert_eq!(
        gone.debug(),
        "PeerAddress: PeerAddress { id: 8, address: [1, 0, 0, 0, 0, 255] }"
    );
}

#[test]
fn hub_config_debug_form() {
    let hc = HubConfig::new(9, Some(1), None, None, None);
    assert_eq!(
        hc.debug(),
        "HubConfig: HubConfig { id: 9, channel=Some(1) pmk=None wake_window=None rate=None }"
    );
}

#[test]
fn msg_text_delegates_to_variant() {
    let msg = Msg::new_ack(Ack::new(7, 9, true));
    assert_eq!(msg.to_text(), "[7] Ack: rx_id=9 status=true");
}

#[test]
fn monitor_text_forms() {
    let msg = Msg::new_ack(Ack::new(7, 9, true));
    assert_eq!(Monitor::new_tx(&msg).to_text(), "<TX> [7] Ack: rx_id=9 status=true");
    assert_eq!(Monitor::new_rx(&msg).to_text(), "<RX> [7] Ack: rx_id=9 status=true");
    assert_eq!(Monitor::new_txerror().to_text(), "TX ERROR");
    assert_eq!(Monitor::new_rxerror().to_text(), "RX ERROR");
}

#[test]
fn monitor_keeps_its_own_copy() {
    let msg = Msg::new_send(TxData::new(1, [1; 6], b"x".to_vec(), false).unwrap());
    let tx = Monitor::new_tx(&msg);
    assert_eq!(tx, Monitor::Tx(msg));
}

#[test]
fn data_accessors_view_the_bytes() {
    let d = Data::from_vec(vec![1, 2, 3]).unwrap();
    assert_eq!(d.len(), 3);
    assert_eq!(d.as_slice(), &[1, 2, 3]);
    assert_eq!(d.get(1), 2);
    assert_eq!(d.clone(), d);
    let empty = Data::empty();
    assert_eq!(empty.len(), 0);
}

#[test]
fn version_constant_is_exported() {
    assert_eq!(VERSION, 0);
}
