use aeonnode::crypto::{compute_mic, crypt_payload, derive_key};
use aeonnode::frame::{build_uplink_frame, encode_join_accept, DIR_DOWNLINK, MHDR_CONFIRMED_DOWN,
    MHDR_UNCONFIRMED_DOWN};
use aeonnode::lorawan::{DeviceClass, LoRaWAN, LoRaWANConfig, LoRaWANError};
use aeonnode::radio::{LoRaConfig, SX1276, SX1276Error};

fn zero_config() -> LoRaWANConfig {
    LoRaWANConfig {
        dev_eui: [0; 8],
        app_eui: [0; 8],
        app_key: [0; 16],
        device_class: DeviceClass::ClassA,
    }
}

fn ready_radio() -> SX1276 {
    let cfg = LoRaConfig::default();
    assert!(cfg.is_valid());
    let mut r = SX1276::new(cfg);
    r.init(true).unwrap();
    r
}

/// Join a zero-identity device against a simulated network that
/// immediately answers with a valid join accept.
fn joined_mac(dev_nonce: u16, app_nonce: [u8; 3], net_id: [u8; 3], dev_addr: [u8; 4]) -> LoRaWAN {
    let mut mac = LoRaWAN::new(ready_radio(), zero_config());
    let req = mac.join_request(dev_nonce).unwrap();
    assert_eq!(req.len(), 23);
    let accept = encode_join_accept(&[0u8; 16], &app_nonce, &net_id, &dev_addr, 0, 1);
    mac.join(true, Some(accept), None).unwrap();
    mac
}

/// Assemble a data downlink as the network server would.
fn make_downlink(
    nwk_skey: &[u8],
    payload_key: &[u8],
    dev_addr: &[u8],
    fcnt: u16,
    ack: bool,
    confirmed: bool,
    port: u8,
    payload: &[u8],
) -> Vec<u8> {
    let mut body: Vec<u8> = Vec::new();
    body.push(if confirmed { MHDR_CONFIRMED_DOWN } else { MHDR_UNCONFIRMED_DOWN });
    body.extend_from_slice(dev_addr);
    body.push(if ack { 0x20 } else { 0x00 });
    body.push((fcnt % 256) as u8);
    body.push((fcnt / 256) as u8);
    body.push(port);
    let enc = crypt_payload(payload_key, DIR_DOWNLINK, dev_addr, fcnt as u32, payload);
    body.extend_from_slice(enc.as_slice());
    let mut signed: Vec<u8> = vec![0x49, 0, 0, 0, 0, DIR_DOWNLINK];
    signed.extend_from_slice(dev_addr);
    signed.extend_from_slice(&(fcnt as u32).to_le_bytes());
    signed.push(0);
    signed.push(body.len() as u8);
    signed.extend_from_slice(body.as_slice());
    let mic = compute_mic(nwk_skey, signed.as_slice());
    body.extend_from_slice(mic.as_slice());
    body
}

#[test]
fn send_while_not_joined_fails_without_radio_work() {
    let mut mac = LoRaWAN::new(ready_radio(), zero_config());
    assert!(!mac.is_joined());
    assert_eq!(mac.send(1, &[], false), Err(LoRaWANError::NotJoined));
    assert_eq!(mac.send(1, &[1, 2, 3], true), Err(LoRaWANError::NotJoined));
    assert_eq!(mac.send(0, &[0; 242], false), Err(LoRaWANError::NotJoined));
    assert_eq!(mac.fcnt_up(), 0);
    assert!(!mac.is_joined());
}

#[test]
fn zero_identity_join_establishes_session() {
    let mut mac = joined_mac(0, [1, 2, 3], [4, 5, 6], [0x78, 0x56, 0x34, 0x12]);
    assert!(mac.is_joined());
    assert_eq!(mac.dev_addr(), Some(vec![0x78, 0x56, 0x34, 0x12]));
    assert_eq!(mac.fcnt_up(), 0);
    assert_eq!(mac.fcnt_down(), 0);
    // a second join replaces the session and resets the counters
    let frame = mac.send(1, &[1], false).unwrap();
    assert!(!frame.is_empty());
    assert_eq!(mac.fcnt_up(), 1);
    mac.complete_send(true, None, None).unwrap();
    mac.join_request(1).unwrap();
    let accept = encode_join_accept(&[0u8; 16], &[9, 9, 9], &[4, 5, 6], &[1, 1, 1, 1], 0, 1);
    mac.join(true, Some(accept), None).unwrap();
    assert_eq!(mac.fcnt_up(), 0);
    assert_eq!(mac.dev_addr(), Some(vec![1, 1, 1, 1]));
}

#[test]
fn first_send_uses_counter_zero_and_derived_keys() {
    let dev_nonce = 0x1234u16;
    let app_nonce = [0xA1, 0xA2, 0xA3];
    let net_id = [0xB1, 0xB2, 0xB3];
    let dev_addr = [0x78, 0x56, 0x34, 0x12];
    let mut mac = joined_mac(dev_nonce, app_nonce, net_id, dev_addr);
    let payload = [1, 2, 3, 4, 5];
    let frame = mac.send(1, &payload, false).unwrap();
    assert_eq!(mac.fcnt_up(), 1);
    // the frame must equal one built from the standard key derivation,
    // so the session keys are exactly the derived ones (and not zero)
    let nwk = derive_key(&[0u8; 16], 1, &app_nonce, &net_id, dev_nonce);
    let app = derive_key(&[0u8; 16], 2, &app_nonce, &net_id, dev_nonce);
    assert!(nwk.iter().any(|&b| b != 0));
    assert!(app.iter().any(|&b| b != 0));
    let expect = build_uplink_frame(
        nwk.as_slice(),
        app.as_slice(),
        &dev_addr,
        0,
        1,
        &payload,
        false,
    );
    assert_eq!(frame, expect);
    assert_eq!(mac.complete_send(true, None, None), Ok(None));
    assert_eq!(mac.fcnt_up(), 1);
}

#[test]
fn oversized_payload_leaves_counter_unchanged() {
    let mut mac = joined_mac(0, [1, 2, 3], [4, 5, 6], [1, 2, 3, 4]);
    let big = [0u8; 250];
    assert_eq!(mac.send(1, &big, false), Err(LoRaWANError::PayloadTooLarge));
    assert_eq!(mac.fcnt_up(), 0);
    // the boundary itself is accepted
    let ok = [0u8; 242];
    assert!(mac.send(1, &ok, false).is_ok());
    assert_eq!(mac.fcnt_up(), 1);
}

#[test]
fn consecutive_sends_step_the_counter_by_one() {
    let mut mac = joined_mac(0, [1, 2, 3], [4, 5, 6], [1, 2, 3, 4]);
    mac.send(1, &[1], false).unwrap();
    mac.complete_send(true, None, None).unwrap();
    assert_eq!(mac.fcnt_up(), 1);
    mac.send(1, &[2], false).unwrap();
    mac.complete_send(true, None, None).unwrap();
    assert_eq!(mac.fcnt_up(), 2);
    // a confirmed send that resolves to NoAck is not rolled back
    mac.send(1, &[3], true).unwrap();
    assert_eq!(mac.complete_send(true, None, None), Err(LoRaWANError::NoAck));
    assert_eq!(mac.fcnt_up(), 3);
}

#[test]
fn confirmed_send_acknowledged_by_downlink() {
    let dev_nonce = 7u16;
    let app_nonce = [1, 2, 3];
    let net_id = [4, 5, 6];
    let dev_addr = [9, 8, 7, 6];
    let mut mac = joined_mac(dev_nonce, app_nonce, net_id, dev_addr);
    let nwk = derive_key(&[0u8; 16], 1, &app_nonce, &net_id, dev_nonce);
    let app = derive_key(&[0u8; 16], 2, &app_nonce, &net_id, dev_nonce);
    mac.send(1, &[1, 2], true).unwrap();
    let ackframe = make_downlink(nwk.as_slice(), app.as_slice(), &dev_addr, 0, true, false, 1, &[0xAB]);
    let d = mac.complete_send(true, Some(ackframe), None).unwrap().unwrap();
    assert!(d.ack);
    assert_eq!(d.fcnt, 0);
    assert_eq!(d.port, Some(1));
    assert_eq!(d.payload, vec![0xAB]);
    assert_eq!(mac.fcnt_down(), 1);
}

#[test]
fn replayed_downlink_is_dropped_even_with_valid_mic() {
    let dev_nonce = 7u16;
    let app_nonce = [1, 2, 3];
    let net_id = [4, 5, 6];
    let dev_addr = [9, 8, 7, 6];
    let mut mac = joined_mac(dev_nonce, app_nonce, net_id, dev_addr);
    let nwk = derive_key(&[0u8; 16], 1, &app_nonce, &net_id, dev_nonce);
    let app = derive_key(&[0u8; 16], 2, &app_nonce, &net_id, dev_nonce);
    let frame = make_downlink(nwk.as_slice(), app.as_slice(), &dev_addr, 5, true, false, 1, &[1]);
    mac.send(1, &[1], true).unwrap();
    let got = mac.complete_send(true, Some(frame.clone()), None).unwrap();
    assert!(got.is_some());
    assert_eq!(mac.fcnt_down(), 6);
    // the same frame again: its integrity code still verifies, but the
    // counter was already accepted, so it is dropped
    mac.send(1, &[2], true).unwrap();
    assert_eq!(mac.complete_send(true, Some(frame), None), Err(LoRaWANError::NoAck));
    assert_eq!(mac.fcnt_down(), 6);
    // a fresh counter above the floor is accepted again
    let fresh = make_downlink(nwk.as_slice(), app.as_slice(), &dev_addr, 6, true, false, 1, &[2]);
    mac.send(1, &[3], true).unwrap();
    assert!(mac.complete_send(true, Some(fresh), None).is_ok());
    assert_eq!(mac.fcnt_down(), 7);
}

#[test]
fn downlink_accepted_in_second_window() {
    let dev_nonce = 1u16;
    let app_nonce = [1, 1, 1];
    let net_id = [2, 2, 2];
    let dev_addr = [3, 3, 3, 3];
    let mut mac = joined_mac(dev_nonce, app_nonce, net_id, dev_addr);
    let nwk = derive_key(&[0u8; 16], 1, &app_nonce, &net_id, dev_nonce);
    let app = derive_key(&[0u8; 16], 2, &app_nonce, &net_id, dev_nonce);
    let frame = make_downlink(nwk.as_slice(), app.as_slice(), &dev_addr, 0, false, false, 4, &[7]);
    mac.send(1, &[1], false).unwrap();
    let d = mac.complete_send(true, None, Some(frame)).unwrap().unwrap();
    assert_eq!(d.port, Some(4));
    assert_eq!(d.payload, vec![7]);
    assert_eq!(mac.fcnt_down(), 1);
}

#[test]
fn class_c_listening_accepts_and_replays_are_dropped() {
    let dev_nonce = 2u16;
    let app_nonce = [0, 1, 2];
    let net_id = [3, 4, 5];
    let dev_addr = [6, 7, 8, 9];
    let mut mac = joined_mac(dev_nonce, app_nonce, net_id, dev_addr);
    let nwk = derive_key(&[0u8; 16], 1, &app_nonce, &net_id, dev_nonce);
    let app = derive_key(&[0u8; 16], 2, &app_nonce, &net_id, dev_nonce);
    // an empty window yields nothing and moves no counter
    assert_eq!(mac.listen_window(None), Ok(None));
    assert_eq!(mac.fcnt_down(), 0);
    // a scheduled downlink outside any uplink exchange is accepted
    let frame = make_downlink(nwk.as_slice(), app.as_slice(), &dev_addr, 0, false, false, 3, &[5, 6]);
    let d = mac.listen_window(Some(frame.clone())).unwrap().unwrap();
    assert_eq!(d.port, Some(3));
    assert_eq!(d.payload, vec![5, 6]);
    assert_eq!(mac.fcnt_down(), 1);
    // the same frame again is a replay and is dropped
    assert_eq!(mac.listen_window(Some(frame)), Ok(None));
    assert_eq!(mac.fcnt_down(), 1);
}

#[test]
fn listening_before_join_is_refused() {
    let mut mac = LoRaWAN::new(ready_radio(), zero_config());
    assert_eq!(mac.listen_window(None), Err(LoRaWANError::NotJoined));
}

#[test]
fn join_without_valid_accept_fails_with_no_ack() {
    let mut mac = LoRaWAN::new(ready_radio(), zero_config());
    mac.join_request(0).unwrap();
    assert_eq!(mac.join(true, None, None), Err(LoRaWANError::NoAck));
    assert!(!mac.is_joined());
    // garbage in both windows is no better
    mac.join_request(1).unwrap();
    let garbage = vec![0xFFu8; 17];
    assert_eq!(mac.join(true, Some(garbage), Some(vec![1, 2, 3])), Err(LoRaWANError::NoAck));
    assert!(!mac.is_joined());
}

#[test]
fn join_accept_in_second_window_succeeds() {
    let mut mac = LoRaWAN::new(ready_radio(), zero_config());
    mac.join_request(3).unwrap();
    let accept = encode_join_accept(&[0u8; 16], &[1, 2, 3], &[4, 5, 6], &[1, 2, 3, 4], 0, 1);
    assert_eq!(mac.join(true, Some(vec![0u8; 17]), Some(accept)), Ok(()));
    assert!(mac.is_joined());
}

#[test]
fn join_transmit_timeout_is_a_radio_error() {
    let mut mac = LoRaWAN::new(ready_radio(), zero_config());
    mac.join_request(0).unwrap();
    assert_eq!(
        mac.join(false, None, None),
        Err(LoRaWANError::RadioError(SX1276Error::Timeout))
    );
    assert!(!mac.is_joined());
}

#[test]
fn join_request_needs_a_ready_radio() {
    let cfg = LoRaConfig::default();
    let radio = SX1276::new(cfg);  // never initialized
    let mut mac = LoRaWAN::new(radio, zero_config());
    assert_eq!(
        mac.join_request(0),
        Err(LoRaWANError::RadioError(SX1276Error::NotReady))
    );
}
