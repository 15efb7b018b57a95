use aeonnode::crypto::{compute_mic, crypt_payload};
use aeonnode::frame::{build_join_request, build_uplink_frame, encode_join_accept, parse_downlink,
    parse_join_accept, DIR_DOWNLINK, MHDR_CONFIRMED_DOWN, MHDR_JOIN_ACCEPT, MHDR_JOIN_REQUEST,
    MHDR_UNCONFIRMED_DOWN, MHDR_UNCONFIRMED_UP};

/// Assemble a data downlink the way a network server would: header,
/// enciphered payload, and the integrity code over the length-tagged
/// block plus body.
fn make_downlink(
    nwk_skey: &[u8],
    payload_key: &[u8],
    dev_addr: &[u8],
    fcnt: u16,
    ack: bool,
    confirmed: bool,
    port: u8,
    payload: &[u8],
) -> Vec<u8> {
    let mut body: Vec<u8> = Vec::new();
    body.push(if confirmed { MHDR_CONFIRMED_DOWN } else { MHDR_UNCONFIRMED_DOWN });
    body.extend_from_slice(dev_addr);
    body.push(if ack { 0x20 } else { 0x00 });
    body.push((fcnt % 256) as u8);
    body.push((fcnt / 256) as u8);
    body.push(port);
    let enc = crypt_payload(payload_key, DIR_DOWNLINK, dev_addr, fcnt as u32, payload);
    body.extend_from_slice(enc.as_slice());
    let mut signed: Vec<u8> = vec![0x49, 0, 0, 0, 0, DIR_DOWNLINK];
    signed.extend_from_slice(dev_addr);
    signed.extend_from_slice(&(fcnt as u32).to_le_bytes());
    signed.push(0);
    signed.push(body.len() as u8);
    signed.extend_from_slice(body.as_slice());
    let mic = compute_mic(nwk_skey, signed.as_slice());
    body.extend_from_slice(mic.as_slice());
    body
}

#[test]
fn join_request_layout_and_mic() {
    let app_key = [7u8; 16];
    let app_eui: [u8; 8] = [1, 2, 3, 4, 5, 6, 7, 8];
    let dev_eui: [u8; 8] = [9, 10, 11, 12, 13, 14, 15, 16];
    let frame = build_join_request(&app_key, &app_eui, &dev_eui, 0xBEEF);
    assert_eq!(frame.len(), 23);
    assert_eq!(frame[0], MHDR_JOIN_REQUEST);
    assert_eq!(&frame[1..9], &app_eui);
    assert_eq!(&frame[9..17], &dev_eui);
    assert_eq!(frame[17], 0xEF);
    assert_eq!(frame[18], 0xBE);
    let mic = compute_mic(&app_key, &frame[..19]);
    assert_eq!(&frame[19..], mic.as_slice());
}

#[test]
fn join_accept_round_trips_through_parse() {
    let app_key = [0u8; 16];
    let accept = encode_join_accept(&app_key, &[1, 2, 3], &[4, 5, 6], &[0x78, 0x56, 0x34, 0x12], 0, 1);
    assert_eq!(accept.len(), 17);
    assert_eq!(accept[0], MHDR_JOIN_ACCEPT);
    let ja = parse_join_accept(&app_key, accept.as_slice()).expect("valid accept");
    assert_eq!(ja.app_nonce.as_slice(), &[1, 2, 3]);
    assert_eq!(ja.net_id.as_slice(), &[4, 5, 6]);
    assert_eq!(ja.dev_addr.as_slice(), &[0x78, 0x56, 0x34, 0x12]);
    assert_eq!(ja.dl_settings, 0);
    assert_eq!(ja.rx_delay, 1);
}

#[test]
fn join_accept_with_corrupted_byte_is_rejected() {
    let app_key = [3u8; 16];
    let mut accept = encode_join_accept(&app_key, &[1, 2, 3], &[4, 5, 6], &[1, 2, 3, 4], 0, 1);
    accept[5] ^= 0x01;
    assert!(parse_join_accept(&app_key, accept.as_slice()).is_none());
}

#[test]
fn join_accept_under_wrong_key_is_rejected() {
    let accept = encode_join_accept(&[0u8; 16], &[1, 2, 3], &[4, 5, 6], &[1, 2, 3, 4], 0, 1);
    assert!(parse_join_accept(&[1u8; 16], accept.as_slice()).is_none());
}

#[test]
fn join_accept_with_wrong_header_or_length_is_rejected() {
    let app_key = [0u8; 16];
    let mut accept = encode_join_accept(&app_key, &[1, 2, 3], &[4, 5, 6], &[1, 2, 3, 4], 0, 1);
    accept[0] = MHDR_UNCONFIRMED_DOWN;
    assert!(parse_join_accept(&app_key, accept.as_slice()).is_none());
    assert!(parse_join_accept(&app_key, &[MHDR_JOIN_ACCEPT; 16]).is_none());
}

#[test]
fn uplink_frame_layout() {
    let nwk = [1u8; 16];
    let app = [2u8; 16];
    let addr: [u8; 4] = [0xAA, 0xBB, 0xCC, 0xDD];
    let payload: [u8; 5] = [10, 20, 30, 40, 50];
    let frame = build_uplink_frame(&nwk, &app, &addr, 0x0001_0203, 7, &payload, false);
    assert_eq!(frame.len(), 13 + 5);
    assert_eq!(frame[0], MHDR_UNCONFIRMED_UP);
    assert_eq!(&frame[1..5], &addr);
    assert_eq!(frame[5], 0x00);
    // low 16 bits of the counter, least significant first
    assert_eq!(frame[6], 0x03);
    assert_eq!(frame[7], 0x02);
    assert_eq!(frame[8], 7);
    // payload deciphers back under the application session key
    let dec = crypt_payload(&app, 0, &addr, 0x0001_0203, &frame[9..14]);
    assert_eq!(dec.as_slice(), &payload);
    // integrity code covers the length-tagged block plus the body
    let mut signed: Vec<u8> = vec![0x49, 0, 0, 0, 0, 0];
    signed.extend_from_slice(&addr);
    signed.extend_from_slice(&0x0001_0203u32.to_le_bytes());
    signed.push(0);
    signed.push(14);
    signed.extend_from_slice(&frame[..14]);
    let mic = compute_mic(&nwk, signed.as_slice());
    assert_eq!(&frame[14..], mic.as_slice());
}

#[test]
fn uplink_port_zero_uses_network_session_key() {
    let nwk = [1u8; 16];
    let app = [2u8; 16];
    let addr: [u8; 4] = [1, 2, 3, 4];
    let payload: [u8; 4] = [9, 9, 9, 9];
    let frame = build_uplink_frame(&nwk, &app, &addr, 0, 0, &payload, false);
    let dec = crypt_payload(&nwk, 0, &addr, 0, &frame[9..13]);
    assert_eq!(dec.as_slice(), &payload);
}

#[test]
fn downlink_parses_and_deciphers() {
    let nwk = [5u8; 16];
    let app = [6u8; 16];
    let addr: [u8; 4] = [0x11, 0x22, 0x33, 0x44];
    let payload: [u8; 3] = [0xDE, 0xAD, 0x01];
    let frame = make_downlink(&nwk, &app, &addr, 9, true, false, 2, &payload);
    let d = parse_downlink(&nwk, &app, &addr, frame.as_slice()).expect("valid downlink");
    assert_eq!(d.fcnt, 9);
    assert!(d.ack);
    assert!(!d.confirmed);
    assert_eq!(d.port, Some(2));
    assert_eq!(d.payload.as_slice(), &payload);
}

#[test]
fn downlink_with_bad_mic_is_rejected() {
    let nwk = [5u8; 16];
    let app = [6u8; 16];
    let addr: [u8; 4] = [1, 2, 3, 4];
    let mut frame = make_downlink(&nwk, &app, &addr, 0, false, false, 1, &[1, 2, 3]);
    let last = frame.len() - 1;
    frame[last] ^= 0xFF;
    assert!(parse_downlink(&nwk, &app, &addr, frame.as_slice()).is_none());
}

#[test]
fn downlink_for_another_address_is_rejected() {
    let nwk = [5u8; 16];
    let app = [6u8; 16];
    let frame = make_downlink(&nwk, &app, &[1, 2, 3, 4], 0, false, false, 1, &[1]);
    assert!(parse_downlink(&nwk, &app, &[1, 2, 3, 5], frame.as_slice()).is_none());
}

#[test]
fn short_or_foreign_frames_are_rejected() {
    let nwk = [5u8; 16];
    let app = [6u8; 16];
    let addr: [u8; 4] = [1, 2, 3, 4];
    assert!(parse_downlink(&nwk, &app, &addr, &[]).is_none());
    assert!(parse_downlink(&nwk, &app, &addr, &[MHDR_UNCONFIRMED_DOWN; 11]).is_none());
    // an uplink header is not a downlink
    let up = [MHDR_UNCONFIRMED_UP, 1, 2, 3, 4, 0, 0, 0, 1, 0, 0, 0];
    assert!(parse_downlink(&nwk, &app, &addr, &up).is_none());
}
