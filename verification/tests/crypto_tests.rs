use aeonnode::aes::{aes128_decrypt_block, aes128_encrypt_block};
use aeonnode::crypto::{aes_cmac, compute_mic, crypt_payload, derive_key};

// Key and messages from the AES-CMAC examples of RFC 4493, which also
// exercise the underlying block cipher against its published vectors.
const KEY: [u8; 16] = [
    0x2b, 0x7e, 0x15, 0x16, 0x28, 0xae, 0xd2, 0xa6, 0xab, 0xf7, 0x15, 0x88, 0x09, 0xcf, 0x4f, 0x3c,
];

const MSG40: [u8; 40] = [
    0x6b, 0xc1, 0xbe, 0xe2, 0x2e, 0x40, 0x9f, 0x96, 0xe9, 0x3d, 0x7e, 0x11, 0x73, 0x93, 0x17, 0x2a,
    0xae, 0x2d, 0x8a, 0x57, 0x1e, 0x03, 0xac, 0x9c, 0x9e, 0xb7, 0x6f, 0xac, 0x45, 0xaf, 0x8e, 0x51,
    0x30, 0xc8, 0x1c, 0x46, 0xa3, 0x5c, 0xe4, 0x11,
];

#[test]
fn aes_block_cipher_matches_published_vector() {
    let plain: [u8; 16] = [
        0x6b, 0xc1, 0xbe, 0xe2, 0x2e, 0x40, 0x9f, 0x96, 0xe9, 0x3d, 0x7e, 0x11, 0x73, 0x93, 0x17,
        0x2a,
    ];
    let expect: [u8; 16] = [
        0x3a, 0xd7, 0x7b, 0xb4, 0x0d, 0x7a, 0x36, 0x60, 0xa8, 0x9e, 0xca, 0xf3, 0x24, 0x66, 0xef,
        0x97,
    ];
    let out = aes128_encrypt_block(&KEY, &plain);
    assert_eq!(out.as_slice(), &expect);
}

#[test]
fn aes_decrypt_inverts_encrypt() {
    let plain: [u8; 16] = [
        0x00, 0x11, 0x22, 0x33, 0x44, 0x55, 0x66, 0x77, 0x88, 0x99, 0xaa, 0xbb, 0xcc, 0xdd, 0xee,
        0xff,
    ];
    let enc = aes128_encrypt_block(&KEY, &plain);
    let dec = aes128_decrypt_block(&KEY, enc.as_slice());
    assert_eq!(dec.as_slice(), &plain);
    // and the published all-byte-values vector with the sequential key
    let seq_key: Vec<u8> = (0u8..16).collect();
    let enc2 = aes128_encrypt_block(seq_key.as_slice(), &plain);
    let expect2: [u8; 16] = [
        0x69, 0xc4, 0xe0, 0xd8, 0x6a, 0x7b, 0x04, 0x30, 0xd8, 0xcd, 0xb7, 0x80, 0x70, 0xb4, 0xc5,
        0x5a,
    ];
    assert_eq!(enc2.as_slice(), &expect2);
}

#[test]
fn cmac_of_empty_message() {
    let mac = aes_cmac(&KEY, &[]);
    let expect: [u8; 16] = [
        0xbb, 0x1d, 0x69, 0x29, 0xe9, 0x59, 0x37, 0x28, 0x7f, 0xa3, 0x7d, 0x12, 0x9b, 0x75, 0x67,
        0x46,
    ];
    assert_eq!(mac.as_slice(), &expect);
}

#[test]
fn cmac_of_one_complete_block() {
    let mac = aes_cmac(&KEY, &MSG40[..16]);
    let expect: [u8; 16] = [
        0x07, 0x0a, 0x16, 0xb4, 0x6b, 0x4d, 0x41, 0x44, 0xf7, 0x9b, 0xdd, 0x9d, 0xd0, 0x4a, 0x28,
        0x7c,
    ];
    assert_eq!(mac.as_slice(), &expect);
}

#[test]
fn cmac_of_partial_final_block() {
    let mac = aes_cmac(&KEY, &MSG40);
    let expect: [u8; 16] = [
        0xdf, 0xa6, 0x67, 0x47, 0xde, 0x9a, 0xe6, 0x30, 0x30, 0xca, 0x32, 0x61, 0x14, 0x97, 0xc8,
        0x27,
    ];
    assert_eq!(mac.as_slice(), &expect);
}

#[test]
fn mic_is_the_cmac_prefix() {
    let mac = aes_cmac(&KEY, &MSG40);
    let mic = compute_mic(&KEY, &MSG40);
    assert_eq!(mic.len(), 4);
    assert_eq!(mic.as_slice(), &mac.as_slice()[..4]);
}

#[test]
fn payload_cipher_round_trips() {
    let addr: [u8; 4] = [0x78, 0x56, 0x34, 0x12];
    let payload: Vec<u8> = (0u8..100).collect();
    let enc = crypt_payload(&KEY, 0, &addr, 7, payload.as_slice());
    assert_eq!(enc.len(), payload.len());
    assert_ne!(enc.as_slice(), payload.as_slice());
    let dec = crypt_payload(&KEY, 0, &addr, 7, enc.as_slice());
    assert_eq!(dec.as_slice(), payload.as_slice());
}

#[test]
fn payload_cipher_depends_on_counter_and_direction() {
    let addr: [u8; 4] = [1, 2, 3, 4];
    let payload = [0u8; 24];
    let a = crypt_payload(&KEY, 0, &addr, 0, &payload);
    let b = crypt_payload(&KEY, 0, &addr, 1, &payload);
    let c = crypt_payload(&KEY, 1, &addr, 0, &payload);
    assert_ne!(a, b);
    assert_ne!(a, c);
}

#[test]
fn derived_session_keys_differ_by_tag_and_are_nonzero() {
    let app_key = [0u8; 16];
    let app_nonce = [0u8; 3];
    let net_id = [0u8; 3];
    let nwk = derive_key(&app_key, 1, &app_nonce, &net_id, 0);
    let app = derive_key(&app_key, 2, &app_nonce, &net_id, 0);
    assert_eq!(nwk.len(), 16);
    assert_eq!(app.len(), 16);
    assert_ne!(nwk, app);
    assert!(nwk.iter().any(|&b| b != 0));
    assert!(app.iter().any(|&b| b != 0));
}
