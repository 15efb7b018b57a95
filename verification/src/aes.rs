//! AES-128 block cipher.
//!
//! Specification-level and executable implementations of the AES-128
//! forward and inverse ciphers, the building block for the LoRaWAN
//! message integrity code, payload encryption and session-key
//! derivation.  Every executable function is proved to return exactly
//! what its specification counterpart defines.

use vstd::prelude::*;

verus! {

/// The AES substitution box.
pub closed spec fn sbox_seq() -> Seq<u8> {
    seq![
        0x63u8, 0x7cu8, 0x77u8, 0x7bu8, 0xf2u8, 0x6bu8, 0x6fu8, 0xc5u8,
        0x30u8, 0x01u8, 0x67u8, 0x2bu8, 0xfeu8, 0xd7u8, 0xabu8, 0x76u8,
        0xcau8, 0x82u8, 0xc9u8, 0x7du8, 0xfau8, 0x59u8, 0x47u8, 0xf0u8,
        0xadu8, 0xd4u8, 0xa2u8, 0xafu8, 0x9cu8, 0xa4u8, 0x72u8, 0xc0u8,
        0xb7u8, 0xfdu8, 0x93u8, 0x26u8, 0x36u8, 0x3fu8, 0xf7u8, 0xccu8,
        0x34u8, 0xa5u8, 0xe5u8, 0xf1u8, 0x71u8, 0xd8u8, 0x31u8, 0x15u8,
        0x04u8, 0xc7u8, 0x23u8, 0xc3u8, 0x18u8, 0x96u8, 0x05u8, 0x9au8,
        0x07u8, 0x12u8, 0x80u8, 0xe2u8, 0xebu8, 0x27u8, 0xb2u8, 0x75u8,
        0x09u8, 0x83u8, 0x2cu8, 0x1au8, 0x1bu8, 0x6eu8, 0x5au8, 0xa0u8,
        0x52u8, 0x3bu8, 0xd6u8, 0xb3u8, 0x29u8, 0xe3u8, 0x2fu8, 0x84u8,
        0x53u8, 0xd1u8, 0x00u8, 0xedu8, 0x20u8, 0xfcu8, 0xb1u8, 0x5bu8,
        0x6au8, 0xcbu8, 0xbeu8, 0x39u8, 0x4au8, 0x4cu8, 0x58u8, 0xcfu8,
        0xd0u8, 0xefu8, 0xaau8, 0xfbu8, 0x43u8, 0x4du8, 0x33u8, 0x85u8,
        0x45u8, 0xf9u8, 0x02u8, 0x7fu8, 0x50u8, 0x3cu8, 0x9fu8, 0xa8u8,
        0x51u8, 0xa3u8, 0x40u8, 0x8fu8, 0x92u8, 0x9du8, 0x38u8, 0xf5u8,
        0xbcu8, 0xb6u8, 0xdau8, 0x21u8, 0x10u8, 0xffu8, 0xf3u8, 0xd2u8,
        0xcdu8, 0x0cu8, 0x13u8, 0xecu8, 0x5fu8, 0x97u8, 0x44u8, 0x17u8,
        0xc4u8, 0xa7u8, 0x7eu8, 0x3du8, 0x64u8, 0x5du8, 0x19u8, 0x73u8,
        0x60u8, 0x81u8, 0x4fu8, 0xdcu8, 0x22u8, 0x2au8, 0x90u8, 0x88u8,
        0x46u8, 0xeeu8, 0xb8u8, 0x14u8, 0xdeu8, 0x5eu8, 0x0bu8, 0xdbu8,
        0xe0u8, 0x32u8, 0x3au8, 0x0au8, 0x49u8, 0x06u8, 0x24u8, 0x5cu8,
        0xc2u8, 0xd3u8, 0xacu8, 0x62u8, 0x91u8, 0x95u8, 0xe4u8, 0x79u8,
        0xe7u8, 0xc8u8, 0x37u8, 0x6du8, 0x8du8, 0xd5u8, 0x4eu8, 0xa9u8,
        0x6cu8, 0x56u8, 0xf4u8, 0xeau8, 0x65u8, 0x7au8, 0xaeu8, 0x08u8,
        0xbau8, 0x78u8, 0x25u8, 0x2eu8, 0x1cu8, 0xa6u8, 0xb4u8, 0xc6u8,
        0xe8u8, 0xddu8, 0x74u8, 0x1fu8, 0x4bu8, 0xbdu8, 0x8bu8, 0x8au8,
        0x70u8, 0x3eu8, 0xb5u8, 0x66u8, 0x48u8, 0x03u8, 0xf6u8, 0x0eu8,
        0x61u8, 0x35u8, 0x57u8, 0xb9u8, 0x86u8, 0xc1u8, 0x1du8, 0x9eu8,
        0xe1u8, 0xf8u8, 0x98u8, 0x11u8, 0x69u8, 0xd9u8, 0x8eu8, 0x94u8,
        0x9bu8, 0x1eu8, 0x87u8, 0xe9u8, 0xceu8, 0x55u8, 0x28u8, 0xdfu8,
        0x8cu8, 0xa1u8, 0x89u8, 0x0du8, 0xbfu8, 0xe6u8, 0x42u8, 0x68u8,
        0x41u8, 0x99u8, 0x2du8, 0x0fu8, 0xb0u8, 0x54u8, 0xbbu8, 0x16u8,
    ]
}

/// The inverse AES substitution box.
pub closed spec fn inv_sbox_seq() -> Seq<u8> {
    seq![
        0x52u8, 0x09u8, 0x6au8, 0xd5u8, 0x30u8, 0x36u8, 0xa5u8, 0x38u8,
        0xbfu8, 0x40u8, 0xa3u8, 0x9eu8, 0x81u8, 0xf3u8, 0xd7u8, 0xfbu8,
        0x7cu8, 0xe3u8, 0x39u8, 0x82u8, 0x9bu8, 0x2fu8, 0xffu8, 0x87u8,
        0x34u8, 0x8eu8, 0x43u8, 0x44u8, 0xc4u8, 0xdeu8, 0xe9u8, 0xcbu8,
        0x54u8, 0x7bu8, 0x94u8, 0x32u8, 0xa6u8, 0xc2u8, 0x23u8, 0x3du8,
        0xeeu8, 0x4cu8, 0x95u8, 0x0bu8, 0x42u8, 0xfau8, 0xc3u8, 0x4eu8,
        0x08u8, 0x2eu8, 0xa1u8, 0x66u8, 0x28u8, 0xd9u8, 0x24u8, 0xb2u8,
        0x76u8, 0x5bu8, 0xa2u8, 0x49u8, 0x6du8, 0x8bu8, 0xd1u8, 0x25u8,
        0x72u8, 0xf8u8, 0xf6u8, 0x64u8, 0x86u8, 0x68u8, 0x98u8, 0x16u8,
        0xd4u8, 0xa4u8, 0x5cu8, 0xccu8, 0x5du8, 0x65u8, 0xb6u8, 0x92u8,
        0x6cu8, 0x70u8, 0x48u8, 0x50u8, 0xfdu8, 0xedu8, 0xb9u8, 0xdau8,
        0x5eu8, 0x15u8, 0x46u8, 0x57u8, 0xa7u8, 0x8du8, 0x9du8, 0x84u8,
        0x90u8, 0xd8u8, 0xabu8, 0x00u8, 0x8cu8, 0xbcu8, 0xd3u8, 0x0au8,
        0xf7u8, 0xe4u8, 0x58u8, 0x05u8, 0xb8u8, 0xb3u8, 0x45u8, 0x06u8,
        0xd0u8, 0x2cu8, 0x1eu8, 0x8fu8, 0xcau8, 0x3fu8, 0x0fu8, 0x02u8,
        0xc1u8, 0xafu8, 0xbdu8, 0x03u8, 0x01u8, 0x13u8, 0x8au8, 0x6bu8,
        0x3au8, 0x91u8, 0x11u8, 0x41u8, 0x4fu8, 0x67u8, 0xdcu8, 0xeau8,
        0x97u8, 0xf2u8, 0xcfu8, 0xceu8, 0xf0u8, 0xb4u8, 0xe6u8, 0x73u8,
        0x96u8, 0xacu8, 0x74u8, 0x22u8, 0xe7u8, 0xadu8, 0x35u8, 0x85u8,
        0xe2u8, 0xf9u8, 0x37u8, 0xe8u8, 0x1cu8, 0x75u8, 0xdfu8, 0x6eu8,
        0x47u8, 0xf1u8, 0x1au8, 0x71u8, 0x1du8, 0x29u8, 0xc5u8, 0x89u8,
        0x6fu8, 0xb7u8, 0x62u8, 0x0eu8, 0xaau8, 0x18u8, 0xbeu8, 0x1bu8,
        0xfcu8, 0x56u8, 0x3eu8, 0x4bu8, 0xc6u8, 0xd2u8, 0x79u8, 0x20u8,
        0x9au8, 0xdbu8, 0xc0u8, 0xfeu8, 0x78u8, 0xcdu8, 0x5au8, 0xf4u8,
        0x1fu8, 0xddu8, 0xa8u8, 0x33u8, 0x88u8, 0x07u8, 0xc7u8, 0x31u8,
        0xb1u8, 0x12u8, 0x10u8, 0x59u8, 0x27u8, 0x80u8, 0xecu8, 0x5fu8,
        0x60u8, 0x51u8, 0x7fu8, 0xa9u8, 0x19u8, 0xb5u8, 0x4au8, 0x0du8,
        0x2du8, 0xe5u8, 0x7au8, 0x9fu8, 0x93u8, 0xc9u8, 0x9cu8, 0xefu8,
        0xa0u8, 0xe0u8, 0x3bu8, 0x4du8, 0xaeu8, 0x2au8, 0xf5u8, 0xb0u8,
        0xc8u8, 0xebu8, 0xbbu8, 0x3cu8, 0x83u8, 0x53u8, 0x99u8, 0x61u8,
        0x17u8, 0x2bu8, 0x04u8, 0x7eu8, 0xbau8, 0x77u8, 0xd6u8, 0x26u8,
        0xe1u8, 0x69u8, 0x14u8, 0x63u8, 0x55u8, 0x21u8, 0x0cu8, 0x7du8,
    ]
}

/// Substitute one byte through the S-box.
#[verifier::rlimit(60)]
fn sbox(x: u8) -> (r: u8)
    ensures
        r == sbox_seq()[x as int],
{
    let t: [u8; 256] = [
        0x63, 0x7c, 0x77, 0x7b, 0xf2, 0x6b, 0x6f, 0xc5,
        0x30, 0x01, 0x67, 0x2b, 0xfe, 0xd7, 0xab, 0x76,
        0xca, 0x82, 0xc9, 0x7d, 0xfa, 0x59, 0x47, 0xf0,
        0xad, 0xd4, 0xa2, 0xaf, 0x9c, 0xa4, 0x72, 0xc0,
        0xb7, 0xfd, 0x93, 0x26, 0x36, 0x3f, 0xf7, 0xcc,
        0x34, 0xa5, 0xe5, 0xf1, 0x71, 0xd8, 0x31, 0x15,
        0x04, 0xc7, 0x23, 0xc3, 0x18, 0x96, 0x05, 0x9a,
        0x07, 0x12, 0x80, 0xe2, 0xeb, 0x27, 0xb2, 0x75,
        0x09, 0x83, 0x2c, 0x1a, 0x1b, 0x6e, 0x5a, 0xa0,
        0x52, 0x3b, 0xd6, 0xb3, 0x29, 0xe3, 0x2f, 0x84,
        0x53, 0xd1, 0x00, 0xed, 0x20, 0xfc, 0xb1, 0x5b,
        0x6a, 0xcb, 0xbe, 0x39, 0x4a, 0x4c, 0x58, 0xcf,
        0xd0, 0xef, 0xaa, 0xfb, 0x43, 0x4d, 0x33, 0x85,
        0x45, 0xf9, 0x02, 0x7f, 0x50, 0x3c, 0x9f, 0xa8,
        0x51, 0xa3, 0x40, 0x8f, 0x92, 0x9d, 0x38, 0xf5,
        0xbc, 0xb6, 0xda, 0x21, 0x10, 0xff, 0xf3, 0xd2,
        0xcd, 0x0c, 0x13, 0xec, 0x5f, 0x97, 0x44, 0x17,
        0xc4, 0xa7, 0x7e, 0x3d, 0x64, 0x5d, 0x19, 0x73,
        0x60, 0x81, 0x4f, 0xdc, 0x22, 0x2a, 0x90, 0x88,
        0x46, 0xee, 0xb8, 0x14, 0xde, 0x5e, 0x0b, 0xdb,
        0xe0, 0x32, 0x3a, 0x0a, 0x49, 0x06, 0x24, 0x5c,
        0xc2, 0xd3, 0xac, 0x62, 0x91, 0x95, 0xe4, 0x79,
        0xe7, 0xc8, 0x37, 0x6d, 0x8d, 0xd5, 0x4e, 0xa9,
        0x6c, 0x56, 0xf4, 0xea, 0x65, 0x7a, 0xae, 0x08,
        0xba, 0x78, 0x25, 0x2e, 0x1c, 0xa6, 0xb4, 0xc6,
        0xe8, 0xdd, 0x74, 0x1f, 0x4b, 0xbd, 0x8b, 0x8a,
        0x70, 0x3e, 0xb5, 0x66, 0x48, 0x03, 0xf6, 0x0e,
        0x61, 0x35, 0x57, 0xb9, 0x86, 0xc1, 0x1d, 0x9e,
        0xe1, 0xf8, 0x98, 0x11, 0x69, 0xd9, 0x8e, 0x94,
        0x9b, 0x1e, 0x87, 0xe9, 0xce, 0x55, 0x28, 0xdf,
        0x8c, 0xa1, 0x89, 0x0d, 0xbf, 0xe6, 0x42, 0x68,
        0x41, 0x99, 0x2d, 0x0f, 0xb0, 0x54, 0xbb, 0x16,
    ];
    proof {
        assert(t@ =~= sbox_seq());
    }
    t[x as usize]
}

/// Substitute one byte through the inverse S-box.
#[verifier::rlimit(60)]
fn inv_sbox(x: u8) -> (r: u8)
    ensures
        r == inv_sbox_seq()[x as int],
{
    let t: [u8; 256] = [
        0x52, 0x09, 0x6a, 0xd5, 0x30, 0x36, 0xa5, 0x38,
        0xbf, 0x40, 0xa3, 0x9e, 0x81, 0xf3, 0xd7, 0xfb,
        0x7c, 0xe3, 0x39, 0x82, 0x9b, 0x2f, 0xff, 0x87,
        0x34, 0x8e, 0x43, 0x44, 0xc4, 0xde, 0xe9, 0xcb,
        0x54, 0x7b, 0x94, 0x32, 0xa6, 0xc2, 0x23, 0x3d,
        0xee, 0x4c, 0x95, 0x0b, 0x42, 0xfa, 0xc3, 0x4e,
        0x08, 0x2e, 0xa1, 0x66, 0x28, 0xd9, 0x24, 0xb2,
        0x76, 0x5b, 0xa2, 0x49, 0x6d, 0x8b, 0xd1, 0x25,
        0x72, 0xf8, 0xf6, 0x64, 0x86, 0x68, 0x98, 0x16,
        0xd4, 0xa4, 0x5c, 0xcc, 0x5d, 0x65, 0xb6, 0x92,
        0x6c, 0x70, 0x48, 0x50, 0xfd, 0xed, 0xb9, 0xda,
        0x5e, 0x15, 0x46, 0x57, 0xa7, 0x8d, 0x9d, 0x84,
        0x90, 0xd8, 0xab, 0x00, 0x8c, 0xbc, 0xd3, 0x0a,
        0xf7, 0xe4, 0x58, 0x05, 0xb8, 0xb3, 0x45, 0x06,
        0xd0, 0x2c, 0x1e, 0x8f, 0xca, 0x3f, 0x0f, 0x02,
        0xc1, 0xaf, 0xbd, 0x03, 0x01, 0x13, 0x8a, 0x6b,
        0x3a, 0x91, 0x11, 0x41, 0x4f, 0x67, 0xdc, 0xea,
        0x97, 0xf2, 0xcf, 0xce, 0xf0, 0xb4, 0xe6, 0x73,
        0x96, 0xac, 0x74, 0x22, 0xe7, 0xad, 0x35, 0x85,
        0xe2, 0xf9, 0x37, 0xe8, 0x1c, 0x75, 0xdf, 0x6e,
        0x47, 0xf1, 0x1a, 0x71, 0x1d, 0x29, 0xc5, 0x89,
        0x6f, 0xb7, 0x62, 0x0e, 0xaa, 0x18, 0xbe, 0x1b,
        0xfc, 0x56, 0x3e, 0x4b, 0xc6, 0xd2, 0x79, 0x20,
        0x9a, 0xdb, 0xc0, 0xfe, 0x78, 0xcd, 0x5a, 0xf4,
        0x1f, 0xdd, 0xa8, 0x33, 0x88, 0x07, 0xc7, 0x31,
        0xb1, 0x12, 0x10, 0x59, 0x27, 0x80, 0xec, 0x5f,
        0x60, 0x51, 0x7f, 0xa9, 0x19, 0xb5, 0x4a, 0x0d,
        0x2d, 0xe5, 0x7a, 0x9f, 0x93, 0xc9, 0x9c, 0xef,
        0xa0, 0xe0, 0x3b, 0x4d, 0xae, 0x2a, 0xf5, 0xb0,
        0xc8, 0xeb, 0xbb, 0x3c, 0x83, 0x53, 0x99, 0x61,
        0x17, 0x2b, 0x04, 0x7e, 0xba, 0x77, 0xd6, 0x26,
        0xe1, 0x69, 0x14, 0x63, 0x55, 0x21, 0x0c, 0x7d,
    ];
    proof {
        assert(t@ =~= inv_sbox_seq());
    }
    t[x as usize]
}

/// The AES round constants, indexed by round.
pub closed spec fn rcon_seq() -> Seq<u8> {
    seq![0x8du8, 0x01u8, 0x02u8, 0x04u8, 0x08u8, 0x10u8, 0x20u8, 0x40u8, 0x80u8, 0x1bu8, 0x36u8]
}

fn rcon(r: usize) -> (v: u8)
    requires
        r < 11,
    ensures
        v == rcon_seq()[r as int],
{
    let t: [u8; 11] = [0x8d, 0x01, 0x02, 0x04, 0x08, 0x10, 0x20, 0x40, 0x80, 0x1b, 0x36];
    proof {
        assert(t@ =~= rcon_seq());
    }
    t[r]
}

/// Multiplication by x (that is, by 2) in GF(2^8) modulo the AES polynomial.
pub open spec fn spec_xtime(b: u8) -> u8 {
    if b < 0x80 {
        (2 * b) as u8
    } else {
        ((2 * (b - 0x80)) as u8) ^ 0x1b
    }
}

/// Multiplication by 3 in GF(2^8).
pub open spec fn spec_mul3(b: u8) -> u8 {
    spec_xtime(b) ^ b
}

/// Multiplication by 9 in GF(2^8).
pub open spec fn spec_mul9(b: u8) -> u8 {
    spec_xtime(spec_xtime(spec_xtime(b))) ^ b
}

/// Multiplication by 11 in GF(2^8).
pub open spec fn spec_mul11(b: u8) -> u8 {
    spec_xtime(spec_xtime(spec_xtime(b))) ^ spec_xtime(b) ^ b
}

/// Multiplication by 13 in GF(2^8).
pub open spec fn spec_mul13(b: u8) -> u8 {
    spec_xtime(spec_xtime(spec_xtime(b))) ^ spec_xtime(spec_xtime(b)) ^ b
}

/// Multiplication by 14 in GF(2^8).
pub open spec fn spec_mul14(b: u8) -> u8 {
    spec_xtime(spec_xtime(spec_xtime(b))) ^ spec_xtime(spec_xtime(b)) ^ spec_xtime(b)
}

fn xtime(b: u8) -> (r: u8)
    ensures
        r == spec_xtime(b),
{
    if b < 0x80 {
        2 * b
    } else {
        (2 * (b - 0x80)) ^ 0x1b
    }
}

fn mul3(b: u8) -> (r: u8)
    ensures
        r == spec_mul3(b),
{
    xtime(b) ^ b
}

/// Bytewise exclusive or of two equally long byte strings.
pub open spec fn spec_xor_bytes(a: Seq<u8>, b: Seq<u8>) -> Seq<u8> {
    Seq::new(a.len(), |i: int| a[i] ^ b[i])
}

/// Exclusive or of two equally long byte slices.
pub fn xor_bytes(a: &[u8], b: &[u8]) -> (out: Vec<u8>)
    requires
        a@.len() == b@.len(),
    ensures
        out@ == spec_xor_bytes(a@, b@),
        out@.len() == a@.len(),
{
    let mut out: Vec<u8> = Vec::new();
    let mut i: usize = 0;
    while i < a.len()
        invariant
            i <= a@.len(),
            a@.len() == b@.len(),
            out@.len() == i,
            forall|j: int| 0 <= j < i ==> out@[j] == (a@[j] ^ b@[j]),
        decreases a@.len() - i,
    {
        out.push(a[i] ^ b[i]);
        i += 1;
    }
    proof {
        assert(out@ =~= spec_xor_bytes(a@, b@));
    }
    out
}

/// Each byte substituted through the S-box.
pub closed spec fn spec_sub_bytes(st: Seq<u8>) -> Seq<u8> {
    Seq::new(st.len(), |i: int| sbox_seq()[st[i] as int])
}

/// Each byte substituted through the inverse S-box.
pub closed spec fn spec_inv_sub_bytes(st: Seq<u8>) -> Seq<u8> {
    Seq::new(st.len(), |i: int| inv_sbox_seq()[st[i] as int])
}

fn sub_bytes(st: &[u8]) -> (out: Vec<u8>)
    ensures
        out@ == spec_sub_bytes(st@),
        out@.len() == st@.len(),
{
    let mut out: Vec<u8> = Vec::new();
    let mut i: usize = 0;
    while i < st.len()
        invariant
            i <= st@.len(),
            out@.len() == i,
            forall|j: int| 0 <= j < i ==> out@[j] == sbox_seq()[#[trigger] (st@[j] as int)],
        decreases st@.len() - i,
    {
        let b = sbox(st[i]);
        out.push(b);
        i += 1;
    }
    proof {
        assert(out@ =~= spec_sub_bytes(st@));
    }
    out
}

fn inv_sub_bytes(st: &[u8]) -> (out: Vec<u8>)
    ensures
        out@ == spec_inv_sub_bytes(st@),
        out@.len() == st@.len(),
{
    let mut out: Vec<u8> = Vec::new();
    let mut i: usize = 0;
    while i < st.len()
        invariant
            i <= st@.len(),
            out@.len() == i,
            forall|j: int| 0 <= j < i ==> out@[j] == inv_sbox_seq()[#[trigger] (st@[j] as int)],
        decreases st@.len() - i,
    {
        let b = inv_sbox(st[i]);
        out.push(b);
        i += 1;
    }
    proof {
        assert(out@ =~= spec_inv_sub_bytes(st@));
    }
    out
}

/// The AES row shift on a column-major 16 byte state.
pub closed spec fn spec_shift_rows(st: Seq<u8>) -> Seq<u8> {
    seq![
        st[0], st[5], st[10], st[15],
        st[4], st[9], st[14], st[3],
        st[8], st[13], st[2], st[7],
        st[12], st[1], st[6], st[11],
    ]
}

/// The inverse AES row shift.
pub closed spec fn spec_inv_shift_rows(st: Seq<u8>) -> Seq<u8> {
    seq![
        st[0], st[13], st[10], st[7],
        st[4], st[1], st[14], st[11],
        st[8], st[5], st[2], st[15],
        st[12], st[9], st[6], st[3],
    ]
}

fn shift_rows(st: &[u8]) -> (out: Vec<u8>)
    requires
        st@.len() == 16,
    ensures
        out@ == spec_shift_rows(st@),
        out@.len() == 16,
{
    let mut out: Vec<u8> = Vec::new();
    out.push(st[0]); out.push(st[5]); out.push(st[10]); out.push(st[15]);
    out.push(st[4]); out.push(st[9]); out.push(st[14]); out.push(st[3]);
    out.push(st[8]); out.push(st[13]); out.push(st[2]); out.push(st[7]);
    out.push(st[12]); out.push(st[1]); out.push(st[6]); out.push(st[11]);
    proof {
        assert(out@ =~= spec_shift_rows(st@));
    }
    out
}

fn inv_shift_rows(st: &[u8]) -> (out: Vec<u8>)
    requires
        st@.len() == 16,
    ensures
        out@ == spec_inv_shift_rows(st@),
        out@.len() == 16,
{
    let mut out: Vec<u8> = Vec::new();
    out.push(st[0]); out.push(st[13]); out.push(st[10]); out.push(st[7]);
    out.push(st[4]); out.push(st[1]); out.push(st[14]); out.push(st[11]);
    out.push(st[8]); out.push(st[5]); out.push(st[2]); out.push(st[15]);
    out.push(st[12]); out.push(st[9]); out.push(st[6]); out.push(st[3]);
    proof {
        assert(out@ =~= spec_inv_shift_rows(st@));
    }
    out
}

/// The AES column mix applied to one 4 byte column.
pub closed spec fn spec_mix_col(a: Seq<u8>) -> Seq<u8> {
    seq![
        spec_xtime(a[0]) ^ spec_mul3(a[1]) ^ a[2] ^ a[3],
        a[0] ^ spec_xtime(a[1]) ^ spec_mul3(a[2]) ^ a[3],
        a[0] ^ a[1] ^ spec_xtime(a[2]) ^ spec_mul3(a[3]),
        spec_mul3(a[0]) ^ a[1] ^ a[2] ^ spec_xtime(a[3]),
    ]
}

/// The inverse AES column mix applied to one 4 byte column.
pub closed spec fn spec_inv_mix_col(a: Seq<u8>) -> Seq<u8> {
    seq![
        spec_mul14(a[0]) ^ spec_mul11(a[1]) ^ spec_mul13(a[2]) ^ spec_mul9(a[3]),
        spec_mul9(a[0]) ^ spec_mul14(a[1]) ^ spec_mul11(a[2]) ^ spec_mul13(a[3]),
        spec_mul13(a[0]) ^ spec_mul9(a[1]) ^ spec_mul14(a[2]) ^ spec_mul11(a[3]),
        spec_mul11(a[0]) ^ spec_mul13(a[1]) ^ spec_mul9(a[2]) ^ spec_mul14(a[3]),
    ]
}

/// The AES column mix on the whole 16 byte state.
pub closed spec fn spec_mix_columns(st: Seq<u8>) -> Seq<u8> {
    spec_mix_col(st.subrange(0, 4)) + spec_mix_col(st.subrange(4, 8))
        + spec_mix_col(st.subrange(8, 12)) + spec_mix_col(st.subrange(12, 16))
}

/// The inverse AES column mix on the whole 16 byte state.
pub closed spec fn spec_inv_mix_columns(st: Seq<u8>) -> Seq<u8> {
    spec_inv_mix_col(st.subrange(0, 4)) + spec_inv_mix_col(st.subrange(4, 8))
        + spec_inv_mix_col(st.subrange(8, 12)) + spec_inv_mix_col(st.subrange(12, 16))
}

fn mix_col_push(st: &[u8], c: usize, out: &mut Vec<u8>)
    requires
        st@.len() == 16,
        c < 4,
    ensures
        final(out)@ == old(out)@ + spec_mix_col(st@.subrange(4 * c as int, 4 * c as int + 4)),
{
    let a0 = st[4 * c];
    let a1 = st[4 * c + 1];
    let a2 = st[4 * c + 2];
    let a3 = st[4 * c + 3];
    out.push(xtime(a0) ^ mul3(a1) ^ a2 ^ a3);
    out.push(a0 ^ xtime(a1) ^ mul3(a2) ^ a3);
    out.push(a0 ^ a1 ^ xtime(a2) ^ mul3(a3));
    out.push(mul3(a0) ^ a1 ^ a2 ^ xtime(a3));
    proof {
        assert(out@ =~= old(out)@ + spec_mix_col(st@.subrange(4 * c as int, 4 * c as int + 4)));
    }
}

fn inv_mix_col_push(st: &[u8], c: usize, out: &mut Vec<u8>)
    requires
        st@.len() == 16,
        c < 4,
    ensures
        final(out)@ == old(out)@ + spec_inv_mix_col(st@.subrange(4 * c as int, 4 * c as int + 4)),
{
    let a0 = st[4 * c];
    let a1 = st[4 * c + 1];
    let a2 = st[4 * c + 2];
    let a3 = st[4 * c + 3];
    let x0 = xtime(a0); let y0 = xtime(x0); let z0 = xtime(y0);
    let x1 = xtime(a1); let y1 = xtime(x1); let z1 = xtime(y1);
    let x2 = xtime(a2); let y2 = xtime(x2); let z2 = xtime(y2);
    let x3 = xtime(a3); let y3 = xtime(x3); let z3 = xtime(y3);
    let m14_0 = z0 ^ y0 ^ x0; let m13_0 = z0 ^ y0 ^ a0; let m11_0 = z0 ^ x0 ^ a0; let m9_0 = z0 ^ a0;
    let m14_1 = z1 ^ y1 ^ x1; let m13_1 = z1 ^ y1 ^ a1; let m11_1 = z1 ^ x1 ^ a1; let m9_1 = z1 ^ a1;
    let m14_2 = z2 ^ y2 ^ x2; let m13_2 = z2 ^ y2 ^ a2; let m11_2 = z2 ^ x2 ^ a2; let m9_2 = z2 ^ a2;
    let m14_3 = z3 ^ y3 ^ x3; let m13_3 = z3 ^ y3 ^ a3; let m11_3 = z3 ^ x3 ^ a3; let m9_3 = z3 ^ a3;
    out.push(m14_0 ^ m11_1 ^ m13_2 ^ m9_3);
    out.push(m9_0 ^ m14_1 ^ m11_2 ^ m13_3);
    out.push(m13_0 ^ m9_1 ^ m14_2 ^ m11_3);
    out.push(m11_0 ^ m13_1 ^ m9_2 ^ m14_3);
    proof {
        assert(out@ =~= old(out)@ + spec_inv_mix_col(st@.subrange(4 * c as int, 4 * c as int + 4)));
    }
}

fn mix_columns(st: &[u8]) -> (out: Vec<u8>)
    requires
        st@.len() == 16,
    ensures
        out@ == spec_mix_columns(st@),
        out@.len() == 16,
{
    let mut out: Vec<u8> = Vec::new();
    mix_col_push(st, 0, &mut out);
    mix_col_push(st, 1, &mut out);
    mix_col_push(st, 2, &mut out);
    mix_col_push(st, 3, &mut out);
    proof {
        assert(out@ =~= spec_mix_columns(st@));
    }
    out
}

fn inv_mix_columns(st: &[u8]) -> (out: Vec<u8>)
    requires
        st@.len() == 16,
    ensures
        out@ == spec_inv_mix_columns(st@),
        out@.len() == 16,
{
    let mut out: Vec<u8> = Vec::new();
    inv_mix_col_push(st, 0, &mut out);
    inv_mix_col_push(st, 1, &mut out);
    inv_mix_col_push(st, 2, &mut out);
    inv_mix_col_push(st, 3, &mut out);
    proof {
        assert(out@ =~= spec_inv_mix_columns(st@));
    }
    out
}

/// Word `i` of the expanded AES-128 key schedule, 4 bytes.
pub closed spec fn spec_key_word(key: Seq<u8>, i: nat) -> Seq<u8>
    decreases i,
{
    if i < 4 {
        key.subrange(4 * (i as int), 4 * (i as int) + 4)
    } else {
        let prev = spec_key_word(key, (i - 1) as nat);
        let back = spec_key_word(key, (i - 4) as nat);
        let temp = if i % 4 == 0 {
            let rot = spec_sub_bytes(seq![prev[1], prev[2], prev[3], prev[0]]);
            rot.update(0, rot[0] ^ rcon_seq()[i as int / 4])
        } else {
            prev
        };
        spec_xor_bytes(back, temp)
    }
}

/// Round key `r` of the expanded AES-128 key schedule, 16 bytes.
pub closed spec fn spec_round_key(key: Seq<u8>, r: nat) -> Seq<u8> {
    spec_key_word(key, 4 * r) + spec_key_word(key, 4 * r + 1)
        + spec_key_word(key, 4 * r + 2) + spec_key_word(key, 4 * r + 3)
}

/// The key schedule holds 44 words of 4 bytes.
pub closed spec fn spec_key_schedule_ok(key: Seq<u8>, ks: Seq<u8>) -> bool {
    &&& ks.len() == 176
    &&& forall|i: int|
        0 <= i < 44 ==> #[trigger] ks.subrange(4 * i, 4 * i + 4) == spec_key_word(key, i as nat)
}

fn key_schedule(key: &[u8]) -> (ks: Vec<u8>)
    requires
        key@.len() == 16,
    ensures
        spec_key_schedule_ok(key@, ks@),
{
    let mut ks: Vec<u8> = Vec::new();
    let mut i: usize = 0;
    while i < 44
        invariant
            i <= 44,
            key@.len() == 16,
            ks@.len() == 4 * i,
            forall|j: int|
                0 <= j < i ==> #[trigger] ks@.subrange(4 * j, 4 * j + 4)
                    == spec_key_word(key@, j as nat),
        decreases 44 - i,
    {
        let ghost prior = ks@;
        let w0: u8;
        let w1: u8;
        let w2: u8;
        let w3: u8;
        if i < 4 {
            w0 = key[4 * i];
            w1 = key[4 * i + 1];
            w2 = key[4 * i + 2];
            w3 = key[4 * i + 3];
        } else {
            let mut t0 = ks[4 * (i - 1)];
            let mut t1 = ks[4 * (i - 1) + 1];
            let mut t2 = ks[4 * (i - 1) + 2];
            let mut t3 = ks[4 * (i - 1) + 3];
            if i % 4 == 0 {
                let n0 = sbox(t1) ^ rcon(i / 4);
                let n1 = sbox(t2);
                let n2 = sbox(t3);
                let n3 = sbox(t0);
                t0 = n0;
                t1 = n1;
                t2 = n2;
                t3 = n3;
            }
            w0 = ks[4 * (i - 4)] ^ t0;
            w1 = ks[4 * (i - 4) + 1] ^ t1;
            w2 = ks[4 * (i - 4) + 2] ^ t2;
            w3 = ks[4 * (i - 4) + 3] ^ t3;
            proof {
                assert(prior.subrange(4 * (i - 1), 4 * (i - 1) + 4)
                    == spec_key_word(key@, (i - 1) as nat));
                assert(prior.subrange(4 * (i - 4), 4 * (i - 4) + 4)
                    == spec_key_word(key@, (i - 4) as nat));
            }
        }
        ks.push(w0);
        ks.push(w1);
        ks.push(w2);
        ks.push(w3);
        proof {
            assert(ks@ =~= prior + seq![w0, w1, w2, w3]);
            assert(seq![w0, w1, w2, w3] =~= spec_key_word(key@, i as nat));
            assert forall|j: int| 0 <= j < i + 1 implies #[trigger] ks@.subrange(4 * j, 4 * j + 4)
                == spec_key_word(key@, j as nat) by {
                if j < i {
                    assert(ks@.subrange(4 * j, 4 * j + 4) =~= prior.subrange(4 * j, 4 * j + 4));
                } else {
                    assert(ks@.subrange(4 * j, 4 * j + 4) =~= seq![w0, w1, w2, w3]);
                }
            }
        }
        i += 1;
    }
    ks
}

proof fn lemma_round_key_subrange(key: Seq<u8>, ks: Seq<u8>, r: int)
    requires
        spec_key_schedule_ok(key, ks),
        0 <= r < 11,
    ensures
        ks.subrange(16 * r, 16 * r + 16) == spec_round_key(key, r as nat),
{
    assert(ks.subrange(4 * (4 * r), 4 * (4 * r) + 4) == spec_key_word(key, (4 * r) as nat));
    assert(ks.subrange(4 * (4 * r + 1), 4 * (4 * r + 1) + 4) == spec_key_word(key, (4 * r + 1) as nat));
    assert(ks.subrange(4 * (4 * r + 2), 4 * (4 * r + 2) + 4) == spec_key_word(key, (4 * r + 2) as nat));
    assert(ks.subrange(4 * (4 * r + 3), 4 * (4 * r + 3) + 4) == spec_key_word(key, (4 * r + 3) as nat));
    assert(ks.subrange(16 * r, 16 * r + 16) =~= ks.subrange(4 * (4 * r), 4 * (4 * r) + 4)
        + ks.subrange(4 * (4 * r + 1), 4 * (4 * r + 1) + 4)
        + ks.subrange(4 * (4 * r + 2), 4 * (4 * r + 2) + 4)
        + ks.subrange(4 * (4 * r + 3), 4 * (4 * r + 3) + 4));
}

fn add_round_key(st: &[u8], ks: &Vec<u8>, r: usize, Ghost(key): Ghost<Seq<u8>>) -> (out: Vec<u8>)
    requires
        st@.len() == 16,
        spec_key_schedule_ok(key, ks@),
        r < 11,
    ensures
        out@ == spec_xor_bytes(st@, spec_round_key(key, r as nat)),
        out@.len() == 16,
{
    proof {
        lemma_round_key_subrange(key, ks@, r as int);
    }
    let mut out: Vec<u8> = Vec::new();
    let mut j: usize = 0;
    while j < 16
        invariant
            j <= 16,
            st@.len() == 16,
            ks@.len() == 176,
            r < 11,
            out@.len() == j,
            forall|k: int| 0 <= k < j ==> out@[k] == (st@[k] ^ ks@[16 * (r as int) + k]),
        decreases 16 - j,
    {
        out.push(st[j] ^ ks[16 * r + j]);
        j += 1;
    }
    proof {
        assert(ks@.subrange(16 * (r as int), 16 * (r as int) + 16) == spec_round_key(key, r as nat));
        assert forall|k: int| 0 <= k < 16 implies spec_round_key(key, r as nat)[k]
            == ks@[16 * (r as int) + k] by {
            assert(ks@.subrange(16 * (r as int), 16 * (r as int) + 16)[k]
                == ks@[16 * (r as int) + k]);
        }
        assert(out@ =~= spec_xor_bytes(st@, spec_round_key(key, r as nat)));
    }
    out
}

/// The state after the initial key addition and `r` full AES rounds.
pub closed spec fn spec_enc_state(key: Seq<u8>, block: Seq<u8>, r: nat) -> Seq<u8>
    decreases r,
{
    if r == 0 {
        spec_xor_bytes(block, spec_round_key(key, 0))
    } else {
        spec_xor_bytes(
            spec_mix_columns(spec_shift_rows(spec_sub_bytes(spec_enc_state(key, block, (r - 1) as nat)))),
            spec_round_key(key, r),
        )
    }
}

/// AES-128 encryption of one 16 byte block.
pub closed spec fn spec_aes128_encrypt(key: Seq<u8>, block: Seq<u8>) -> Seq<u8> {
    spec_xor_bytes(
        spec_shift_rows(spec_sub_bytes(spec_enc_state(key, block, 9))),
        spec_round_key(key, 10),
    )
}

/// The state after the initial key addition and `r` full inverse rounds.
pub closed spec fn spec_dec_state(key: Seq<u8>, block: Seq<u8>, r: nat) -> Seq<u8>
    decreases r,
{
    if r == 0 {
        spec_xor_bytes(block, spec_round_key(key, 10))
    } else {
        spec_inv_mix_columns(
            spec_xor_bytes(
                spec_inv_sub_bytes(spec_inv_shift_rows(spec_dec_state(key, block, (r - 1) as nat))),
                spec_round_key(key, (10 - r) as nat),
            ),
        )
    }
}

/// AES-128 decryption of one 16 byte block.
pub closed spec fn spec_aes128_decrypt(key: Seq<u8>, block: Seq<u8>) -> Seq<u8> {
    spec_xor_bytes(
        spec_inv_sub_bytes(spec_inv_shift_rows(spec_dec_state(key, block, 9))),
        spec_round_key(key, 0),
    )
}

/// Encrypt one 16 byte block with AES-128.
pub fn aes128_encrypt_block(key: &[u8], block: &[u8]) -> (out: Vec<u8>)
    requires
        key@.len() == 16,
        block@.len() == 16,
    ensures
        out@ == spec_aes128_encrypt(key@, block@),
        out@.len() == 16,
{
    let ks = key_schedule(key);
    let mut state = add_round_key(block, &ks, 0, Ghost(key@));
    let mut r: usize = 1;
    while r < 10
        invariant
            1 <= r <= 10,
            key@.len() == 16,
            spec_key_schedule_ok(key@, ks@),
            state@.len() == 16,
            state@ == spec_enc_state(key@, block@, (r - 1) as nat),
        decreases 10 - r,
    {
        let t1 = sub_bytes(state.as_slice());
        let t2 = shift_rows(t1.as_slice());
        let t3 = mix_columns(t2.as_slice());
        state = add_round_key(t3.as_slice(), &ks, r, Ghost(key@));
        r += 1;
    }
    let t1 = sub_bytes(state.as_slice());
    let t2 = shift_rows(t1.as_slice());
    add_round_key(t2.as_slice(), &ks, 10, Ghost(key@))
}

/// Decrypt one 16 byte block with AES-128.
pub fn aes128_decrypt_block(key: &[u8], block: &[u8]) -> (out: Vec<u8>)
    requires
        key@.len() == 16,
        block@.len() == 16,
    ensures
        out@ == spec_aes128_decrypt(key@, block@),
        out@.len() == 16,
{
    let ks = key_schedule(key);
    let mut state = add_round_key(block, &ks, 10, Ghost(key@));
    let mut r: usize = 1;
    while r < 10
        invariant
            1 <= r <= 10,
            key@.len() == 16,
            spec_key_schedule_ok(key@, ks@),
            state@.len() == 16,
            state@ == spec_dec_state(key@, block@, (r - 1) as nat),
        decreases 10 - r,
    {
        let t1 = inv_shift_rows(state.as_slice());
        let t2 = inv_sub_bytes(t1.as_slice());
        let t3 = add_round_key(t2.as_slice(), &ks, 10 - r, Ghost(key@));
        state = inv_mix_columns(t3.as_slice());
        r += 1;
    }
    let t1 = inv_shift_rows(state.as_slice());
    let t2 = inv_sub_bytes(t1.as_slice());
    add_round_key(t2.as_slice(), &ks, 0, Ghost(key@))
}

} // verus!
