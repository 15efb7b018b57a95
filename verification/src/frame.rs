//! The LoRaWAN wire format.
//!
//! A physical payload is MHDR (1 byte), then for data frames the frame
//! header (device address, control byte, 16 bit counter, optional
//! options), an optional port byte, the enciphered application payload,
//! and a 4 byte message integrity code.  Join traffic has its own two
//! frame layouts.  Device and application identifiers travel least
//! significant byte first; this module keeps them in that over-the-air
//! order throughout.

use vstd::prelude::*;
use crate::aes::{aes128_decrypt_block, aes128_encrypt_block, spec_aes128_decrypt,
    spec_aes128_encrypt};
use crate::crypto::{append_bytes, bytes_eq, compute_mic, copy_range, crypt_payload, push_u16_le,
    spec_crypt_payload, spec_mic, spec_u16_le, spec_u32_le};

verus! {

/// MHDR of a join request.
pub const MHDR_JOIN_REQUEST: u8 = 0x00;
/// MHDR of a join accept.
pub const MHDR_JOIN_ACCEPT: u8 = 0x20;
/// MHDR of an unconfirmed data uplink.
pub const MHDR_UNCONFIRMED_UP: u8 = 0x40;
/// MHDR of a confirmed data uplink.
pub const MHDR_CONFIRMED_UP: u8 = 0x80;
/// MHDR of an unconfirmed data downlink.
pub const MHDR_UNCONFIRMED_DOWN: u8 = 0x60;
/// MHDR of a confirmed data downlink.
pub const MHDR_CONFIRMED_DOWN: u8 = 0xA0;
/// Direction byte of uplink traffic in cryptographic blocks.
pub const DIR_UPLINK: u8 = 0;
/// Direction byte of downlink traffic in cryptographic blocks.
pub const DIR_DOWNLINK: u8 = 1;
/// Conservative application payload ceiling, bytes.
pub const MAX_PAYLOAD: usize = 242;

/// The body of a join request: MHDR, application identifier, device
/// identifier, device nonce, all least significant byte first.
pub open spec fn spec_join_request_body(app_eui: Seq<u8>, dev_eui: Seq<u8>, dev_nonce: u16) -> Seq<
    u8,
> {
    seq![MHDR_JOIN_REQUEST] + app_eui + dev_eui + spec_u16_le(dev_nonce)
}

/// A complete join request frame: body plus its integrity code under
/// the application key.
pub open spec fn spec_join_request(
    app_key: Seq<u8>,
    app_eui: Seq<u8>,
    dev_eui: Seq<u8>,
    dev_nonce: u16,
) -> Seq<u8> {
    let body = spec_join_request_body(app_eui, dev_eui, dev_nonce);
    body + spec_mic(app_key, body)
}

/// Build a join request frame.
pub fn build_join_request(app_key: &[u8], app_eui: &[u8], dev_eui: &[u8], dev_nonce: u16) -> (out:
    Vec<u8>)
    requires
        app_key@.len() == 16,
        app_eui@.len() == 8,
        dev_eui@.len() == 8,
    ensures
        out@ == spec_join_request(app_key@, app_eui@, dev_eui@, dev_nonce),
        out@.len() == 23,
{
    let mut body: Vec<u8> = Vec::new();
    body.push(MHDR_JOIN_REQUEST);
    append_bytes(&mut body, app_eui);
    append_bytes(&mut body, dev_eui);
    push_u16_le(&mut body, dev_nonce);
    proof {
        assert(body@ =~= spec_join_request_body(app_eui@, dev_eui@, dev_nonce));
    }
    let mic = compute_mic(app_key, body.as_slice());
    append_bytes(&mut body, mic.as_slice());
    body
}

/// Electronic-codebook encryption of whole 16 byte blocks; a trailing
/// partial block is dropped.
pub closed spec fn spec_ecb_encrypt(key: Seq<u8>, data: Seq<u8>) -> Seq<u8>
    decreases data.len(),
{
    if data.len() < 16 {
        Seq::empty()
    } else {
        spec_aes128_encrypt(key, data.subrange(0, 16)) + spec_ecb_encrypt(
            key,
            data.subrange(16, data.len() as int),
        )
    }
}

/// Electronic-codebook decryption of whole 16 byte blocks.
pub closed spec fn spec_ecb_decrypt(key: Seq<u8>, data: Seq<u8>) -> Seq<u8>
    decreases data.len(),
{
    if data.len() < 16 {
        Seq::empty()
    } else {
        spec_aes128_decrypt(key, data.subrange(0, 16)) + spec_ecb_decrypt(
            key,
            data.subrange(16, data.len() as int),
        )
    }
}

fn ecb_encrypt(key: &[u8], data: &[u8]) -> (out: Vec<u8>)
    requires
        key@.len() == 16,
        data@.len() % 16 == 0,
    ensures
        out@ == spec_ecb_encrypt(key@, data@),
        out@.len() == data@.len(),
{
    let mut out: Vec<u8> = Vec::new();
    let mut i: usize = 0;
    proof {
        assert(data@.subrange(0, data@.len() as int) =~= data@);
        assert(Seq::<u8>::empty() + spec_ecb_encrypt(key@, data@) =~= spec_ecb_encrypt(
            key@,
            data@,
        ));
    }
    while i < data.len()
        invariant
            i <= data@.len(),
            i % 16 == 0,
            data@.len() % 16 == 0,
            key@.len() == 16,
            out@.len() == i,
            out@ + spec_ecb_encrypt(key@, data@.subrange(i as int, data@.len() as int))
                == spec_ecb_encrypt(key@, data@),
        decreases data@.len() - i,
    {
        let blk = copy_range(data, i, i + 16);
        let enc = aes128_encrypt_block(key, blk.as_slice());
        let ghost rest = data@.subrange(i as int, data@.len() as int);
        let ghost prior = out@;
        append_bytes(&mut out, enc.as_slice());
        proof {
            assert(rest.subrange(0, 16) =~= data@.subrange(i as int, i + 16));
            assert(rest.subrange(16, rest.len() as int) =~= data@.subrange(
                i + 16,
                data@.len() as int,
            ));
            assert(spec_ecb_encrypt(key@, rest) == spec_aes128_encrypt(key@, blk@)
                + spec_ecb_encrypt(key@, data@.subrange(i + 16, data@.len() as int)));
            assert(out@ + spec_ecb_encrypt(key@, data@.subrange(i + 16, data@.len() as int))
                =~= prior + spec_ecb_encrypt(key@, rest));
        }
        i += 16;
    }
    proof {
        assert(out@ + Seq::<u8>::empty() =~= out@);
    }
    out
}

fn ecb_decrypt(key: &[u8], data: &[u8]) -> (out: Vec<u8>)
    requires
        key@.len() == 16,
        data@.len() % 16 == 0,
    ensures
        out@ == spec_ecb_decrypt(key@, data@),
        out@.len() == data@.len(),
{
    let mut out: Vec<u8> = Vec::new();
    let mut i: usize = 0;
    proof {
        assert(data@.subrange(0, data@.len() as int) =~= data@);
        assert(Seq::<u8>::empty() + spec_ecb_decrypt(key@, data@) =~= spec_ecb_decrypt(
            key@,
            data@,
        ));
    }
    while i < data.len()
        invariant
            i <= data@.len(),
            i % 16 == 0,
            data@.len() % 16 == 0,
            key@.len() == 16,
            out@.len() == i,
            out@ + spec_ecb_decrypt(key@, data@.subrange(i as int, data@.len() as int))
                == spec_ecb_decrypt(key@, data@),
        decreases data@.len() - i,
    {
        let blk = copy_range(data, i, i + 16);
        let dec = aes128_decrypt_block(key, blk.as_slice());
        let ghost rest = data@.subrange(i as int, data@.len() as int);
        let ghost prior = out@;
        append_bytes(&mut out, dec.as_slice());
        proof {
            assert(rest.subrange(0, 16) =~= data@.subrange(i as int, i + 16));
            assert(rest.subrange(16, rest.len() as int) =~= data@.subrange(
                i + 16,
                data@.len() as int,
            ));
            assert(spec_ecb_decrypt(key@, rest) == spec_aes128_decrypt(key@, blk@)
                + spec_ecb_decrypt(key@, data@.subrange(i + 16, data@.len() as int)));
            assert(out@ + spec_ecb_decrypt(key@, data@.subrange(i + 16, data@.len() as int))
                =~= prior + spec_ecb_decrypt(key@, rest));
        }
        i += 16;
    }
    proof {
        assert(out@ + Seq::<u8>::empty() =~= out@);
    }
    out
}

/// The join accept fields a device keeps: nonce material, its assigned
/// address, and the two radio parameters.
pub struct JoinAccept {
    /// Application nonce, 3 bytes.
    pub app_nonce: Vec<u8>,
    /// Network identifier, 3 bytes.
    pub net_id: Vec<u8>,
    /// Assigned device address, 4 bytes, least significant first.
    pub dev_addr: Vec<u8>,
    /// Downlink settings byte.
    pub dl_settings: u8,
    /// Receive window delay byte.
    pub rx_delay: u8,
}

/// The deciphered interior of a join accept frame.
pub open spec fn spec_join_accept_plain(app_key: Seq<u8>, frame: Seq<u8>) -> Seq<u8> {
    spec_ecb_encrypt(app_key, frame.subrange(1, frame.len() as int))
}

/// Whether a frame is a well formed join accept whose integrity code
/// verifies under the application key.
pub open spec fn spec_join_accept_valid(app_key: Seq<u8>, frame: Seq<u8>) -> bool {
    &&& (frame.len() == 17 || frame.len() == 33)
    &&& frame[0] == MHDR_JOIN_ACCEPT
    &&& {
        let plain = spec_join_accept_plain(app_key, frame);
        plain.subrange(plain.len() - 4, plain.len() as int) == spec_mic(
            app_key,
            seq![frame[0]] + plain.subrange(0, plain.len() - 4),
        )
    }
}

/// Decipher and validate a join accept frame; `None` when the frame is
/// not a join accept or its integrity code does not verify.
pub fn parse_join_accept(app_key: &[u8], frame: &[u8]) -> (r: Option<JoinAccept>)
    requires
        app_key@.len() == 16,
    ensures
        r is Some <==> spec_join_accept_valid(app_key@, frame@),
        r matches Some(ja) ==> {
            let plain = spec_join_accept_plain(app_key@, frame@);
            &&& ja.app_nonce@ == plain.subrange(0, 3) && ja.app_nonce@.len() == 3
            &&& ja.net_id@ == plain.subrange(3, 6) && ja.net_id@.len() == 3
            &&& ja.dev_addr@ == plain.subrange(6, 10) && ja.dev_addr@.len() == 4
            &&& ja.dl_settings == plain[10]
            &&& ja.rx_delay == plain[11]
        },
{
    let len = frame.len();
    if !(len == 17 || len == 33) {
        return None;
    }
    if frame[0] != MHDR_JOIN_ACCEPT {
        return None;
    }
    let enc = copy_range(frame, 1, len);
    let plain = ecb_encrypt(app_key, enc.as_slice());
    proof {
        assert(enc@ =~= frame@.subrange(1, frame@.len() as int));
    }
    let plain_len = plain.len();
    let content = copy_range(plain.as_slice(), 0, plain_len - 4);
    let mic = copy_range(plain.as_slice(), plain_len - 4, plain_len);
    let mut signed: Vec<u8> = Vec::new();
    signed.push(frame[0]);
    append_bytes(&mut signed, content.as_slice());
    proof {
        assert(signed@ =~= seq![frame@[0]] + spec_join_accept_plain(app_key@, frame@).subrange(
            0,
            spec_join_accept_plain(app_key@, frame@).len() - 4,
        ));
    }
    let expect = compute_mic(app_key, signed.as_slice());
    if !bytes_eq(mic.as_slice(), expect.as_slice()) {
        return None;
    }
    let app_nonce = copy_range(plain.as_slice(), 0, 3);
    let net_id = copy_range(plain.as_slice(), 3, 6);
    let dev_addr = copy_range(plain.as_slice(), 6, 10);
    let dl_settings = plain[10];
    let rx_delay = plain[11];
    Some(JoinAccept { app_nonce, net_id, dev_addr, dl_settings, rx_delay })
}

/// The join accept frame a network server would send: the interior
/// fields and their integrity code, deciphered so that the device's
/// block encryption recovers them.
pub open spec fn spec_encode_join_accept(
    app_key: Seq<u8>,
    app_nonce: Seq<u8>,
    net_id: Seq<u8>,
    dev_addr: Seq<u8>,
    dl_settings: u8,
    rx_delay: u8,
) -> Seq<u8> {
    let plain = app_nonce + net_id + dev_addr + seq![dl_settings, rx_delay];
    let mic = spec_mic(app_key, seq![MHDR_JOIN_ACCEPT] + plain);
    seq![MHDR_JOIN_ACCEPT] + spec_ecb_decrypt(app_key, plain + mic)
}

/// Build the join accept frame a network server would answer with.
/// Useful to drive the session layer against a simulated network.
pub fn encode_join_accept(
    app_key: &[u8],
    app_nonce: &[u8],
    net_id: &[u8],
    dev_addr: &[u8],
    dl_settings: u8,
    rx_delay: u8,
) -> (out: Vec<u8>)
    requires
        app_key@.len() == 16,
        app_nonce@.len() == 3,
        net_id@.len() == 3,
        dev_addr@.len() == 4,
    ensures
        out@ == spec_encode_join_accept(
            app_key@,
            app_nonce@,
            net_id@,
            dev_addr@,
            dl_settings,
            rx_delay,
        ),
        out@.len() == 17,
{
    let mut plain: Vec<u8> = Vec::new();
    append_bytes(&mut plain, app_nonce);
    append_bytes(&mut plain, net_id);
    append_bytes(&mut plain, dev_addr);
    plain.push(dl_settings);
    plain.push(rx_delay);
    proof {
        assert(plain@ =~= app_nonce@ + net_id@ + dev_addr@ + seq![dl_settings, rx_delay]);
    }
    let mut signed: Vec<u8> = Vec::new();
    signed.push(MHDR_JOIN_ACCEPT);
    append_bytes(&mut signed, plain.as_slice());
    proof {
        assert(signed@ =~= seq![MHDR_JOIN_ACCEPT] + plain@);
    }
    let mic = compute_mic(app_key, signed.as_slice());
    append_bytes(&mut plain, mic.as_slice());
    let enc = ecb_decrypt(app_key, plain.as_slice());
    let mut out: Vec<u8> = Vec::new();
    out.push(MHDR_JOIN_ACCEPT);
    append_bytes(&mut out, enc.as_slice());
    proof {
        assert(out@ =~= seq![MHDR_JOIN_ACCEPT] + enc@);
    }
    out
}

/// The block that prefixes a data frame when its integrity code is
/// computed: a tag, the direction, address, full 32 bit counter and the
/// frame length.
pub open spec fn spec_b0(dir: u8, dev_addr: Seq<u8>, fcnt: u32, msg_len: u8) -> Seq<u8> {
    seq![0x49u8, 0u8, 0u8, 0u8, 0u8, dir] + dev_addr + spec_u32_le(fcnt) + seq![0u8, msg_len]
}

/// The integrity code of a data frame body.
pub open spec fn spec_frame_mic(
    nwk_skey: Seq<u8>,
    dir: u8,
    dev_addr: Seq<u8>,
    fcnt: u32,
    body: Seq<u8>,
) -> Seq<u8> {
    spec_mic(nwk_skey, spec_b0(dir, dev_addr, fcnt, body.len() as u8) + body)
}

fn frame_mic(nwk_skey: &[u8], dir: u8, dev_addr: &[u8], fcnt: u32, body: &[u8]) -> (mic: Vec<u8>)
    requires
        nwk_skey@.len() == 16,
        dev_addr@.len() == 4,
        body@.len() <= 255,
    ensures
        mic@ == spec_frame_mic(nwk_skey@, dir, dev_addr@, fcnt, body@),
        mic@.len() == 4,
{
    let mut msg: Vec<u8> = Vec::new();
    msg.push(0x49);
    msg.push(0);
    msg.push(0);
    msg.push(0);
    msg.push(0);
    msg.push(dir);
    append_bytes(&mut msg, dev_addr);
    crate::crypto::push_u32_le(&mut msg, fcnt);
    msg.push(0);
    msg.push(body.len() as u8);
    append_bytes(&mut msg, body);
    proof {
        assert(msg@ =~= spec_b0(dir, dev_addr@, fcnt, body@.len() as u8) + body@);
    }
    compute_mic(nwk_skey, msg.as_slice())
}

/// The body of a data uplink: MHDR, frame header with the low 16
/// counter bits, port, and the enciphered payload.
pub open spec fn spec_uplink_body(
    nwk_skey: Seq<u8>,
    app_skey: Seq<u8>,
    dev_addr: Seq<u8>,
    fcnt: u32,
    port: u8,
    payload: Seq<u8>,
    confirmed: bool,
) -> Seq<u8> {
    let mhdr = if confirmed {
        MHDR_CONFIRMED_UP
    } else {
        MHDR_UNCONFIRMED_UP
    };
    let key = if port == 0 {
        nwk_skey
    } else {
        app_skey
    };
    seq![mhdr] + dev_addr + seq![0u8] + spec_u16_le((fcnt % 0x10000) as u16) + seq![port]
        + spec_crypt_payload(key, DIR_UPLINK, dev_addr, fcnt, payload)
}

/// A complete data uplink frame: body plus its integrity code under the
/// network session key.
pub open spec fn spec_uplink_frame(
    nwk_skey: Seq<u8>,
    app_skey: Seq<u8>,
    dev_addr: Seq<u8>,
    fcnt: u32,
    port: u8,
    payload: Seq<u8>,
    confirmed: bool,
) -> Seq<u8> {
    let body = spec_uplink_body(nwk_skey, app_skey, dev_addr, fcnt, port, payload, confirmed);
    body + spec_frame_mic(nwk_skey, DIR_UPLINK, dev_addr, fcnt, body)
}

/// Build a data uplink frame: encipher the payload under the session
/// key the port selects, then append the integrity code.
pub fn build_uplink_frame(
    nwk_skey: &[u8],
    app_skey: &[u8],
    dev_addr: &[u8],
    fcnt: u32,
    port: u8,
    payload: &[u8],
    confirmed: bool,
) -> (out: Vec<u8>)
    requires
        nwk_skey@.len() == 16,
        app_skey@.len() == 16,
        dev_addr@.len() == 4,
        payload@.len() <= MAX_PAYLOAD,
    ensures
        out@ == spec_uplink_frame(nwk_skey@, app_skey@, dev_addr@, fcnt, port, payload@, confirmed),
        out@.len() == 13 + payload@.len(),
{
    let mut body: Vec<u8> = Vec::new();
    if confirmed {
        body.push(MHDR_CONFIRMED_UP);
    } else {
        body.push(MHDR_UNCONFIRMED_UP);
    }
    append_bytes(&mut body, dev_addr);
    body.push(0);
    push_u16_le(&mut body, (fcnt % 0x10000) as u16);
    body.push(port);
    let key: &[u8] = if port == 0 {
        nwk_skey
    } else {
        app_skey
    };
    let enc = crypt_payload(key, DIR_UPLINK, dev_addr, fcnt, payload);
    append_bytes(&mut body, enc.as_slice());
    proof {
        assert(body@ =~= spec_uplink_body(
            nwk_skey@,
            app_skey@,
            dev_addr@,
            fcnt,
            port,
            payload@,
            confirmed,
        ));
    }
    let mic = frame_mic(nwk_skey, DIR_UPLINK, dev_addr, fcnt, body.as_slice());
    append_bytes(&mut body, mic.as_slice());
    body
}

/// A validated, deciphered data downlink.
#[derive(Debug, Clone, PartialEq, Eq)]
pub struct Downlink {
    /// The received 16 bit counter value.
    pub fcnt: u32,
    /// Whether the frame acknowledged a confirmed uplink.
    pub ack: bool,
    /// Whether the frame itself asks for an acknowledgement.
    pub confirmed: bool,
    /// The port byte, when the frame carries one.
    pub port: Option<u8>,
    /// The deciphered application payload; empty when absent.
    pub payload: Vec<u8>,
}

/// Length of the options field a downlink's control byte announces.
pub open spec fn spec_downlink_fopts_len(frame: Seq<u8>) -> int {
    (frame[5] % 16) as int
}

/// Whether a frame has the shape of a data downlink for this address:
/// long enough, a downlink MHDR, the right address, and options that
/// fit before the integrity code.
pub open spec fn spec_downlink_well_formed(dev_addr: Seq<u8>, frame: Seq<u8>) -> bool {
    &&& 12 <= frame.len() <= 255
    &&& (frame[0] == MHDR_UNCONFIRMED_DOWN || frame[0] == MHDR_CONFIRMED_DOWN)
    &&& frame.subrange(1, 5) == dev_addr
    &&& 8 + spec_downlink_fopts_len(frame) <= frame.len() - 4
}

/// The counter a downlink carries, as transmitted (16 bits).
pub open spec fn spec_downlink_fcnt(frame: Seq<u8>) -> u32 {
    (frame[6] + 256 * frame[7]) as u32
}

/// Whether the acknowledgement bit of the control byte is set.
pub open spec fn spec_downlink_ack(frame: Seq<u8>) -> bool {
    (frame[5] / 32) % 2 == 1
}

/// Whether a downlink's integrity code verifies under the network
/// session key.
pub open spec fn spec_downlink_mic_ok(nwk_skey: Seq<u8>, frame: Seq<u8>) -> bool {
    frame.subrange(frame.len() - 4, frame.len() as int) == spec_frame_mic(
        nwk_skey,
        DIR_DOWNLINK,
        frame.subrange(1, 5),
        spec_downlink_fcnt(frame),
        frame.subrange(0, frame.len() - 4),
    )
}

/// A downlink is accepted only when it is well formed for the address
/// and its integrity code verifies.
pub open spec fn spec_downlink_valid(nwk_skey: Seq<u8>, dev_addr: Seq<u8>, frame: Seq<u8>) -> bool {
    &&& spec_downlink_well_formed(dev_addr, frame)
    &&& spec_downlink_mic_ok(nwk_skey, frame)
}

/// Whether the frame carries a port byte (and so a payload region).
pub open spec fn spec_downlink_has_port(frame: Seq<u8>) -> bool {
    8 + spec_downlink_fopts_len(frame) < frame.len() - 4
}

/// The port byte of a downlink that has one.
pub open spec fn spec_downlink_port(frame: Seq<u8>) -> u8 {
    frame[8 + spec_downlink_fopts_len(frame)]
}

/// The deciphered application payload of a downlink.
pub open spec fn spec_downlink_payload(
    nwk_skey: Seq<u8>,
    app_skey: Seq<u8>,
    frame: Seq<u8>,
) -> Seq<u8> {
    let key = if spec_downlink_port(frame) == 0 {
        nwk_skey
    } else {
        app_skey
    };
    spec_crypt_payload(
        key,
        DIR_DOWNLINK,
        frame.subrange(1, 5),
        spec_downlink_fcnt(frame),
        frame.subrange(9 + spec_downlink_fopts_len(frame), frame.len() - 4),
    )
}

/// Validate and decipher a data downlink.  `None` when the frame is not
/// a well formed downlink for this address or its integrity code does
/// not verify; the integrity code is checked before any payload byte is
/// deciphered.
pub fn parse_downlink(nwk_skey: &[u8], app_skey: &[u8], dev_addr: &[u8], frame: &[u8]) -> (r:
    Option<Downlink>)
    requires
        nwk_skey@.len() == 16,
        app_skey@.len() == 16,
        dev_addr@.len() == 4,
    ensures
        r is Some <==> spec_downlink_valid(nwk_skey@, dev_addr@, frame@),
        r matches Some(d) ==> {
            &&& d.fcnt == spec_downlink_fcnt(frame@)
            &&& d.ack == spec_downlink_ack(frame@)
            &&& d.confirmed == (frame@[0] == MHDR_CONFIRMED_DOWN)
            &&& spec_downlink_has_port(frame@) ==> d.port == Some(spec_downlink_port(frame@))
                && d.payload@ == spec_downlink_payload(nwk_skey@, app_skey@, frame@)
            &&& !spec_downlink_has_port(frame@) ==> d.port is None && d.payload@.len() == 0
        },
{
    let len = frame.len();
    if len < 12 || len > 255 {
        return None;
    }
    let mhdr = frame[0];
    if mhdr != MHDR_UNCONFIRMED_DOWN && mhdr != MHDR_CONFIRMED_DOWN {
        return None;
    }
    let addr = copy_range(frame, 1, 5);
    if !bytes_eq(addr.as_slice(), dev_addr) {
        return None;
    }
    let fctrl = frame[5];
    let fopts_len = (fctrl % 16) as usize;
    if 8 + fopts_len > len - 4 {
        return None;
    }
    let fcnt: u32 = frame[6] as u32 + 256 * (frame[7] as u32);
    let body = copy_range(frame, 0, len - 4);
    let mic = copy_range(frame, len - 4, len);
    let expect = frame_mic(nwk_skey, DIR_DOWNLINK, dev_addr, fcnt, body.as_slice());
    if !bytes_eq(mic.as_slice(), expect.as_slice()) {
        proof {
            assert(frame@.subrange(1, 5) == dev_addr@);
            assert(!spec_downlink_mic_ok(nwk_skey@, frame@));
        }
        return None;
    }
    proof {
        assert(spec_downlink_mic_ok(nwk_skey@, frame@));
    }
    let ack = (fctrl / 32) % 2 == 1;
    let confirmed = mhdr == MHDR_CONFIRMED_DOWN;
    if 8 + fopts_len < len - 4 {
        let port = frame[8 + fopts_len];
        let enc = copy_range(frame, 9 + fopts_len, len - 4);
        let key: &[u8] = if port == 0 {
            nwk_skey
        } else {
            app_skey
        };
        let payload = crypt_payload(key, DIR_DOWNLINK, dev_addr, fcnt, enc.as_slice());
        Some(Downlink { fcnt, ack, confirmed, port: Some(port), payload })
    } else {
        Some(Downlink { fcnt, ack, confirmed, port: None, payload: Vec::new() })
    }
}

} // verus!
