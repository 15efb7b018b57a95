//! LoRaWAN cryptography on top of AES-128.
//!
//! Message integrity codes use AES-CMAC; application payloads are
//! enciphered with the AES counter-mode keystream the specification
//! prescribes; session keys are derived from the application key and
//! the join nonce material.

use vstd::prelude::*;
use crate::aes::{aes128_encrypt_block, spec_aes128_encrypt, spec_xor_bytes, xor_bytes};

verus! {

/// A sequence of `n` zero bytes.
pub open spec fn spec_zeros(n: nat) -> Seq<u8> {
    Seq::new(n, |i: int| 0u8)
}

/// A vector of `n` zero bytes.
pub fn zeros(n: usize) -> (v: Vec<u8>)
    ensures
        v@ == spec_zeros(n as nat),
        v@.len() == n,
{
    let mut v: Vec<u8> = Vec::new();
    let mut i: usize = 0;
    while i < n
        invariant
            i <= n,
            v@.len() == i,
            forall|j: int| 0 <= j < i ==> v@[j] == 0u8,
        decreases n - i,
    {
        v.push(0);
        i += 1;
    }
    proof {
        assert(v@ =~= spec_zeros(n as nat));
    }
    v
}

/// Append `n` zero bytes.
pub fn append_zeros(v: &mut Vec<u8>, n: usize)
    requires
        old(v)@.len() + n <= usize::MAX,
    ensures
        final(v)@ == old(v)@ + spec_zeros(n as nat),
{
    let ghost orig = v@;
    let mut i: usize = 0;
    while i < n
        invariant
            i <= n,
            orig.len() + n <= usize::MAX,
            v@.len() == orig.len() + i,
            v@ == orig + spec_zeros(i as nat),
        decreases n - i,
    {
        v.push(0);
        proof {
            assert(v@ =~= orig + spec_zeros((i + 1) as nat));
        }
        i += 1;
    }
    proof {
        assert(v@ =~= orig + spec_zeros(n as nat));
    }
}

/// Append every byte of a slice.
pub fn append_bytes(v: &mut Vec<u8>, s: &[u8])
    requires
        old(v)@.len() + s@.len() <= usize::MAX,
    ensures
        final(v)@ == old(v)@ + s@,
{
    let ghost orig = v@;
    let mut i: usize = 0;
    while i < s.len()
        invariant
            i <= s@.len(),
            orig.len() + s@.len() <= usize::MAX,
            v@.len() == orig.len() + i,
            v@ == orig + s@.subrange(0, i as int),
        decreases s@.len() - i,
    {
        v.push(s[i]);
        proof {
            assert(v@ =~= orig + s@.subrange(0, (i + 1) as int));
        }
        i += 1;
    }
    proof {
        assert(v@ =~= orig + s@);
    }
}

/// Copy the bytes of `s` from `start` (inclusive) to `end` (exclusive).
pub fn copy_range(s: &[u8], start: usize, end: usize) -> (out: Vec<u8>)
    requires
        start <= end <= s@.len(),
    ensures
        out@ == s@.subrange(start as int, end as int),
        out@.len() == end - start,
{
    let mut out: Vec<u8> = Vec::new();
    let mut i: usize = start;
    while i < end
        invariant
            start <= i <= end <= s@.len(),
            out@.len() == i - start,
            forall|j: int| 0 <= j < i - start ==> out@[j] == s@[start + j],
        decreases end - i,
    {
        out.push(s[i]);
        i += 1;
    }
    proof {
        assert(out@ =~= s@.subrange(start as int, end as int));
    }
    out
}

/// Whether two byte slices hold the same bytes.
pub fn bytes_eq(a: &[u8], b: &[u8]) -> (r: bool)
    ensures
        r == (a@ == b@),
{
    if a.len() != b.len() {
        proof {
            assert(a@.len() != b@.len());
        }
        return false;
    }
    let mut i: usize = 0;
    while i < a.len()
        invariant
            i <= a@.len(),
            a@.len() == b@.len(),
            forall|j: int| 0 <= j < i ==> a@[j] == b@[j],
        decreases a@.len() - i,
    {
        if a[i] != b[i] {
            return false;
        }
        i += 1;
    }
    proof {
        assert(a@ =~= b@);
    }
    true
}

/// One byte of a 16 byte string shifted left by one bit: the high bit
/// of the following byte moves into the low bit.
pub closed spec fn spec_shl1_byte(hi: u8, lo: u8) -> u8 {
    ((2 * (hi % 0x80)) + if lo >= 0x80 { 1int } else { 0int }) as u8
}

/// A 16 byte string shifted left by one bit.
pub closed spec fn spec_shl1(s: Seq<u8>) -> Seq<u8> {
    Seq::new(s.len(), |i: int| spec_shl1_byte(s[i], if i + 1 < s.len() { s[i + 1] } else { 0u8 }))
}

/// One CMAC subkey step: shift left one bit and, if the input's high
/// bit was set, mix the field constant into the last byte.
pub closed spec fn spec_cmac_subkey(l: Seq<u8>) -> Seq<u8> {
    let sh = spec_shl1(l);
    if l[0] >= 0x80 {
        sh.update(15, sh[15] ^ 0x87)
    } else {
        sh
    }
}

fn shl1(s: &[u8]) -> (out: Vec<u8>)
    requires
        s@.len() == 16,
    ensures
        out@ == spec_shl1(s@),
        out@.len() == 16,
{
    let mut out: Vec<u8> = Vec::new();
    let mut i: usize = 0;
    while i < 16
        invariant
            i <= 16,
            s@.len() == 16,
            out@.len() == i,
            forall|j: int|
                0 <= j < i ==> out@[j] == spec_shl1_byte(
                    s@[j],
                    if j + 1 < 16 { s@[j + 1] } else { 0u8 },
                ),
        decreases 16 - i,
    {
        let hi = s[i];
        let lo: u8 = if i + 1 < 16 {
            s[i + 1]
        } else {
            0
        };
        let b: u8 = (2 * (hi % 0x80)) + if lo >= 0x80 {
            1
        } else {
            0
        };
        out.push(b);
        i += 1;
    }
    proof {
        assert(out@ =~= spec_shl1(s@));
    }
    out
}

fn cmac_subkey(l: &[u8]) -> (out: Vec<u8>)
    requires
        l@.len() == 16,
    ensures
        out@ == spec_cmac_subkey(l@),
        out@.len() == 16,
{
    let mut sh = shl1(l);
    if l[0] >= 0x80 {
        let last = sh[15] ^ 0x87;
        sh.set(15, last);
        proof {
            assert(sh@ =~= spec_cmac_subkey(l@));
        }
        sh
    } else {
        sh
    }
}

/// The CMAC chaining state after the first `nblocks` complete 16 byte
/// blocks of the message.
pub closed spec fn spec_cmac_state(key: Seq<u8>, msg: Seq<u8>, nblocks: nat) -> Seq<u8>
    decreases nblocks,
{
    if nblocks == 0 {
        spec_zeros(16)
    } else {
        spec_aes128_encrypt(
            key,
            spec_xor_bytes(
                spec_cmac_state(key, msg, (nblocks - 1) as nat),
                msg.subrange(16 * (nblocks - 1), 16 * nblocks as int),
            ),
        )
    }
}

/// A short final block padded with a one bit and zeros to 16 bytes.
pub closed spec fn spec_cmac_pad(t: Seq<u8>) -> Seq<u8> {
    t + seq![0x80u8] + spec_zeros((15 - t.len()) as nat)
}

/// The full 16 byte AES-CMAC of a message.
pub closed spec fn spec_aes_cmac(key: Seq<u8>, msg: Seq<u8>) -> Seq<u8> {
    let k1 = spec_cmac_subkey(spec_aes128_encrypt(key, spec_zeros(16)));
    let k2 = spec_cmac_subkey(k1);
    if msg.len() > 0 && msg.len() % 16 == 0 {
        let n = (msg.len() / 16) as nat;
        spec_aes128_encrypt(
            key,
            spec_xor_bytes(
                spec_cmac_state(key, msg, (n - 1) as nat),
                spec_xor_bytes(msg.subrange(16 * (n - 1), 16 * n as int), k1),
            ),
        )
    } else {
        let n = (msg.len() / 16) as nat;
        spec_aes128_encrypt(
            key,
            spec_xor_bytes(
                spec_cmac_state(key, msg, n),
                spec_xor_bytes(spec_cmac_pad(msg.subrange(16 * n as int, msg.len() as int)), k2),
            ),
        )
    }
}

/// The AES-CMAC of a message under a 16 byte key.
pub fn aes_cmac(key: &[u8], msg: &[u8]) -> (mac: Vec<u8>)
    requires
        key@.len() == 16,
    ensures
        mac@ == spec_aes_cmac(key@, msg@),
        mac@.len() == 16,
{
    let z = zeros(16);
    let l = aes128_encrypt_block(key, z.as_slice());
    let k1 = cmac_subkey(l.as_slice());
    let k2 = cmac_subkey(k1.as_slice());

    let len = msg.len();
    let complete = len > 0 && len % 16 == 0;
    let nfull: usize = if complete {
        len / 16 - 1
    } else {
        len / 16
    };
    proof {
        vstd::arithmetic::div_mod::lemma_fundamental_div_mod(len as int, 16);
        assert(16 * nfull <= msg@.len());
    }

    let mut x = zeros(16);
    let mut b: usize = 0;
    while b < nfull
        invariant
            b <= nfull,
            key@.len() == 16,
            msg@.len() == len,
            16 * nfull <= msg@.len(),
            x@ == spec_cmac_state(key@, msg@, b as nat),
            x@.len() == 16,
        decreases nfull - b,
    {
        let blk = copy_range(msg, 16 * b, 16 * b + 16);
        let xored = xor_bytes(x.as_slice(), blk.as_slice());
        x = aes128_encrypt_block(key, xored.as_slice());
        b += 1;
    }

    let last: Vec<u8> = if complete {
        let blk = copy_range(msg, 16 * nfull, len);
        xor_bytes(blk.as_slice(), k1.as_slice())
    } else {
        let mut t = copy_range(msg, 16 * nfull, len);
        t.push(0x80);
        append_zeros(&mut t, 15 - (len - 16 * nfull));
        proof {
            assert(t@ =~= spec_cmac_pad(msg@.subrange(16 * (nfull as int), msg@.len() as int)));
        }
        xor_bytes(t.as_slice(), k2.as_slice())
    };
    let xored = xor_bytes(x.as_slice(), last.as_slice());
    let mac = aes128_encrypt_block(key, xored.as_slice());
    proof {
        assert(spec_xor_bytes(x@, spec_xor_bytes(
            if complete {
                msg@.subrange(16 * (nfull as int), msg@.len() as int)
            } else {
                spec_cmac_pad(msg@.subrange(16 * (nfull as int), msg@.len() as int))
            },
            if complete { k1@ } else { k2@ },
        )) =~= xored@);
    }
    mac
}

/// The first four bytes of the AES-CMAC: a LoRaWAN message integrity code.
pub open spec fn spec_mic(key: Seq<u8>, msg: Seq<u8>) -> Seq<u8> {
    spec_aes_cmac(key, msg).subrange(0, 4)
}

/// Compute the 4 byte message integrity code of a frame.
pub fn compute_mic(key: &[u8], msg: &[u8]) -> (mic: Vec<u8>)
    requires
        key@.len() == 16,
    ensures
        mic@ == spec_mic(key@, msg@),
        mic@.len() == 4,
{
    let mac = aes_cmac(key, msg);
    copy_range(mac.as_slice(), 0, 4)
}

/// The two bytes of a 16 bit value, least significant first.
pub open spec fn spec_u16_le(x: u16) -> Seq<u8> {
    seq![(x % 256) as u8, (x / 256) as u8]
}

/// The four bytes of a 32 bit value, least significant first.
pub open spec fn spec_u32_le(x: u32) -> Seq<u8> {
    seq![
        (x % 256) as u8,
        ((x / 256) % 256) as u8,
        ((x / 65536) % 256) as u8,
        ((x / 16777216) % 256) as u8,
    ]
}

/// Append a 16 bit value, least significant byte first.
pub fn push_u16_le(out: &mut Vec<u8>, x: u16)
    ensures
        final(out)@ == old(out)@ + spec_u16_le(x),
{
    out.push((x % 256) as u8);
    out.push((x / 256) as u8);
    proof {
        assert(out@ =~= old(out)@ + spec_u16_le(x));
    }
}

/// Append a 32 bit value, least significant byte first.
pub fn push_u32_le(out: &mut Vec<u8>, x: u32)
    ensures
        final(out)@ == old(out)@ + spec_u32_le(x),
{
    out.push((x % 256) as u8);
    out.push(((x / 256) % 256) as u8);
    out.push(((x / 65536) % 256) as u8);
    out.push(((x / 16777216) % 256) as u8);
    proof {
        assert(out@ =~= old(out)@ + spec_u32_le(x));
    }
}

/// The counter block fed to AES for keystream block `i` (starting at 1)
/// of a payload keyed by direction, device address and frame counter.
pub closed spec fn spec_ctr_block(dir: u8, dev_addr: Seq<u8>, fcnt: u32, i: u8) -> Seq<u8> {
    seq![0x01u8, 0u8, 0u8, 0u8, 0u8, dir] + dev_addr + spec_u32_le(fcnt) + seq![0u8, i]
}

/// The payload enciphered with the counter-mode keystream.  Applying it
/// twice with the same parameters restores the payload.
pub closed spec fn spec_crypt_payload(
    key: Seq<u8>,
    dir: u8,
    dev_addr: Seq<u8>,
    fcnt: u32,
    payload: Seq<u8>,
) -> Seq<u8> {
    Seq::new(
        payload.len(),
        |j: int|
            payload[j] ^ spec_aes128_encrypt(
                key,
                spec_ctr_block(dir, dev_addr, fcnt, (j / 16 + 1) as u8),
            )[j % 16],
    )
}

fn ctr_block(dir: u8, dev_addr: &[u8], fcnt: u32, i: u8) -> (a: Vec<u8>)
    requires
        dev_addr@.len() == 4,
    ensures
        a@ == spec_ctr_block(dir, dev_addr@, fcnt, i),
        a@.len() == 16,
{
    let mut a: Vec<u8> = Vec::new();
    a.push(0x01);
    a.push(0);
    a.push(0);
    a.push(0);
    a.push(0);
    a.push(dir);
    a.push(dev_addr[0]);
    a.push(dev_addr[1]);
    a.push(dev_addr[2]);
    a.push(dev_addr[3]);
    push_u32_le(&mut a, fcnt);
    a.push(0);
    a.push(i);
    proof {
        assert(a@ =~= spec_ctr_block(dir, dev_addr@, fcnt, i));
    }
    a
}

/// Encipher or decipher a payload with the counter-mode keystream.
pub fn crypt_payload(key: &[u8], dir: u8, dev_addr: &[u8], fcnt: u32, payload: &[u8]) -> (out: Vec<
    u8,
>)
    requires
        key@.len() == 16,
        dev_addr@.len() == 4,
        payload@.len() <= 4080,
    ensures
        out@ == spec_crypt_payload(key@, dir, dev_addr@, fcnt, payload@),
        out@.len() == payload@.len(),
{
    let mut out: Vec<u8> = Vec::new();
    let mut j: usize = 0;
    let mut stream: Vec<u8> = Vec::new();
    while j < payload.len()
        invariant
            j <= payload@.len() <= 4080,
            key@.len() == 16,
            dev_addr@.len() == 4,
            out@.len() == j,
            forall|t: int|
                0 <= t < j ==> out@[t] == (payload@[t] ^ spec_aes128_encrypt(
                    key@,
                    spec_ctr_block(dir, dev_addr@, fcnt, (t / 16 + 1) as u8),
                )[t % 16]),
            j % 16 != 0 ==> stream@ == spec_aes128_encrypt(
                key@,
                spec_ctr_block(dir, dev_addr@, fcnt, (j / 16 + 1) as u8),
            ),
            j % 16 != 0 ==> stream@.len() == 16,
        decreases payload@.len() - j,
    {
        if j % 16 == 0 {
            let a = ctr_block(dir, dev_addr, fcnt, (j / 16 + 1) as u8);
            stream = aes128_encrypt_block(key, a.as_slice());
        }
        out.push(payload[j] ^ stream[j % 16]);
        j += 1;
    }
    proof {
        assert(out@ =~= spec_crypt_payload(key@, dir, dev_addr@, fcnt, payload@));
    }
    out
}

/// Applying the counter-mode keystream twice with the same key,
/// direction, address and counter restores the payload: deciphering a
/// downlink is the same operation as enciphering an uplink.
pub proof fn lemma_crypt_payload_involutive(
    key: Seq<u8>,
    dir: u8,
    dev_addr: Seq<u8>,
    fcnt: u32,
    payload: Seq<u8>,
)
    ensures
        spec_crypt_payload(key, dir, dev_addr, fcnt, spec_crypt_payload(key, dir, dev_addr, fcnt, payload))
            == payload,
{
    let once = spec_crypt_payload(key, dir, dev_addr, fcnt, payload);
    let twice = spec_crypt_payload(key, dir, dev_addr, fcnt, once);
    assert(forall|a: u8, b: u8| ((a ^ b) ^ b) == a) by (bit_vector);
    assert(twice =~= payload);
}

/// A session key derived from the application key, a derivation tag,
/// the join nonce material and the device nonce.
pub closed spec fn spec_derive_key(
    app_key: Seq<u8>,
    tag: u8,
    app_nonce: Seq<u8>,
    net_id: Seq<u8>,
    dev_nonce: u16,
) -> Seq<u8> {
    spec_aes128_encrypt(
        app_key,
        seq![tag] + app_nonce + net_id + spec_u16_le(dev_nonce) + spec_zeros(7),
    )
}

/// Derive one session key from the application key and the join nonces.
pub fn derive_key(app_key: &[u8], tag: u8, app_nonce: &[u8], net_id: &[u8], dev_nonce: u16) -> (k:
    Vec<u8>)
    requires
        app_key@.len() == 16,
        app_nonce@.len() == 3,
        net_id@.len() == 3,
    ensures
        k@ == spec_derive_key(app_key@, tag, app_nonce@, net_id@, dev_nonce),
        k@.len() == 16,
{
    let mut block: Vec<u8> = Vec::new();
    block.push(tag);
    block.push(app_nonce[0]);
    block.push(app_nonce[1]);
    block.push(app_nonce[2]);
    block.push(net_id[0]);
    block.push(net_id[1]);
    block.push(net_id[2]);
    push_u16_le(&mut block, dev_nonce);
    let mut i: usize = 0;
    while i < 7
        invariant
            i <= 7,
            block@.len() == 9 + i,
            block@.subrange(0, 9) == seq![tag] + app_nonce@ + net_id@ + spec_u16_le(dev_nonce),
            forall|j: int| 9 <= j < 9 + i ==> block@[j] == 0u8,
        decreases 7 - i,
    {
        block.push(0);
        proof {
            assert(block@.subrange(0, 9) =~= seq![tag] + app_nonce@ + net_id@ + spec_u16_le(
                dev_nonce,
            ));
        }
        i += 1;
    }
    proof {
        assert(block@ =~= seq![tag] + app_nonce@ + net_id@ + spec_u16_le(dev_nonce) + spec_zeros(
            7,
        ));
    }
    aes128_encrypt_block(app_key, block.as_slice())
}

} // verus!
