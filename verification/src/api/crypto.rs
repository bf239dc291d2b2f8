//! WEAPI encryption for the Netease Cloud Music API.
//!
//! Flow: JSON → AES-CBC(preset key) → base64 → AES-CBC(random key) → base64 = `params`;
//! the random key, reversed and zero-padded to 128 bytes, raised to the RSA
//! public exponent modulo the RSA modulus, in hex = `encSecKey`.
use vstd::prelude::*;
use vstd::arithmetic::power::pow;
use vstd::string::StringSliceAdditionalSpecFns;
use vstd::utf8::encode_utf8;

use num_bigint::BigUint;
use rand::Rng;

use crate::codec::{
    aes128_cbc_encrypt_in_buffer, aes128_cbc_encrypt_pkcs7, base64_encode, base64_standard_encode,
    pkcs7_padded_len,
};

verus! {

/// The CBC initialisation vector (`"0102030405060708"`).
pub const IV: [u8; 16] = [
    0x30,
    0x31,
    0x30,
    0x32,
    0x30,
    0x33,
    0x30,
    0x34,
    0x30,
    0x35,
    0x30,
    0x36,
    0x30,
    0x37,
    0x30,
    0x38,
];

/// The key of the first AES pass (`"0CoJUm6Qyw8W8jud"`).
pub const PRESET_KEY: [u8; 16] = [
    0x30,
    0x43,
    0x6F,
    0x4A,
    0x55,
    0x6D,
    0x36,
    0x51,
    0x79,
    0x77,
    0x38,
    0x57,
    0x38,
    0x6A,
    0x75,
    0x64,
];

/// The RSA public modulus, big-endian (hex
/// `e0b509f6…db0a22b8e7`, 1024 bits).
pub const RSA_MODULUS: [u8; 128] = [
    0xe0, 0xb5, 0x09, 0xf6, 0x25, 0x9d, 0xf8, 0x64, 0x2d, 0xbc, 0x35, 0x66, 0x29, 0x01, 0x47, 0x7d,
    0xf2, 0x26, 0x77, 0xec, 0x15, 0x2b, 0x5f, 0xf6, 0x8a, 0xce, 0x61, 0x5b, 0xb7, 0xb7, 0x25, 0x15,
    0x2b, 0x3a, 0xb1, 0x7a, 0x87, 0x6a, 0xea, 0x8a, 0x5a, 0xa7, 0x6d, 0x2e, 0x41, 0x76, 0x29, 0xec,
    0x4e, 0xe3, 0x41, 0xf5, 0x61, 0x35, 0xfc, 0xcf, 0x69, 0x52, 0x80, 0x10, 0x4e, 0x03, 0x12, 0xec,
    0xbd, 0xa9, 0x25, 0x57, 0xc9, 0x38, 0x70, 0x11, 0x4a, 0xf6, 0xc9, 0xd0, 0x5c, 0x4f, 0x7f, 0x0c,
    0x36, 0x85, 0xb7, 0xa4, 0x6b, 0xee, 0x25, 0x59, 0x32, 0x57, 0x5c, 0xce, 0x10, 0xb4, 0x24, 0xd8,
    0x13, 0xcf, 0xe4, 0x87, 0x5d, 0x3e, 0x82, 0x04, 0x7b, 0x97, 0xdd, 0xef, 0x52, 0x74, 0x1d, 0x54,
    0x6b, 0x8e, 0x28, 0x9d, 0xc6, 0x93, 0x5b, 0x3e, 0xce, 0x04, 0x62, 0xdb, 0x0a, 0x22, 0xb8, 0xe7,
];

/// The RSA public exponent.
pub const RSA_EXPONENT: u32 = 65537;

/// WEAPI encrypted payload.
pub struct WeapiPayload {
    pub params: String,
    pub enc_sec_key: String,
}

/// Big-endian value of a byte string.
pub open spec fn be_value(b: Seq<u8>) -> nat
    decreases b.len(),
{
    if b.len() == 0 {
        0
    } else {
        be_value(b.drop_last()) * 256 + b.last() as nat
    }
}

/// The lower-case hex digit of `d < 16`.
pub open spec fn hex_digit(d: nat) -> char {
    if d < 10 {
        (('0' as nat) + d) as char
    } else {
        (('a' as nat) + d - 10) as char
    }
}

/// Lower-case hex digits of `n`, without leading zeros (`"0"` for zero).
pub open spec fn lower_hex(n: nat) -> Seq<char>
    decreases n,
{
    if n < 16 {
        seq![hex_digit(n)]
    } else {
        lower_hex(n / 16).push(hex_digit(n % 16))
    }
}

/// `s` with `'0'`s added on the left up to `width` characters.
pub open spec fn pad_left_zeros(s: Seq<char>, width: nat) -> Seq<char> {
    if s.len() >= width {
        s
    } else {
        Seq::new((width - s.len()) as nat, |i: int| '0') + s
    }
}

/// `base` raised to `exponent` modulo `modulus`, as zero-padded lower-case hex.
pub open spec fn modpow_hex(base: nat, exponent: nat, modulus: nat, width: nat) -> Seq<char> {
    pad_left_zeros(lower_hex((pow(base as int, exponent) % (modulus as int)) as nat), width)
}

/// Calls `num_bigint::BigUint::from_bytes_be`, `BigUint::modpow` and its
/// `LowerHex` formatting with zero fill to `width`. Claimed: the result is
/// `base^exponent mod modulus` in lower-case hex, zero-padded on the left to
/// `width` characters; `modpow` panics on a zero modulus, which is excluded.
#[verifier::external_body]
fn biguint_modpow_hex(base_be: &[u8], exponent: u32, modulus_be: &[u8], width: usize) -> (hex: String)
    requires
        be_value(modulus_be@) > 0,
    ensures
        hex@ == modpow_hex(be_value(base_be@), exponent as nat, be_value(modulus_be@), width as nat),
{
    let modulus = BigUint::from_bytes_be(modulus_be);
    let cipher = BigUint::from_bytes_be(base_be).modpow(&BigUint::from(exponent), &modulus);
    format!("{cipher:0>width$x}")
}

/// Calls `rand::rng`. Nothing is claimed of the generator it returns.
#[verifier::external_body]
fn thread_rng() -> (rng: rand::rngs::ThreadRng) {
    rand::rng()
}

/// Calls `rand::Rng::random_range` with `0..bound`. Claimed: the result is
/// below `bound`; the call panics on an empty range, which is excluded.
#[verifier::external_body]
fn random_below(rng: &mut rand::rngs::ThreadRng, bound: usize) -> (r: usize)
    requires
        bound > 0,
    ensures
        r < bound,
{
    rng.random_range(0..bound)
}

#[verifier::external_type_specification]
#[verifier::external_body]
pub struct ExThreadRng(rand::rngs::ThreadRng);

/// The characters a random WEAPI key is drawn from.
pub const KEY_CHARSET: [u8; 62] = [
    0x61, 0x62, 0x63, 0x64, 0x65, 0x66, 0x67, 0x68, 0x69, 0x6a, 0x6b, 0x6c, 0x6d, 0x6e, 0x6f, 0x70,
    0x71, 0x72, 0x73, 0x74, 0x75, 0x76, 0x77, 0x78, 0x79, 0x7a, 0x41, 0x42, 0x43, 0x44, 0x45, 0x46,
    0x47, 0x48, 0x49, 0x4a, 0x4b, 0x4c, 0x4d, 0x4e, 0x4f, 0x50, 0x51, 0x52, 0x53, 0x54, 0x55, 0x56,
    0x57, 0x58, 0x59, 0x5a, 0x30, 0x31, 0x32, 0x33, 0x34, 0x35, 0x36, 0x37, 0x38, 0x39,
];

/// `b` is an ASCII letter or digit.
pub open spec fn is_alphanumeric(b: u8) -> bool {
    (0x30 <= b <= 0x39) || (0x41 <= b <= 0x5a) || (0x61 <= b <= 0x7a)
}

/// A random WEAPI key: `len` alphanumeric bytes followed by zero bytes.
pub open spec fn is_random_key(key: Seq<u8>, len: nat) -> bool {
    &&& key.len() == 16
    &&& forall|i: int| 0 <= i < len ==> is_alphanumeric(#[trigger] key[i])
    &&& forall|i: int| len <= i < 16 ==> #[trigger] key[i] == 0
}

/// Draws a key whose first `len` bytes are random letters and digits.
fn random_key(len: usize) -> (key: [u8; 16])
    requires
        len <= 16,
    ensures
        is_random_key(key@, len as nat),
{
    let mut rng = thread_rng();
    let mut key = [0u8; 16];
    let mut i: usize = 0;
    while i < len
        invariant
            0 <= i <= len <= 16,
            key@.len() == 16,
            forall|k: int| 0 <= k < i ==> is_alphanumeric(#[trigger] key@[k]),
            forall|k: int| i <= k < 16 ==> #[trigger] key@[k] == 0,
        decreases len - i,
    {
        let idx = random_below(&mut rng, 62);
        key[i] = KEY_CHARSET[idx];
        i = i + 1;
    }
    key
}

/// AES-128-CBC encrypts `plaintext` with PKCS#7 padding.
pub fn aes_cbc_encrypt(plaintext: &[u8], key: &[u8; 16], iv: &[u8; 16]) -> (ct: Vec<u8>)
    requires
        plaintext@.len() + 16 <= usize::MAX,
    ensures
        ct@ == aes128_cbc_encrypt_pkcs7(key@, iv@, plaintext@),
        ct@.len() == pkcs7_padded_len(plaintext@.len() as int),
{
    let pad_len = 16 - (plaintext.len() % 16);
    let mut buf = vstd::slice::slice_to_vec(plaintext);
    let mut k: usize = 0;
    while k < pad_len
        invariant
            0 <= k <= pad_len <= 16,
            buf@.len() == plaintext@.len() + k,
            buf@.subrange(0, plaintext@.len() as int) == plaintext@,
        decreases pad_len - k,
    {
        buf.push(0u8);
        k = k + 1;
        assert(buf@.subrange(0, plaintext@.len() as int) =~= plaintext@);
    }
    match aes128_cbc_encrypt_in_buffer(key, iv, buf, plaintext.len()) {
        Some(ct) => ct,
        None => vstd::pervasive::unreached(),
    }
}

/// The message the RSA step encrypts: 112 zero bytes, then `key` reversed.
pub open spec fn rsa_message(key: Seq<u8>) -> Seq<u8> {
    Seq::new(112, |i: int| 0u8) + key.reverse()
}

/// `encSecKey` for the secret `key`: RSA without padding, as 256 hex digits.
pub open spec fn rsa_hex(key: Seq<u8>) -> Seq<char> {
    modpow_hex(be_value(rsa_message(key)), RSA_EXPONENT as nat, be_value(RSA_MODULUS@), 256)
}

proof fn lemma_be_value_bounds(b: Seq<u8>)
    ensures
        be_value(b) < pow(256, b.len()),
        b.len() > 0 && b[0] != 0 ==> be_value(b) > 0,
    decreases b.len(),
{
    reveal(pow);
    vstd::arithmetic::power::lemma_pow_positive(256, b.len());
    if b.len() > 0 {
        let d = b.drop_last();
        lemma_be_value_bounds(d);
        vstd::arithmetic::power::lemma_pow_positive(256, d.len());
        assert(pow(256, b.len()) == 256 * pow(256, d.len()));
        assert(be_value(b) == be_value(d) * 256 + b.last());
        assert(be_value(d) * 256 + b.last() < 256 * pow(256, d.len())) by (nonlinear_arith)
            requires
                be_value(d) < pow(256, d.len()),
                b.last() < 256,
        ;
        if b[0] != 0 {
            if d.len() > 0 {
                assert(d[0] == b[0]);
                assert(be_value(d) * 256 + b.last() > 0) by (nonlinear_arith)
                    requires
                        be_value(d) > 0,
                ;
            } else {
                assert(b.last() == b[0]);
            }
        }
    }
}

proof fn lemma_lower_hex_len(n: nat, k: nat)
    requires
        k >= 1,
        n < pow(16, k),
    ensures
        lower_hex(n).len() <= k,
    decreases k,
{
    reveal(pow);
    if n >= 16 {
        vstd::arithmetic::power::lemma_pow_positive(16, (k - 1) as nat);
        assert(k >= 2) by {
            if k == 1 {
                assert(pow(16, 1) == 16 * pow(16, 0));
            }
        }
        assert(pow(16, k) == 16 * pow(16, (k - 1) as nat));
        assert(n / 16 < pow(16, (k - 1) as nat)) by (nonlinear_arith)
            requires
                n < 16 * pow(16, (k - 1) as nat),
        ;
        lemma_lower_hex_len(n / 16, (k - 1) as nat);
    }
}

proof fn lemma_rsa_hex_len(key: Seq<u8>)
    ensures
        rsa_hex(key).len() == 256,
{
    let m = be_value(RSA_MODULUS@);
    lemma_be_value_bounds(RSA_MODULUS@);
    assert(RSA_MODULUS@[0] != 0);
    let c = (pow(be_value(rsa_message(key)) as int, RSA_EXPONENT as nat) % (m as int)) as nat;
    assert(c < m);
    vstd::arithmetic::power::lemma_pow_multiplies(16, 2, 128);
    assert(pow(16, 2) == 256) by {
        reveal_with_fuel(pow, 3);
    }
    assert(pow(256, 128) == pow(16, 256));
    lemma_lower_hex_len(c, 256);
}

/// Little-endian value of a byte string: the first byte is the least
/// significant.
pub open spec fn le_value(b: Seq<u8>) -> nat
    decreases b.len(),
{
    if b.len() == 0 {
        0
    } else {
        b[0] as nat + 256 * le_value(b.drop_first())
    }
}

proof fn lemma_be_value_leading_zeros(z: Seq<u8>, s: Seq<u8>)
    requires
        forall|i: int| 0 <= i < z.len() ==> z[i] == 0,
    ensures
        be_value(z + s) == be_value(s),
    decreases s.len() + z.len(),
{
    if s.len() == 0 {
        assert(z + s =~= z);
        if z.len() > 0 {
            lemma_be_value_leading_zeros(z.drop_last(), s);
            assert(z.drop_last() + s =~= z.drop_last());
        }
    } else {
        lemma_be_value_leading_zeros(z, s.drop_last());
        assert((z + s).drop_last() =~= z + s.drop_last());
    }
}

proof fn lemma_be_value_reverse(k: Seq<u8>)
    ensures
        be_value(k.reverse()) == le_value(k),
    decreases k.len(),
{
    if k.len() > 0 {
        lemma_be_value_reverse(k.drop_first());
        assert(k.reverse().drop_last() =~= k.drop_first().reverse());
        assert(k.reverse().last() == k[0]);
    }
}

/// `encSecKey` is the RSA encryption, exponent 65537 under the fixed
/// modulus, of the secret key read as a little-endian number (the key
/// reversed, then zero-padded on the left, which leaves its value as it
/// is), written as 256 lower-case hex digits.
pub proof fn lemma_rsa_encrypts_key_little_endian(key: Seq<u8>)
    ensures
        be_value(rsa_message(key)) == le_value(key),
        rsa_hex(key) == modpow_hex(le_value(key), 65537, be_value(RSA_MODULUS@), 256),
{
    lemma_be_value_leading_zeros(Seq::new(112, |i: int| 0u8), key.reverse());
    lemma_be_value_reverse(key);
}

/// RSA-encrypts the reversed, zero-padded `key` without padding scheme and
/// returns the result as 256 lower-case hex digits.
pub fn rsa_encrypt(key: &[u8; 16]) -> (hex: String)
    ensures
        hex@ == rsa_hex(key@),
        hex@.len() == 256,
{
    let mut padded: Vec<u8> = Vec::new();
    let mut i: usize = 0;
    while i < 112
        invariant
            0 <= i <= 112,
            padded@ == Seq::new(i as nat, |k: int| 0u8),
        decreases 112 - i,
    {
        padded.push(0u8);
        i = i + 1;
        assert(padded@ =~= Seq::new(i as nat, |k: int| 0u8));
    }
    let mut j: usize = 16;
    while j > 0
        invariant
            0 <= j <= 16,
            padded@ == Seq::new(112, |k: int| 0u8) + key@.reverse().subrange(0, 16 - j),
        decreases j,
    {
        j = j - 1;
        padded.push(key[j]);
        assert(padded@ =~= Seq::new(112, |k: int| 0u8) + key@.reverse().subrange(0, 16 - j));
    }
    assert(padded@ =~= rsa_message(key@));
    proof {
        lemma_be_value_bounds(RSA_MODULUS@);
        assert(RSA_MODULUS@[0] != 0);
        lemma_rsa_hex_len(key@);
    }
    biguint_modpow_hex(padded.as_slice(), RSA_EXPONENT, RSA_MODULUS.as_slice(), 256)
}

/// `params` for the JSON text `data` and the secret `key`.
pub open spec fn weapi_params(data: Seq<u8>, key: Seq<u8>) -> Seq<char> {
    let first = base64_standard_encode(aes128_cbc_encrypt_pkcs7(PRESET_KEY@, IV@, data));
    base64_standard_encode(aes128_cbc_encrypt_pkcs7(key, IV@, encode_utf8(first)))
}

/// `payload` is the WEAPI encryption of the bytes `data` under the secret `key`.
pub open spec fn is_weapi_encryption(payload: WeapiPayload, data: Seq<u8>, key: Seq<u8>) -> bool {
    &&& payload.params@ == weapi_params(data, key)
    &&& payload.enc_sec_key@ == rsa_hex(key)
}

/// The two AES passes of a WEAPI encryption: the inner pass encrypts the
/// request under the fixed preset key, so the text it gives depends on the
/// request alone; the outer pass encrypts that text (as base64) under the
/// secret key, the very key that `encSecKey` carries (RSA of that key).
/// Undoing the outer pass with the secret key therefore gives back the
/// base64 of the preset-key encryption of the request.
pub proof fn lemma_weapi_pass_keys(payload: WeapiPayload, data: Seq<u8>, key: Seq<u8>)
    requires
        is_weapi_encryption(payload, data, key),
    ensures
        ({
            let inner = aes128_cbc_encrypt_pkcs7(PRESET_KEY@, IV@, data);
            let outer = aes128_cbc_encrypt_pkcs7(key, IV@, encode_utf8(base64_standard_encode(inner)));
            payload.params@ == base64_standard_encode(outer)
        }),
        payload.enc_sec_key@ == rsa_hex(key),
{
}

/// Two WEAPI encryptions of the same request under two secret keys run
/// their outer passes, each under its own secret key, over one and the same
/// text: the key of the inner pass is the same for every request.
pub proof fn lemma_weapi_inner_text_shared(p1: WeapiPayload, k1: Seq<u8>, p2: WeapiPayload, k2: Seq<u8>, data: Seq<u8>)
    requires
        is_weapi_encryption(p1, data, k1),
        is_weapi_encryption(p2, data, k2),
    ensures
        exists|text: Seq<u8>|
            p1.params@ == base64_standard_encode(aes128_cbc_encrypt_pkcs7(k1, IV@, text))
                && p2.params@ == base64_standard_encode(aes128_cbc_encrypt_pkcs7(k2, IV@, text)),
{
    let text = encode_utf8(base64_standard_encode(aes128_cbc_encrypt_pkcs7(PRESET_KEY@, IV@, data)));
    assert(p1.params@ == base64_standard_encode(aes128_cbc_encrypt_pkcs7(k1, IV@, text)));
    assert(p2.params@ == base64_standard_encode(aes128_cbc_encrypt_pkcs7(k2, IV@, text)));
}

/// The intermediate texts of the WEAPI encryption of `n` bytes fit in memory.
pub open spec fn weapi_fits(n: int) -> bool {
    4 * ((pkcs7_padded_len(n) + 2) / 3) + 16 <= usize::MAX
}

/// Encrypts `data` (JSON text) with the WEAPI scheme under a fresh random
/// key of 16 letters and digits.
pub fn weapi_encrypt(data: &str) -> (payload: WeapiPayload)
    requires
        weapi_fits(data.spec_bytes().len() as int),
    ensures
        exists|key: Seq<u8>| is_random_key(key, 16) && is_weapi_encryption(payload, data.spec_bytes(), key),
        payload.params@.len() > 0,
        payload.enc_sec_key@.len() == 256,
{
    let secret_key = random_key(16);
    let first = aes_cbc_encrypt(data.as_bytes(), &PRESET_KEY, &IV);
    let first = base64_encode(first.as_slice());
    let first_text = first.as_str();
    let first_bytes = first_text.as_bytes();
    proof {
        vstd::string::is_ascii_spec_bytes(first_text);
    }
    let params = aes_cbc_encrypt(first_bytes, &secret_key, &IV);
    let params = base64_encode(params.as_slice());
    let enc_sec_key = rsa_encrypt(&secret_key);
    let payload = WeapiPayload { params, enc_sec_key };
    assert(is_weapi_encryption(payload, data.spec_bytes(), secret_key@));
    payload
}

} // verus!
