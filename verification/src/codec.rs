//! Trusted calls into the block-cipher and base64 crates.
use vstd::prelude::*;

use aes::{Aes128, Aes128Dec};
use base64::{engine::general_purpose::STANDARD, Engine};
use cipher::{block_padding::Pkcs7, generic_array::GenericArray, BlockDecryptMut, BlockEncryptMut, KeyInit, KeyIvInit};

verus! {

/// AES-128 in ECB mode decrypting `data` under `key`, followed by removal of
/// the PKCS#7 padding; `None` when the input is not a whole number of blocks
/// or its padding is malformed.
pub uninterp spec fn aes128_ecb_decrypt_pkcs7(key: Seq<u8>, data: Seq<u8>) -> Option<Seq<u8>>;

/// AES-128 in CBC mode encrypting `plaintext` under `key` and `iv`, after
/// PKCS#7 padding.
pub uninterp spec fn aes128_cbc_encrypt_pkcs7(key: Seq<u8>, iv: Seq<u8>, plaintext: Seq<u8>) -> Seq<u8>;

/// The character of the standard base64 alphabet for `v < 64`.
pub open spec fn base64_char(v: int) -> char {
    if v < 26 {
        (('A' as int) + v) as char
    } else if v < 52 {
        (('a' as int) + v - 26) as char
    } else if v < 62 {
        (('0' as int) + v - 52) as char
    } else if v == 62 {
        '+'
    } else {
        '/'
    }
}

/// The standard (RFC 4648, padded) base64 encoding of `data`: each group
/// of three bytes gives four characters of six bits each, and a last group
/// of one or two bytes is filled with zero bits and padded with `=`.
pub open spec fn base64_standard_encode(data: Seq<u8>) -> Seq<char>
    decreases data.len(),
{
    if data.len() == 0 {
        Seq::empty()
    } else if data.len() == 1 {
        seq![base64_char(data[0] as int / 4), base64_char((data[0] % 4) * 16), '=', '=']
    } else if data.len() == 2 {
        seq![
            base64_char(data[0] as int / 4),
            base64_char((data[0] % 4) * 16 + data[1] / 16),
            base64_char((data[1] % 16) * 4),
            '=',
        ]
    } else {
        seq![
            base64_char(data[0] as int / 4),
            base64_char((data[0] % 4) * 16 + data[1] / 16),
            base64_char((data[1] % 16) * 4 + data[2] / 64),
            base64_char(data[2] as int % 64),
        ] + base64_standard_encode(data.subrange(3, data.len() as int))
    }
}

/// The standard (RFC 4648, padded) base64 decoding of `text`; `None` when
/// `text` is not valid base64.
pub uninterp spec fn base64_standard_decode(text: Seq<u8>) -> Option<Seq<u8>>;

/// Length of the PKCS#7-padded form of a message of `len` bytes with
/// 16-byte blocks: padding always adds between 1 and 16 bytes.
pub open spec fn pkcs7_padded_len(len: int) -> int {
    (len / 16) * 16 + 16
}

/// Calls `aes::Aes128Dec::new` and `cipher::BlockDecryptMut::decrypt_padded_vec_mut::<Pkcs7>`.
/// Claimed: the result is the named ECB decryption; the crate fails on input
/// that is not a multiple of 16 bytes, and unpadding removes at least one byte.
#[verifier::external_body]
pub(crate) fn aes128_ecb_decrypt(key: &[u8; 16], data: &[u8]) -> (res: Option<Vec<u8>>)
    ensures
        res is Some <==> aes128_ecb_decrypt_pkcs7(key@, data@) is Some,
        res matches Some(p) ==> p@ == aes128_ecb_decrypt_pkcs7(key@, data@)->0,
        data@.len() % 16 != 0 ==> res is None,
        res matches Some(p) ==> p@.len() < data@.len(),
{
    let key = GenericArray::from(*key);
    match Aes128Dec::new(&key).decrypt_padded_vec_mut::<Pkcs7>(data) {
        Ok(plain) => Some(plain),
        Err(_) => None,
    }
}

/// Calls `cbc::Encryptor::<Aes128>::new` and
/// `cipher::BlockEncryptMut::encrypt_padded_mut::<Pkcs7>` on `buf`, whose first
/// `msg_len` bytes are the message. Claimed: it succeeds exactly when `buf`
/// has room for the padded message, and then returns the named CBC
/// encryption of those bytes, which is as long as the padded message.
#[verifier::external_body]
pub(crate) fn aes128_cbc_encrypt_in_buffer(key: &[u8; 16], iv: &[u8; 16], buf: Vec<u8>, msg_len: usize) -> (res: Option<Vec<u8>>)
    ensures
        res is Some <==> (buf@.len() >= msg_len && buf@.len() >= pkcs7_padded_len(msg_len as int)),
        res matches Some(c) ==> c@ == aes128_cbc_encrypt_pkcs7(key@, iv@, buf@.subrange(0, msg_len as int)),
        res matches Some(c) ==> c@.len() == pkcs7_padded_len(msg_len as int),
{
    let mut buf = buf;
    let enc = cbc::Encryptor::<Aes128>::new(key.into(), iv.into());
    match enc.encrypt_padded_mut::<Pkcs7>(&mut buf, msg_len) {
        Ok(ct) => Some(ct.to_vec()),
        Err(_) => None,
    }
}

/// Calls `base64::Engine::encode` on the `STANDARD` engine. Claimed: the
/// result is the padded standard encoding above, four ASCII characters for
/// every started group of three bytes.
#[verifier::external_body]
pub(crate) fn base64_encode(data: &[u8]) -> (res: String)
    ensures
        res@ == base64_standard_encode(data@),
        res@.len() == 4 * ((data@.len() + 2) / 3),
        vstd::utf8::is_ascii_chars(res@),
{
    STANDARD.encode(data)
}

/// Calls `base64::Engine::decode` on the `STANDARD` engine. Claimed: the
/// result is the named decoding (`None` for the crate's `DecodeError`).
#[verifier::external_body]
pub(crate) fn base64_decode(text: &[u8]) -> (res: Option<Vec<u8>>)
    ensures
        res is Some <==> base64_standard_decode(text@) is Some,
        res matches Some(d) ==> d@ == base64_standard_decode(text@)->0,
{
    match STANDARD.decode(text) {
        Ok(d) => Some(d),
        Err(_) => None,
    }
}

} // verus!
