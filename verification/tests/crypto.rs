use aes::Aes128;
use base64::{engine::general_purpose::STANDARD, Engine};
use cipher::{block_padding::Pkcs7, BlockDecryptMut, KeyIvInit};
use ncmdump::api::crypto::{aes_cbc_encrypt, rsa_encrypt, weapi_encrypt, IV, PRESET_KEY};

#[test]
fn aes_cbc_roundtrip() {
    let plaintext = b"hello netease";
    let key: [u8; 16] = *b"0123456789abcdef";
    let iv: [u8; 16] = *b"0102030405060708";
    let encrypted = aes_cbc_encrypt(plaintext, &key, &iv);
    assert!(!encrypted.is_empty());
    // Ciphertext length is a multiple of 16
    assert_eq!(encrypted.len() % 16, 0);
}

#[test]
fn aes_cbc_decrypts_back() {
    let key: [u8; 16] = *b"0123456789abcdef";
    let iv: [u8; 16] = *b"0102030405060708";
    for len in [0usize, 1, 15, 16, 17, 40] {
        let plaintext: Vec<u8> = (0..len).map(|i| i as u8).collect();
        let encrypted = aes_cbc_encrypt(&plaintext, &key, &iv);
        assert_eq!(encrypted.len(), (len / 16 + 1) * 16);
        let decrypted = cbc::Decryptor::<Aes128>::new(&key.into(), &iv.into())
            .decrypt_padded_vec_mut::<Pkcs7>(&encrypted)
            .unwrap();
        assert_eq!(decrypted, plaintext);
    }
}

#[test]
fn weapi_produces_nonempty_output() {
    let payload = weapi_encrypt(r#"{"s":"test","type":1}"#);
    assert!(!payload.params.is_empty());
    assert!(!payload.enc_sec_key.is_empty());
    // encSecKey should be 256 hex chars (128 bytes)
    assert_eq!(payload.enc_sec_key.len(), 256);
}

#[test]
fn weapi_params_decrypt_to_the_first_pass() {
    let data = r#"{"id":1}"#;
    let payload = weapi_encrypt(data);
    // The first pass is deterministic; the second one uses the random key,
    // so only its shape can be checked here.
    let first = STANDARD.encode(aes_cbc_encrypt(data.as_bytes(), &PRESET_KEY, &IV));
    let outer = STANDARD.decode(payload.params.as_bytes()).unwrap();
    assert_eq!(outer.len(), (first.len() / 16 + 1) * 16);
    assert!(payload.enc_sec_key.chars().all(|c| c.is_ascii_hexdigit() && !c.is_ascii_uppercase()));
}

#[test]
fn rsa_output_length() {
    let key = *b"abcdefghijklmnop";
    let hex = rsa_encrypt(&key);
    assert_eq!(hex.len(), 256);
}

#[test]
fn rsa_is_deterministic_and_key_dependent() {
    let a = rsa_encrypt(b"abcdefghijklmnop");
    assert_eq!(a, rsa_encrypt(b"abcdefghijklmnop"));
    assert_ne!(a, rsa_encrypt(b"abcdefghijklmnoq"));
}

#[test]
fn rsa_known_values() {
    assert_eq!(
        rsa_encrypt(b"abcdefghijklmnop"),
        "d15a1683c992095d0c234c19966605c5c5964911268bbeda8cb8d08d834913e59d53b32358903a121b5fca784c1f5ae44951fd02524df58ecc98e52cc7cf8689b42c2e93ddf05b0592512d87f5960467e2f086c018849d76014d323500e30f13ef4cafbb0cf5a66731a3f1776c75ca35d0062dac70a3e33245afabcf47938487"
    );
    // The key 0x02, 0, ..., 0 reversed is the message 2.
    let mut key = [0u8; 16];
    key[0] = 2;
    assert_eq!(
        rsa_encrypt(&key),
        "8fe25b68f070d39cbb8c00235613460d74ca56998bf5ba79210df001ca1b41fa918d32befffafa2df77ad540fb99c0148e2e62005fef60ec9f578d40e8d2e51b9870c40832b188df19be7749fc0e478d37e9cb4be5a8c5c7edd13416ec768c3a67d1642bdb05e1744a6055e65da3825c4dab909cfddec0b47106e6222ee82ace"
    );
}
