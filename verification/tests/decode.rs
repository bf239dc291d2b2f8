use aes::{Aes128Dec, Aes128Enc};
use base64::{engine::general_purpose::STANDARD, Engine};
use cipher::{
    block_padding::Pkcs7, generic_array::GenericArray, BlockDecryptMut, BlockEncryptMut, KeyInit,
};
use ncmdump::dump::decode::{decode, decode_with_magic_key, DecodeError, ReadStep};
use ncmdump::dump::decrypt::rc4_ksa;
use ncmdump::ncm::{AudioFormat, DEFAULT_CORE_KEY, DEFAULT_MAGIC, DEFAULT_MODIFY_KEY};

fn ecb_encrypt(key: [u8; 16], data: &[u8]) -> Vec<u8> {
    Aes128Enc::new(&GenericArray::from(key)).encrypt_padded_vec_mut::<Pkcs7>(data)
}

const RC4_KEY: &[u8] = b"1234567890abcdefghijklmnopqrstuvwxyz";

fn keystream_mask(key_box: &[u8; 256], offset: usize, data: &mut [u8]) {
    for (i, b) in data.iter_mut().enumerate() {
        *b ^= ncmdump::dump::decrypt::rc4_stream_byte(key_box, offset + i);
    }
}

/// Builds a container with the given metadata JSON, cover and audio.
fn build_container(meta_json: Option<&[u8]>, cover: &[u8], frame_extra: u32, audio: &[u8]) -> (Vec<u8>, u64) {
    let mut out = Vec::new();
    out.extend_from_slice(&DEFAULT_MAGIC);
    out.extend_from_slice(&[0x01, 0x70]);
    let mut key_plain = b"neteasecloudmusic".to_vec();
    key_plain.extend_from_slice(RC4_KEY);
    let mut key_enc = ecb_encrypt(DEFAULT_CORE_KEY, &key_plain);
    for b in key_enc.iter_mut() {
        *b ^= 0x64;
    }
    out.extend_from_slice(&(key_enc.len() as u32).to_le_bytes());
    out.extend_from_slice(&key_enc);
    match meta_json {
        Some(json) => {
            let mut tagged = b"music:".to_vec();
            tagged.extend_from_slice(json);
            let enc = ecb_encrypt(DEFAULT_MODIFY_KEY, &tagged);
            let mut block = b"163 key(Don't modify):".to_vec();
            block.extend_from_slice(STANDARD.encode(enc).as_bytes());
            out.extend_from_slice(&(block.len() as u32).to_le_bytes());
            out.extend_from_slice(&block);
        }
        None => out.extend_from_slice(&0u32.to_le_bytes()),
    }
    out.extend_from_slice(&[0xAA, 0xBB, 0xCC, 0xDD, 0x01]);
    out.extend_from_slice(&(cover.len() as u32 + frame_extra).to_le_bytes());
    out.extend_from_slice(&(cover.len() as u32).to_le_bytes());
    out.extend_from_slice(cover);
    out.extend(std::iter::repeat(0u8).take(frame_extra as usize));
    let audio_offset = out.len() as u64;
    let key_box = rc4_ksa(RC4_KEY);
    let mut masked = audio.to_vec();
    keystream_mask(&key_box, 0, &mut masked);
    out.extend_from_slice(&masked);
    (out, audio_offset)
}

#[test]
fn test_aes128_ecb_roundtrip() {
    let key: [u8; 16] = *b"0123456789abcdef";
    let key = GenericArray::from(key);
    let plaintext = b"hello world!!!!!";
    let encrypted = {
        let enc_cipher = Aes128Enc::new(&key);
        enc_cipher.encrypt_padded_vec_mut::<Pkcs7>(plaintext)
    };
    let decrypted = Aes128Dec::new(&key)
        .decrypt_padded_vec_mut::<Pkcs7>(encrypted.as_slice())
        .unwrap();
    assert_eq!(&decrypted, plaintext);
}

#[test]
fn decode_full_container() {
    let json = br#"{"musicName":"LOVE 2000","format":"mp3"}"#;
    let cover = [0x89u8, 0x50, 0x4E, 0x47, 0x0D, 0x0A, 0x1A, 0x0A, 1, 2, 3];
    let mut audio = b"ID3".to_vec();
    audio.extend((0..500u32).map(|i| (i % 256) as u8));
    let (data, offset) = build_container(Some(json), &cover, 7, &audio);
    let file = decode(&data).expect("handled").expect("decoded");
    assert_eq!(file.format, AudioFormat::Mp3);
    assert_eq!(file.metadata_json.as_deref(), Some(&json[..]));
    assert_eq!(file.cover_image.as_deref(), Some(&cover[..]));
    assert_eq!(file.key_box, rc4_ksa(RC4_KEY));
    assert_eq!(file.audio_offset, offset);
    assert_eq!(file.magic, DEFAULT_MAGIC);
    let mut payload = data[offset as usize..].to_vec();
    file.decrypt_audio(0, &mut payload);
    assert_eq!(payload, audio);
}

#[test]
fn decode_flac_without_metadata_or_cover() {
    let mut audio = b"fLaC".to_vec();
    audio.extend_from_slice(&[9u8; 40]);
    let (data, offset) = build_container(None, &[], 12, &audio);
    let file = decode(&data).unwrap().unwrap();
    assert_eq!(file.format, AudioFormat::Flac);
    assert!(file.metadata_json.is_none());
    assert!(file.cover_image.is_none());
    assert_eq!(file.audio_offset, offset);
}

#[test]
fn decode_rejects_wrong_magic() {
    let (mut data, _) = build_container(None, &[], 0, b"ID3xxxx");
    data[0] = b'X';
    assert_eq!(decode(&data).unwrap().err(), Some(DecodeError::InvalidMagic));
    let custom = [b'X', b'T', b'E', b'N', b'F', b'D', b'A', b'M'];
    let file = decode_with_magic_key(&data, custom, DEFAULT_CORE_KEY, DEFAULT_MODIFY_KEY)
        .unwrap()
        .unwrap();
    assert_eq!(file.format, AudioFormat::Mp3);
}

#[test]
fn decode_reports_truncation() {
    let (data, offset) = build_container(None, &[1, 2, 3], 0, b"ID3abc");
    assert_eq!(
        decode(&data[..5]).unwrap().err(),
        Some(DecodeError::UnexpectedEof(ReadStep::Magic))
    );
    assert_eq!(
        decode(&data[..12]).unwrap().err(),
        Some(DecodeError::UnexpectedEof(ReadStep::KeyLen))
    );
    assert_eq!(
        decode(&data[..20]).unwrap().err(),
        Some(DecodeError::UnexpectedEof(ReadStep::KeyData))
    );
    assert_eq!(
        decode(&data[..offset as usize + 2]).unwrap().err(),
        Some(DecodeError::UnexpectedEof(ReadStep::AudioHeader))
    );
}

#[test]
fn decode_reports_bad_key_padding() {
    let (mut data, _) = build_container(None, &[], 0, b"ID3abc");
    // Corrupt the last byte of the encrypted key block.
    let key_len = u32::from_le_bytes([data[10], data[11], data[12], data[13]]) as usize;
    data[14 + key_len - 1] ^= 0xFF;
    assert_eq!(decode(&data).unwrap().err(), Some(DecodeError::KeyDecrypt));
}

#[test]
fn decode_refuses_too_short_key() {
    // A key block that decrypts to fewer than 18 bytes cannot be handled.
    let mut data = DEFAULT_MAGIC.to_vec();
    data.extend_from_slice(&[0, 0]);
    let mut key_enc = ecb_encrypt(DEFAULT_CORE_KEY, b"short");
    for b in key_enc.iter_mut() {
        *b ^= 0x64;
    }
    data.extend_from_slice(&(key_enc.len() as u32).to_le_bytes());
    data.extend_from_slice(&key_enc);
    data.extend_from_slice(&[0u8; 40]);
    assert!(decode(&data).is_none());
}

#[test]
fn decode_reports_bad_metadata_base64() {
    let (data, _) = build_container(Some(b"{}"), &[], 0, b"ID3abc");
    let mut data = data;
    // The metadata length sits right after the key block.
    let key_len = u32::from_le_bytes([data[10], data[11], data[12], data[13]]) as usize;
    let meta_at = 14 + key_len + 4;
    data[meta_at + 22] = b'!';
    assert_eq!(decode(&data).unwrap().err(), Some(DecodeError::MetadataBase64));
}
