//! What a decoded container holds, stated against the byte layout of the
//! `.ncm` format: the magic in bytes 0..8, the key length as a
//! little-endian `u32` in bytes 10..14, the key (each byte xored with
//! `0x64`, then AES-decrypted under the core key, its first 17 bytes being
//! the `neteasecloudmusic` tag) from byte 14, and the audio payload, whose
//! first three unmasked bytes are `ID3` for an MP3 file.
use vstd::prelude::*;

use crate::codec::aes128_ecb_decrypt_pkcs7;
use crate::dump::decode::{spec_decode, DecodeError, DecodedNcm, ReadStep};
use crate::dump::decrypt::{keystream_byte, ksa};
use crate::ncm::audio_format::AudioFormat;

verus! {

/// The key length stored in bytes 10..14, least significant byte first.
pub open spec fn stored_key_len(data: Seq<u8>) -> int {
    data[10] as int + data[11] as int * 0x100 + data[12] as int * 0x1_0000 + data[13] as int * 0x100_0000
}

/// The key bytes from byte 14, each xored with `0x64` back to its value.
pub open spec fn stored_key(data: Seq<u8>) -> Seq<u8> {
    Seq::new(stored_key_len(data) as nat, |i: int| data[14 + i] ^ 0x64u8)
}

/// A container is decoded only if it starts with the expected magic: a
/// shorter container ends early at the magic, and one whose first eight
/// bytes differ is refused as such.
pub proof fn lemma_decode_checks_magic(data: Seq<u8>, magic: Seq<u8>, core_key: Seq<u8>, modify_key: Seq<u8>)
    ensures
        data.len() < 8 ==> spec_decode(data, magic, core_key, modify_key) == Some(
            Err::<DecodedNcm, DecodeError>(DecodeError::UnexpectedEof(ReadStep::Magic)),
        ),
        data.len() >= 8 && data.subrange(0, 8) != magic ==> spec_decode(data, magic, core_key, modify_key)
            == Some(Err::<DecodedNcm, DecodeError>(DecodeError::InvalidMagic)),
        spec_decode(data, magic, core_key, modify_key) matches Some(Ok(_)) ==> data.len() >= 8
            && data.subrange(0, 8) == magic,
{
}

/// The key box of a decoded container is the RC4 key schedule of the
/// stored key, unmasked and decrypted under the core key, after its
/// 17-byte tag; the audio payload starts after the stored key and its
/// first three bytes lie inside the container.
pub proof fn lemma_decoded_key_box(data: Seq<u8>, magic: Seq<u8>, core_key: Seq<u8>, modify_key: Seq<u8>)
    ensures
        spec_decode(data, magic, core_key, modify_key) matches Some(Ok(d)) ==> {
            &&& data.len() >= 14 + stored_key_len(data)
            &&& aes128_ecb_decrypt_pkcs7(core_key, stored_key(data)) matches Some(key)
            &&& key.len() >= 18
            &&& d.key_box == ksa(key.subrange(17, key.len() as int))
            &&& 14 + stored_key_len(data) <= d.audio_offset
            &&& d.audio_offset + 3 <= data.len()
        },
{
    if let Some(Ok(d)) = spec_decode(data, magic, core_key, modify_key) {
        let b = data.subrange(10, 14);
        assert(b[0] == data[10] && b[1] == data[11] && b[2] == data[12] && b[3] == data[13]);
        let masked = data.subrange(14, 14 + stored_key_len(data));
        assert(Seq::new(masked.len(), |i: int| masked[i] ^ 0x64u8) =~= stored_key(data));
    }
}

/// A decoded container holds MP3 audio exactly when the first three audio
/// bytes, unmasked with the keystream from position 0, spell `ID3`; any
/// other payload is taken to be FLAC.
pub proof fn lemma_decoded_format(data: Seq<u8>, magic: Seq<u8>, core_key: Seq<u8>, modify_key: Seq<u8>)
    ensures
        spec_decode(data, magic, core_key, modify_key) matches Some(Ok(d)) ==> (d.format
            == AudioFormat::Mp3 <==> ({
            let p = d.audio_offset;
            &&& data[p] ^ keystream_byte(d.key_box, 0) == 0x49u8
            &&& data[p + 1] ^ keystream_byte(d.key_box, 1) == 0x44u8
            &&& data[p + 2] ^ keystream_byte(d.key_box, 2) == 0x33u8
        })),
{
    if let Some(Ok(d)) = spec_decode(data, magic, core_key, modify_key) {
        let p = d.audio_offset;
        let header = data.subrange(p, p + 3);
        let plain = crate::dump::decrypt::xor_keystream(d.key_box, 0, header);
        assert(plain[0] == data[p] ^ keystream_byte(d.key_box, 0));
        assert(plain[1] == data[p + 1] ^ keystream_byte(d.key_box, 1));
        assert(plain[2] == data[p + 2] ^ keystream_byte(d.key_box, 2));
        if plain[0] == 0x49u8 && plain[1] == 0x44u8 && plain[2] == 0x33u8 {
            assert(plain =~= seq![0x49u8, 0x44u8, 0x33u8]);
        }
    }
}

} // verus!
