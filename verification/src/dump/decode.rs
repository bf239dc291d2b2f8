//! Parsing of the `.ncm` container layout:
//!
//! ```text
//! magic[8] | 2 bytes | key_len u32le | key[key_len] | meta_len u32le | meta[meta_len]
//!          | crc u32 + 1 byte | cover_frame_len u32le | image_size u32le
//!          | image[image_size] | cover padding | audio ...
//! ```
use vstd::prelude::*;

use crate::codec::{aes128_ecb_decrypt, aes128_ecb_decrypt_pkcs7, base64_decode, base64_standard_decode};
use crate::dump::decrypt::{ksa, rc4_ksa, xor_keystream};
use crate::ncm::audio_format::AudioFormat;
use crate::ncm::ncm_file::{NcmFile, DEFAULT_CORE_KEY, DEFAULT_MAGIC, DEFAULT_MODIFY_KEY};

verus! {

/// The read that ran past the end of the container.
#[derive(Clone, Copy, Debug, PartialEq, Eq, Structural)]
pub enum ReadStep {
    Magic,
    KeyLen,
    KeyData,
    MetaLen,
    MetaData,
    CoverFrameLen,
    ImageSize,
    Image,
    AudioHeader,
}

/// Why a container could not be decoded.
#[derive(Clone, Copy, Debug, PartialEq, Eq, Structural)]
pub enum DecodeError {
    /// The container does not start with the expected magic bytes.
    InvalidMagic,
    /// The key block did not decrypt to validly padded data.
    KeyDecrypt,
    /// The metadata block is not valid base64.
    MetadataBase64,
    /// The metadata block did not decrypt to validly padded data.
    MetadataDecrypt,
    /// The container ended before the given field.
    UnexpectedEof(ReadStep),
}

/// Little-endian value of four bytes.
pub open spec fn le_u32(b: Seq<u8>) -> u32 {
    (b[0] + b[1] * 256 + b[2] * 65536 + b[3] * 16777216) as u32
}

/// The `n` bytes at `pos`, if the container holds them.
pub open spec fn read_at(data: Seq<u8>, pos: int, n: int) -> Option<Seq<u8>> {
    if 0 <= pos && 0 <= n && pos + n <= data.len() {
        Some(data.subrange(pos, pos + n))
    } else {
        None
    }
}

/// The little-endian `u32` at `pos`, if the container holds it.
pub open spec fn read_u32_at(data: Seq<u8>, pos: int) -> Option<u32> {
    match read_at(data, pos, 4) {
        Some(b) => Some(le_u32(b)),
        None => None,
    }
}

/// Each byte of `s` xored with `0x64`.
pub open spec fn unmask_key(s: Seq<u8>) -> Seq<u8> {
    Seq::new(s.len(), |i: int| s[i] ^ 0x64u8)
}

/// The key block: after the magic and two skipped bytes, a length and the
/// masked, encrypted RC4 key. Gives the decrypted key and the position after
/// the block.
pub open spec fn spec_key_block(data: Seq<u8>, magic: Seq<u8>, core_key: Seq<u8>) -> Result<
    (Seq<u8>, int),
    DecodeError,
> {
    match read_at(data, 0, 8) {
        None => Err(DecodeError::UnexpectedEof(ReadStep::Magic)),
        Some(m) => if m != magic {
            Err(DecodeError::InvalidMagic)
        } else {
            match read_u32_at(data, 10) {
                None => Err(DecodeError::UnexpectedEof(ReadStep::KeyLen)),
                Some(key_len) => match read_at(data, 14, key_len as int) {
                    None => Err(DecodeError::UnexpectedEof(ReadStep::KeyData)),
                    Some(masked) => match aes128_ecb_decrypt_pkcs7(core_key, unmask_key(masked)) {
                        None => Err(DecodeError::KeyDecrypt),
                        Some(key) => Ok((key, 14 + key_len)),
                    },
                },
            }
        },
    }
}

/// The metadata block at `pos`: a length and, when it is not zero, the
/// base64 text (after a 22-byte tag) of the encrypted metadata. Gives the
/// decrypted metadata without its 6-byte `music:` tag, and the position
/// after the block. `None` for a block too short for its tags.
pub open spec fn spec_meta_block(data: Seq<u8>, pos: int, modify_key: Seq<u8>) -> Option<
    Result<(Option<Seq<u8>>, int), DecodeError>,
> {
    match read_u32_at(data, pos) {
        None => Some(Err(DecodeError::UnexpectedEof(ReadStep::MetaLen))),
        Some(meta_len) => if meta_len == 0 {
            Some(Ok((None, pos + 4)))
        } else {
            match read_at(data, pos + 4, meta_len as int) {
                None => Some(Err(DecodeError::UnexpectedEof(ReadStep::MetaData))),
                Some(meta) => if meta.len() < 22 {
                    None
                } else {
                    match base64_standard_decode(meta.subrange(22, meta.len() as int)) {
                        None => Some(Err(DecodeError::MetadataBase64)),
                        Some(encrypted) => match aes128_ecb_decrypt_pkcs7(modify_key, encrypted) {
                            None => Some(Err(DecodeError::MetadataDecrypt)),
                            Some(json) => if json.len() < 6 {
                                None
                            } else {
                                Some(
                                    Ok(
                                        (
                                            Some(json.subrange(6, json.len() as int)),
                                            pos + 4 + meta_len,
                                        ),
                                    ),
                                )
                            },
                        },
                    }
                },
            }
        },
    }
}

/// The cover block at `pos`, after the 5 bytes of checksum and image
/// version: the frame length, the image size and the image, padded to the
/// frame length. Gives the image (if its size is not zero) and the position
/// of the audio payload.
pub open spec fn spec_cover_block(data: Seq<u8>, pos: int) -> Result<(Option<Seq<u8>>, int), DecodeError> {
    match read_u32_at(data, pos + 5) {
        None => Err(DecodeError::UnexpectedEof(ReadStep::CoverFrameLen)),
        Some(frame_len) => match read_u32_at(data, pos + 9) {
            None => Err(DecodeError::UnexpectedEof(ReadStep::ImageSize)),
            Some(image_size) => if image_size > 0 {
                match read_at(data, pos + 13, image_size as int) {
                    None => Err(DecodeError::UnexpectedEof(ReadStep::Image)),
                    Some(image) => {
                        let after = pos + 13 + image_size;
                        let padding = frame_len - image_size;
                        Ok((Some(image), if padding > 0 { after + padding } else { after }))
                    },
                }
            } else {
                Ok((None, pos + 13 + frame_len))
            },
        },
    }
}

/// The audio format named by the first three (unmasked) audio bytes: MP3
/// when they spell `ID3`, FLAC otherwise.
pub open spec fn format_of_header(header: Seq<u8>) -> AudioFormat {
    if header == seq![0x49u8, 0x44u8, 0x33u8] {
        AudioFormat::Mp3
    } else {
        AudioFormat::Flac
    }
}

/// What a successful decode finds in a container.
pub struct DecodedNcm {
    pub metadata_json: Option<Seq<u8>>,
    pub cover_image: Option<Seq<u8>>,
    pub format: AudioFormat,
    pub key_box: Seq<u8>,
    pub audio_offset: int,
}

/// The result of decoding the container `data` with the given magic and
/// keys; `None` where the container is too malformed to be handled (a
/// decrypted key shorter than 18 bytes, or a metadata block too short for
/// its tags).
pub open spec fn spec_decode(data: Seq<u8>, magic: Seq<u8>, core_key: Seq<u8>, modify_key: Seq<u8>) -> Option<
    Result<DecodedNcm, DecodeError>,
> {
    match spec_key_block(data, magic, core_key) {
        Err(e) => Some(Err(e)),
        Ok((key, p1)) => if key.len() < 18 {
            None
        } else {
            let key_box = ksa(key.subrange(17, key.len() as int));
            match spec_meta_block(data, p1, modify_key) {
                None => None,
                Some(Err(e)) => Some(Err(e)),
                Some(Ok((metadata_json, p2))) => match spec_cover_block(data, p2) {
                    Err(e) => Some(Err(e)),
                    Ok((cover_image, p3)) => match read_at(data, p3, 3) {
                        None => Some(Err(DecodeError::UnexpectedEof(ReadStep::AudioHeader))),
                        Some(header) => Some(
                            Ok(
                                DecodedNcm {
                                    metadata_json,
                                    cover_image,
                                    format: format_of_header(xor_keystream(key_box, 0, header)),
                                    key_box,
                                    audio_offset: p3,
                                },
                            ),
                        ),
                    },
                },
            }
        },
    }
}

/// Decoding the container `data` with the given magic and keys is handled
/// (the container is not too malformed to be decoded).
pub open spec fn decode_handled(data: Seq<u8>, magic: Seq<u8>, core_key: Seq<u8>, modify_key: Seq<u8>) -> bool {
    spec_decode(data, magic, core_key, modify_key) is Some
}

/// `file` carries the given magic and keys and the findings of `decoded`.
pub open spec fn describes(file: NcmFile, magic: Seq<u8>, core_key: Seq<u8>, modify_key: Seq<u8>, decoded: DecodedNcm) -> bool {
    &&& file.magic@ == magic
    &&& file.core_key@ == core_key
    &&& file.modify_key@ == modify_key
    &&& match (file.metadata_json, decoded.metadata_json) {
        (Some(a), Some(b)) => a@ == b,
        (None, None) => true,
        _ => false,
    }
    &&& match (file.cover_image, decoded.cover_image) {
        (Some(a), Some(b)) => a@ == b,
        (None, None) => true,
        _ => false,
    }
    &&& file.format == decoded.format
    &&& file.key_box@ == decoded.key_box
    &&& file.audio_offset == decoded.audio_offset
}

/// The decode result `res` is what `spec_decode` gives for `data` and the
/// given magic and keys.
pub open spec fn decode_result_matches(res: Result<NcmFile, DecodeError>, data: Seq<u8>, magic: Seq<u8>, core_key: Seq<u8>, modify_key: Seq<u8>) -> bool {
    match (res, spec_decode(data, magic, core_key, modify_key)) {
        (Ok(file), Some(Ok(decoded))) => describes(file, magic, core_key, modify_key, decoded),
        (Err(e1), Some(Err(e2))) => e1 == e2,
        _ => false,
    }
}

/// `res` is `None` exactly when decoding `data` is not handled, and
/// otherwise holds the decode result.
pub open spec fn decode_outcome_matches(res: Option<Result<NcmFile, DecodeError>>, data: Seq<u8>, magic: Seq<u8>, core_key: Seq<u8>, modify_key: Seq<u8>) -> bool {
    match res {
        None => !decode_handled(data, magic, core_key, modify_key),
        Some(r) => decode_result_matches(r, data, magic, core_key, modify_key),
    }
}

/// Whether `a` and `b` hold the same bytes.
fn bytes_equal(a: &[u8], b: &[u8]) -> (eq: bool)
    ensures
        eq == (a@ == b@),
{
    if a.len() != b.len() {
        return false;
    }
    let mut i: usize = 0;
    while i < a.len()
        invariant
            a@.len() == b@.len(),
            0 <= i <= a@.len(),
            forall|k: int| 0 <= k < i ==> a@[k] == b@[k],
        decreases a@.len() - i,
    {
        if a[i] != b[i] {
            return false;
        }
        i = i + 1;
    }
    assert(a@ =~= b@);
    true
}

/// The little-endian `u32` at `pos`, if `data` holds it.
fn read_u32(data: &[u8], pos: u128) -> (res: Option<u32>)
    requires
        pos <= 0x2_0000_0000_0000_0000,
    ensures
        res == read_u32_at(data@, pos as int),
{
    if pos + 4 <= data.len() as u128 {
        let p = pos as usize;
        let v = data[p] as u32 + data[p + 1] as u32 * 256 + data[p + 2] as u32 * 65536 + data[p
            + 3] as u32 * 16777216;
        proof {
            let b = data@.subrange(p as int, p + 4);
            assert(b[0] == data@[p as int] && b[1] == data@[p + 1] && b[2] == data@[p + 2] && b[3]
                == data@[p + 3]);
        }
        Some(v)
    } else {
        None
    }
}

/// The `n` bytes at `pos`, if `data` holds them.
fn read_bytes(data: &[u8], pos: u128, n: u128) -> (res: Option<Vec<u8>>)
    requires
        pos <= 0x2_0000_0000_0000_0000,
        n <= 0x2_0000_0000_0000_0000,
    ensures
        res is Some <==> read_at(data@, pos as int, n as int) is Some,
        res matches Some(v) ==> v@ == read_at(data@, pos as int, n as int)->0,
{
    if pos + n <= data.len() as u128 {
        let start = pos as usize;
        let end = (pos + n) as usize;
        let part = &data[start..end];
        Some(vstd::slice::slice_to_vec(part))
    } else {
        None
    }
}

/// Each byte of `s` xored with `0x64`.
fn unmask(s: &[u8]) -> (res: Vec<u8>)
    ensures
        res@ == unmask_key(s@),
{
    let mut res: Vec<u8> = Vec::new();
    let mut i: usize = 0;
    while i < s.len()
        invariant
            0 <= i <= s@.len(),
            res@.len() == i,
            forall|k: int| 0 <= k < i ==> res@[k] == s@[k] ^ 0x64u8,
        decreases s@.len() - i,
    {
        res.push(s[i] ^ 0x64u8);
        i = i + 1;
    }
    assert(res@ =~= unmask_key(s@));
    res
}

/// Reads and decrypts the key block.
fn decode_key_block(data: &[u8], magic: &[u8; 8], core_key: &[u8; 16]) -> (res: Result<(Vec<u8>, u128), DecodeError>)
    ensures
        match (res, spec_key_block(data@, magic@, core_key@)) {
            (Ok((key, pos)), Ok((spec_key, spec_pos))) => key@ == spec_key && pos == spec_pos,
            (Err(e), Err(spec_e)) => e == spec_e,
            _ => false,
        },
{
    let m = match read_bytes(data, 0, 8) {
        None => {
            return Err(DecodeError::UnexpectedEof(ReadStep::Magic));
        },
        Some(m) => m,
    };
    if !bytes_equal(m.as_slice(), magic.as_slice()) {
        return Err(DecodeError::InvalidMagic);
    }
    let key_len = match read_u32(data, 10) {
        None => {
            return Err(DecodeError::UnexpectedEof(ReadStep::KeyLen));
        },
        Some(l) => l,
    };
    let masked = match read_bytes(data, 14, key_len as u128) {
        None => {
            return Err(DecodeError::UnexpectedEof(ReadStep::KeyData));
        },
        Some(k) => k,
    };
    let key_data = unmask(masked.as_slice());
    match aes128_ecb_decrypt(core_key, key_data.as_slice()) {
        None => Err(DecodeError::KeyDecrypt),
        Some(key) => Ok((key, 14 + key_len as u128)),
    }
}

/// Reads and decrypts the metadata block at `pos`.
fn decode_meta_block(data: &[u8], pos: u128, modify_key: &[u8; 16]) -> (res: Option<Result<(Option<Vec<u8>>, u128), DecodeError>>)
    requires
        pos <= data@.len() + 0x1_0000_0000,
        data@.len() <= usize::MAX,
    ensures
        match (res, spec_meta_block(data@, pos as int, modify_key@)) {
            (None, None) => true,
            (Some(Ok((json, next))), Some(Ok((spec_json, spec_next)))) => next == spec_next && match (json, spec_json) {
                (Some(a), Some(b)) => a@ == b,
                (None, None) => true,
                _ => false,
            },
            (Some(Err(e)), Some(Err(spec_e))) => e == spec_e,
            _ => false,
        },
        res matches Some(Ok((_, next))) ==> next <= data@.len() + 0x1_0000_0000,
{
    let meta_len = match read_u32(data, pos) {
        None => {
            return Some(Err(DecodeError::UnexpectedEof(ReadStep::MetaLen)));
        },
        Some(l) => l,
    };
    if meta_len == 0 {
        return Some(Ok((None, pos + 4)));
    }
    let meta = match read_bytes(data, pos + 4, meta_len as u128) {
        None => {
            return Some(Err(DecodeError::UnexpectedEof(ReadStep::MetaData)));
        },
        Some(m) => m,
    };
    if meta.len() < 22 {
        return None;
    }
    let text = &meta.as_slice()[22..meta.len()];
    let encrypted = match base64_decode(text) {
        None => {
            return Some(Err(DecodeError::MetadataBase64));
        },
        Some(e) => e,
    };
    let json = match aes128_ecb_decrypt(modify_key, encrypted.as_slice()) {
        None => {
            return Some(Err(DecodeError::MetadataDecrypt));
        },
        Some(j) => j,
    };
    if json.len() < 6 {
        return None;
    }
    let body = vstd::slice::slice_to_vec(&json.as_slice()[6..json.len()]);
    Some(Ok((Some(body), pos + 4 + meta_len as u128)))
}

/// Reads the cover block at `pos`.
fn decode_cover_block(data: &[u8], pos: u128) -> (res: Result<(Option<Vec<u8>>, u128), DecodeError>)
    requires
        pos <= data@.len() + 0x1_0000_0000,
        data@.len() <= usize::MAX,
    ensures
        match (res, spec_cover_block(data@, pos as int)) {
            (Ok((image, next)), Ok((spec_image, spec_next))) => next == spec_next && match (image, spec_image) {
                (Some(a), Some(b)) => a@ == b,
                (None, None) => true,
                _ => false,
            },
            (Err(e), Err(spec_e)) => e == spec_e,
            _ => false,
        },
{
    let frame_len = match read_u32(data, pos + 5) {
        None => {
            return Err(DecodeError::UnexpectedEof(ReadStep::CoverFrameLen));
        },
        Some(l) => l,
    };
    let image_size = match read_u32(data, pos + 9) {
        None => {
            return Err(DecodeError::UnexpectedEof(ReadStep::ImageSize));
        },
        Some(l) => l,
    };
    if image_size > 0 {
        let image = match read_bytes(data, pos + 13, image_size as u128) {
            None => {
                return Err(DecodeError::UnexpectedEof(ReadStep::Image));
            },
            Some(i) => i,
        };
        let after = pos + 13 + image_size as u128;
        if frame_len > image_size {
            Ok((Some(image), after + (frame_len - image_size) as u128))
        } else {
            Ok((Some(image), after))
        }
    } else {
        Ok((None, pos + 13 + frame_len as u128))
    }
}

/// Whether decoding `data` with the magic and keys of `keys` is handled,
/// that is, the container is not too malformed to be decoded.
pub fn decode_is_handled(data: &[u8], keys: &NcmFile) -> (handled: bool)
    ensures
        handled == decode_handled(data@, keys.magic@, keys.core_key@, keys.modify_key@),
{
    proof {
        assert(data.len() == data@.len());
    }
    match decode_key_block(data, &keys.magic, &keys.core_key) {
        Err(_) => true,
        Ok((key, p1)) => {
            if key.len() < 18 {
                false
            } else {
                decode_meta_block(data, p1, &keys.modify_key).is_some()
            }
        },
    }
}

/// Decodes the container `data` with the magic and keys of `ncm_file`:
/// checks the magic, recovers the RC4 key box, the metadata JSON, the cover
/// image, the position of the audio payload and the audio format.
pub fn decode_ncm_file(data: &[u8], ncm_file: NcmFile) -> (res: Result<NcmFile, DecodeError>)
    requires
        decode_handled(data@, ncm_file.magic@, ncm_file.core_key@, ncm_file.modify_key@),
    ensures
        decode_result_matches(res, data@, ncm_file.magic@, ncm_file.core_key@, ncm_file.modify_key@),
{
    proof {
        assert(data.len() == data@.len());
    }
    let (key, p1) = match decode_key_block(data, &ncm_file.magic, &ncm_file.core_key) {
        Err(e) => {
            return Err(e);
        },
        Ok(r) => r,
    };
    let key_box = rc4_ksa(&key.as_slice()[17..key.len()]);
    let (metadata_json, p2) = match decode_meta_block(data, p1, &ncm_file.modify_key) {
        Some(Err(e)) => {
            return Err(e);
        },
        Some(Ok(r)) => r,
        None => vstd::pervasive::unreached(),
    };
    let (cover_image, p3) = match decode_cover_block(data, p2) {
        Err(e) => {
            return Err(e);
        },
        Ok(r) => r,
    };
    let mut header = match read_bytes(data, p3, 3) {
        None => {
            return Err(DecodeError::UnexpectedEof(ReadStep::AudioHeader));
        },
        Some(h) => h,
    };
    crate::dump::decrypt::xor_with_keystream(&key_box, 0, &mut header);
    let format = if header.len() == 3 && header[0] == 0x49 && header[1] == 0x44 && header[2] == 0x33 {
        proof {
            assert(header@ =~= seq![0x49u8, 0x44u8, 0x33u8]);
        }
        AudioFormat::Mp3
    } else {
        AudioFormat::Flac
    };
    Ok(
        NcmFile {
            magic: ncm_file.magic,
            core_key: ncm_file.core_key,
            modify_key: ncm_file.modify_key,
            metadata_json,
            cover_image,
            format,
            key_box,
            audio_offset: p3 as u64,
        },
    )
}

/// Decodes the container `data` with the given magic and keys; `None` when
/// the container is too malformed to be handled.
pub fn decode_with_magic_key(data: &[u8], magic: [u8; 8], core_key: [u8; 16], modify_key: [u8; 16]) -> (res: Option<Result<NcmFile, DecodeError>>)
    ensures
        decode_outcome_matches(res, data@, magic@, core_key@, modify_key@),
{
    let ncm_file = NcmFile::default().with_magic(magic).with_core_key(core_key).with_modify_key(
        modify_key,
    );
    if decode_is_handled(data, &ncm_file) {
        Some(decode_ncm_file(data, ncm_file))
    } else {
        None
    }
}

/// Decodes the container `data` with the standard magic and keys; `None`
/// when the container is too malformed to be handled.
pub fn decode(data: &[u8]) -> (res: Option<Result<NcmFile, DecodeError>>)
    ensures
        decode_outcome_matches(res, data@, DEFAULT_MAGIC@, DEFAULT_CORE_KEY@, DEFAULT_MODIFY_KEY@),
{
    let ncm_file = NcmFile::default().with_default_key().with_default_magic();
    if decode_is_handled(data, &ncm_file) {
        Some(decode_ncm_file(data, ncm_file))
    } else {
        None
    }
}

} // verus!
