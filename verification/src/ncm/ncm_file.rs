use vstd::prelude::*;

use super::audio_format::AudioFormat;

verus! {

/// The eight bytes that open every `.ncm` container (`CTENFDAM`).
pub const DEFAULT_MAGIC: [u8; 8] = [0x43, 0x54, 0x45, 0x4E, 0x46, 0x44, 0x41, 0x4D];

/// The AES-128 key that protects the RC4 key of an `.ncm` container.
pub const DEFAULT_CORE_KEY: [u8; 16] = [
    0x68,
    0x7A,
    0x48,
    0x52,
    0x41,
    0x6D,
    0x73,
    0x6F,
    0x35,
    0x6B,
    0x49,
    0x6E,
    0x62,
    0x61,
    0x78,
    0x57,
];

/// The AES-128 key that protects the metadata block of an `.ncm` container.
pub const DEFAULT_MODIFY_KEY: [u8; 16] = [
    0x23,
    0x31,
    0x34,
    0x6C,
    0x6A,
    0x6B,
    0x5F,
    0x21,
    0x5C,
    0x5D,
    0x26,
    0x30,
    0x55,
    0x3C,
    0x27,
    0x28,
];

/// What decoding learns about an `.ncm` container, and the keys it decodes
/// with.
pub struct NcmFile {
    /// Expected magic bytes at the start of the container.
    pub magic: [u8; 8],
    /// AES key of the RC4 key block.
    pub core_key: [u8; 16],
    /// AES key of the metadata block.
    pub modify_key: [u8; 16],
    /// The decrypted metadata JSON (without its `music:` tag), if the
    /// container carries metadata.
    pub metadata_json: Option<Vec<u8>>,
    /// The embedded cover image, if any.
    pub cover_image: Option<Vec<u8>>,
    /// Format of the audio payload.
    pub format: AudioFormat,
    /// RC4 S-box that masks the audio payload.
    pub key_box: [u8; 256],
    /// Position of the first audio byte in the container.
    pub audio_offset: u64,
}

impl Default for NcmFile {
    fn default() -> (file: Self)
        ensures
            file.magic@ == seq![0u8; 8],
            file.core_key@ == seq![0u8; 16],
            file.modify_key@ == seq![0u8; 16],
            file.metadata_json is None,
            file.cover_image is None,
            file.format == AudioFormat::Mp3,
            file.key_box@ == Seq::new(256, |i: int| 0u8),
            file.audio_offset == 0,
    {
        let file = NcmFile {
            magic: [0u8; 8],
            core_key: [0u8; 16],
            modify_key: [0u8; 16],
            metadata_json: None,
            cover_image: None,
            format: AudioFormat::Mp3,
            key_box: [0u8; 256],
            audio_offset: 0,
        };
        assert(file.magic@ =~= seq![0u8; 8]);
        assert(file.core_key@ =~= seq![0u8; 16]);
        assert(file.modify_key@ =~= seq![0u8; 16]);
        assert(file.key_box@ =~= Seq::new(256, |i: int| 0u8));
        file
    }
}

/// The standard magic and keys are the ASCII texts `CTENFDAM` (magic),
/// `hzHRAmso5kInbaxW` (core key) and `#14ljk_!\]&0U<'(` (modify key).
pub proof fn lemma_default_keys_are_ascii_texts()
    ensures
        DEFAULT_MAGIC@.len() == "CTENFDAM"@.len(),
        forall|i: int| 0 <= i < 8 ==> DEFAULT_MAGIC@[i] as int == #[trigger] "CTENFDAM"@[i] as int,
        DEFAULT_CORE_KEY@.len() == "hzHRAmso5kInbaxW"@.len(),
        forall|i: int| 0 <= i < 16 ==> DEFAULT_CORE_KEY@[i] as int == #[trigger] "hzHRAmso5kInbaxW"@[i] as int,
        DEFAULT_MODIFY_KEY@.len() == "#14ljk_!\\]&0U<'("@.len(),
        forall|i: int| 0 <= i < 16 ==> DEFAULT_MODIFY_KEY@[i] as int == #[trigger] "#14ljk_!\\]&0U<'("@[i] as int,
{
    reveal_strlit("CTENFDAM");
    reveal_strlit("hzHRAmso5kInbaxW");
    reveal_strlit("#14ljk_!\\]&0U<'(");
}

impl NcmFile {
    /// Uses `magic` as the expected opening bytes.
    pub fn with_magic(self, magic: [u8; 8]) -> (file: Self)
        ensures
            file == (NcmFile { magic, ..self }),
    {
        NcmFile { magic, ..self }
    }

    /// Uses `core_key` for the RC4 key block.
    pub fn with_core_key(self, core_key: [u8; 16]) -> (file: Self)
        ensures
            file == (NcmFile { core_key, ..self }),
    {
        NcmFile { core_key, ..self }
    }

    /// Uses `modify_key` for the metadata block.
    pub fn with_modify_key(self, modify_key: [u8; 16]) -> (file: Self)
        ensures
            file == (NcmFile { modify_key, ..self }),
    {
        NcmFile { modify_key, ..self }
    }

    /// Uses the standard core and modify keys.
    pub fn with_default_key(self) -> (file: Self)
        ensures
            file == (NcmFile { core_key: DEFAULT_CORE_KEY, modify_key: DEFAULT_MODIFY_KEY, ..self }),
    {
        NcmFile { core_key: DEFAULT_CORE_KEY, modify_key: DEFAULT_MODIFY_KEY, ..self }
    }

    /// Uses the standard magic bytes.
    pub fn with_default_magic(self) -> (file: Self)
        ensures
            file == (NcmFile { magic: DEFAULT_MAGIC, ..self }),
    {
        NcmFile { magic: DEFAULT_MAGIC, ..self }
    }
}

} // verus!
