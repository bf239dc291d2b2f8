//! Data model of an `.ncm` container: audio format, embedded metadata and
//! the decoded file description.
pub mod audio_format;
pub mod metadata;
pub mod ncm_file;

pub use audio_format::AudioFormat;
pub use metadata::Metadata as NcmMetadata;
pub use ncm_file::{NcmFile, DEFAULT_CORE_KEY, DEFAULT_MAGIC, DEFAULT_MODIFY_KEY};
