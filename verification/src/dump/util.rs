//! Naming and selection of the files a conversion reads and writes.
use vstd::prelude::*;

use crate::ncm::audio_format::{format_extension, AudioFormat};
use crate::text::str_eq;

verus! {

/// A file is converted when it has no extension or has the wanted one.
pub fn has_wanted_extension(extension: Option<&str>, wanted: &str) -> (keep: bool)
    ensures
        keep == match extension {
            Some(e) => e@ == wanted@,
            None => true,
        },
{
    match extension {
        Some(e) => str_eq(e, wanted),
        None => true,
    }
}

/// Name of the decoded file: the input's stem, a dot and the extension of
/// the audio format.
pub fn output_file_name(stem: &str, format: AudioFormat) -> (name: String)
    ensures
        name@ == stem@ + "."@ + format_extension(format),
        name@.len() == stem@.len() + 1 + format_extension(format).len(),
        name@.subrange(0, stem@.len() as int) == stem@,
        name@[stem@.len() as int] == '.',
        name@.subrange(stem@.len() + 1int, name@.len() as int) == format_extension(format),
{
    proof {
        reveal_strlit(".");
    }
    let mut name = String::from_str(stem);
    name.append(".");
    name.append(format.extension());
    name
}

} // verus!
