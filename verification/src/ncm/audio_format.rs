use vstd::prelude::*;

verus! {

/// Audio payload carried by an `.ncm` container.
#[derive(Clone, Copy, Debug, PartialEq, Eq, Structural)]
pub enum AudioFormat {
    Mp3,
    Flac,
}

/// The file extension, without a dot, of each audio format.
pub open spec fn format_extension(format: AudioFormat) -> Seq<char> {
    match format {
        AudioFormat::Mp3 => seq!['m', 'p', '3'],
        AudioFormat::Flac => seq!['f', 'l', 'a', 'c'],
    }
}

/// MP3 audio is written to `.mp3` files and FLAC audio to `.flac` files,
/// so the two formats never share an extension.
pub proof fn lemma_format_extensions()
    ensures
        format_extension(AudioFormat::Mp3) == "mp3"@,
        format_extension(AudioFormat::Flac) == "flac"@,
        format_extension(AudioFormat::Mp3) != format_extension(AudioFormat::Flac),
{
    reveal_strlit("mp3");
    reveal_strlit("flac");
    assert(format_extension(AudioFormat::Mp3) =~= "mp3"@);
    assert(format_extension(AudioFormat::Flac) =~= "flac"@);
}

impl AudioFormat {
    /// The file extension used for this format (`"mp3"` or `"flac"`).
    pub fn extension(self) -> (ext: &'static str)
        ensures
            ext@ == format_extension(self),
    {
        match self {
            AudioFormat::Mp3 => {
                let e = "mp3";
                proof {
                    reveal_strlit("mp3");
                }
                e
            },
            AudioFormat::Flac => {
                let e = "flac";
                proof {
                    reveal_strlit("flac");
                }
                e
            },
        }
    }
}

impl Default for AudioFormat {
    fn default() -> (format: Self)
        ensures
            format == AudioFormat::Mp3,
    {
        AudioFormat::Mp3
    }
}

} // verus!
