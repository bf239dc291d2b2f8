//! Recovering the audio payload and tagging it.
use vstd::prelude::*;

use super::decrypt::{xor_keystream, xor_with_keystream};
use crate::ncm::ncm_file::NcmFile;

verus! {

/// The eight bytes that open a PNG image.
pub const PNG_MAGIC: [u8; 8] = [0x89, 0x50, 0x4E, 0x47, 0x0D, 0x0A, 0x1A, 0x0A];

/// Image type of an embedded cover.
#[derive(Clone, Copy, Debug, PartialEq, Eq, Structural)]
pub enum CoverMime {
    Png,
    Jpeg,
}

/// A cover that starts with the PNG signature is a PNG image; any other
/// cover is taken to be a JPEG image.
pub open spec fn cover_mime_of(img: Seq<u8>) -> CoverMime {
    if img.len() >= 8 && img.subrange(0, 8) == PNG_MAGIC@ {
        CoverMime::Png
    } else {
        CoverMime::Jpeg
    }
}

/// A cover is a PNG image exactly when its first eight bytes are the PNG
/// signature `89 50 4E 47 0D 0A 1A 0A`; everything else is taken as JPEG.
pub proof fn lemma_cover_png_signature(img: Seq<u8>)
    ensures
        cover_mime_of(img) == CoverMime::Png <==> (img.len() >= 8 && img[0] == 0x89u8 && img[1] == 0x50u8
            && img[2] == 0x4eu8 && img[3] == 0x47u8 && img[4] == 0x0du8 && img[5] == 0x0au8 && img[6]
            == 0x1au8 && img[7] == 0x0au8),
        cover_mime_of(img) != CoverMime::Png ==> cover_mime_of(img) == CoverMime::Jpeg,
{
    if img.len() >= 8 {
        let head = img.subrange(0, 8);
        if img[0] == 0x89u8 && img[1] == 0x50u8 && img[2] == 0x4eu8 && img[3] == 0x47u8 && img[4] == 0x0du8
            && img[5] == 0x0au8 && img[6] == 0x1au8 && img[7] == 0x0au8 {
            assert(head =~= PNG_MAGIC@);
        }
        if head == PNG_MAGIC@ {
            assert(head[0] == img[0] && head[1] == img[1] && head[2] == img[2] && head[3] == img[3]);
            assert(head[4] == img[4] && head[5] == img[5] && head[6] == img[6] && head[7] == img[7]);
        }
    }
}

/// The image type of the cover `img`.
pub fn cover_mime(img: &[u8]) -> (mime: CoverMime)
    ensures
        mime == cover_mime_of(img@),
{
    if img.len() < 8 {
        return CoverMime::Jpeg;
    }
    let mut i: usize = 0;
    while i < 8
        invariant
            0 <= i <= 8,
            img@.len() >= 8,
            forall|k: int| 0 <= k < i ==> img@[k] == PNG_MAGIC@[k],
        decreases 8 - i,
    {
        if img[i] != PNG_MAGIC[i] {
            assert(img@.subrange(0, 8)[i as int] != PNG_MAGIC@[i as int]);
            return CoverMime::Jpeg;
        }
        i = i + 1;
    }
    assert(img@.subrange(0, 8) =~= PNG_MAGIC@);
    CoverMime::Png
}

impl NcmFile {
    /// Unmasks, in place, a piece `buf` of the audio payload that starts
    /// `offset` bytes into the payload.
    pub fn decrypt_audio(&self, offset: usize, buf: &mut Vec<u8>)
        requires
            offset + old(buf)@.len() < usize::MAX,
        ensures
            final(buf)@ == xor_keystream(self.key_box@, offset as int, old(buf)@),
    {
        xor_with_keystream(&self.key_box, offset, buf);
    }

    /// A decryptor for the audio payload, positioned at its start.
    pub fn audio_decryptor(&self) -> (d: AudioDecryptor)
        ensures
            d.key_box@ == self.key_box@,
            d.offset == 0,
    {
        AudioDecryptor { key_box: self.key_box, offset: 0 }
    }
}

/// Unmasks the audio payload piece by piece, as it is read, keeping the
/// stream position across the pieces.
pub struct AudioDecryptor {
    /// The key-scheduled S-box of the file.
    pub key_box: [u8; 256],
    /// How many payload bytes the pieces so far held.
    pub offset: usize,
}

impl AudioDecryptor {
    /// Unmasks, in place, the next piece `buf` of the payload and moves past
    /// it. Refuses (`false`, nothing changed) a piece that would take the
    /// stream position to `usize::MAX`.
    pub fn decrypt_next(&mut self, buf: &mut Vec<u8>) -> (ok: bool)
        ensures
            ok <==> old(self).offset + old(buf)@.len() < usize::MAX,
            final(self).key_box@ == old(self).key_box@,
            ok ==> final(buf)@ == xor_keystream(old(self).key_box@, old(self).offset as int, old(buf)@),
            ok ==> final(self).offset == old(self).offset + old(buf)@.len(),
            !ok ==> final(buf)@ == old(buf)@ && final(self).offset == old(self).offset,
    {
        let n = buf.len();
        if n >= usize::MAX - self.offset {
            return false;
        }
        xor_with_keystream(&self.key_box, self.offset, buf);
        self.offset = self.offset + n;
        true
    }
}

} // verus!
