use vstd::prelude::*;

use super::audio_format::AudioFormat;
use crate::json::{as_string, json_str, Json};

verus! {

/// An identifier that the metadata gives either as a string or as a number.
pub enum MetadataId {
    String(String),
    U64(u64),
}

impl Default for MetadataId {
    fn default() -> (id: Self)
        ensures
            id matches MetadataId::U64(n) && n == 0,
    {
        MetadataId::U64(0)
    }
}

/// Playback privilege flags of a track.
pub struct Privilege {
    pub flag: u32,
}

impl Default for Privilege {
    fn default() -> (p: Self)
        ensures
            p.flag == 0,
    {
        Privilege { flag: 0 }
    }
}

/// The metadata an `.ncm` container embeds about its track. Each artist is
/// a JSON list whose first element is the artist's name (followed by the
/// artist's id).
pub struct Metadata {
    pub music_id: MetadataId,
    pub music_name: String,
    pub artist: Vec<Vec<Json>>,
    pub album_id: MetadataId,
    pub album: String,
    pub album_pic_doc_id: MetadataId,
    pub album_pic: String,
    pub bitrate: u32,
    pub mp3_doc_id: MetadataId,
    pub duration: u32,
    pub mv_id: MetadataId,
    pub alias: Vec<String>,
    pub trans_names: Vec<String>,
    pub format: AudioFormat,
    pub fee: u8,
    pub privilege: Privilege,
}

/// The name of an artist entry: its first element, when that is a string.
pub open spec fn entry_name(entry: Seq<Json>) -> Option<Seq<char>> {
    if entry.len() > 0 {
        json_str(Some(entry[0]))
    } else {
        None
    }
}

/// The names of the artist entries that have one, in order.
pub open spec fn artist_name_list(entries: Seq<Vec<Json>>) -> Seq<Seq<char>>
    decreases entries.len(),
{
    if entries.len() == 0 {
        Seq::empty()
    } else {
        let rest = artist_name_list(entries.drop_last());
        match entry_name(entries.last()@) {
            Some(n) => rest.push(n),
            None => rest,
        }
    }
}

/// `parts` joined with `sep` between consecutive parts.
pub open spec fn join_with(parts: Seq<Seq<char>>, sep: Seq<char>) -> Seq<char>
    decreases parts.len(),
{
    if parts.len() == 0 {
        Seq::empty()
    } else if parts.len() == 1 {
        parts[0]
    } else {
        join_with(parts.drop_last(), sep) + sep + parts.last()
    }
}

/// When every artist entry starts with its name, the name list holds one
/// name per entry, in the order of the entries.
pub proof fn lemma_artist_names_in_order(entries: Seq<Vec<Json>>)
    requires
        forall|i: int| 0 <= i < entries.len() ==> (#[trigger] entries[i])@.len() > 0 && json_str(Some(entries[i]@[0])) is Some,
    ensures
        artist_name_list(entries).len() == entries.len(),
        forall|i: int| 0 <= i < entries.len() ==> Some(#[trigger] artist_name_list(entries)[i]) == json_str(Some(entries[i]@[0])),
    decreases entries.len(),
{
    if entries.len() > 0 {
        let init = entries.drop_last();
        assert forall|i: int| 0 <= i < init.len() implies (#[trigger] init[i])@.len() > 0 && json_str(Some(init[i]@[0])) is Some by {
            assert(init[i] == entries[i]);
        }
        lemma_artist_names_in_order(init);
        assert(entries.last() == entries[entries.len() - 1]);
        assert forall|i: int| 0 <= i < entries.len() implies Some(#[trigger] artist_name_list(entries)[i]) == json_str(Some(entries[i]@[0])) by {
            if i < entries.len() - 1 {
                assert(init[i] == entries[i]);
            }
        }
    }
}

/// Joining puts the separator between neighbouring parts only: one part is
/// itself, two parts are the first, the separator and the second.
pub proof fn lemma_join_with_separates(a: Seq<char>, b: Seq<char>, sep: Seq<char>)
    ensures
        join_with(seq![a], sep) == a,
        join_with(seq![a, b], sep) == a + sep + b,
        join_with(Seq::<Seq<char>>::empty(), sep) == Seq::<char>::empty(),
{
    assert(seq![a, b].drop_last() =~= seq![a]);
    assert(join_with(seq![a], sep) == a);
    assert(seq![a, b].last() == b);
    assert(join_with(seq![a, b], sep) == join_with(seq![a, b].drop_last(), sep) + sep + seq![a, b].last());
}

/// The prefix that tags the metadata JSON inside a container (`music:`).
pub open spec fn music_tag() -> Seq<u8> {
    seq![0x6du8, 0x75u8, 0x73u8, 0x69u8, 0x63u8, 0x3au8]
}

/// The JSON text of a metadata block: the block without its leading
/// `music:` tag, if it has one.
pub open spec fn json_text(block: Seq<u8>) -> Seq<u8> {
    if block.len() >= 6 && block.subrange(0, 6) == music_tag() {
        block.subrange(6, block.len() as int)
    } else {
        block
    }
}

/// A metadata block that starts with the six bytes `music:` gives the JSON
/// text that follows them; any other block is the JSON text itself.
pub proof fn lemma_json_text_strips_music_tag(block: Seq<u8>)
    ensures
        (block.len() >= 6 && block[0] == 0x6du8 && block[1] == 0x75u8 && block[2] == 0x73u8 && block[3]
            == 0x69u8 && block[4] == 0x63u8 && block[5] == 0x3au8) ==> json_text(block) == block.subrange(
            6,
            block.len() as int,
        ),
        !(block.len() >= 6 && block[0] == 0x6du8 && block[1] == 0x75u8 && block[2] == 0x73u8 && block[3]
            == 0x69u8 && block[4] == 0x63u8 && block[5] == 0x3au8) ==> json_text(block) == block,
{
    if block.len() >= 6 {
        let head = block.subrange(0, 6);
        if block[0] == 0x6du8 && block[1] == 0x75u8 && block[2] == 0x73u8 && block[3] == 0x69u8 && block[4]
            == 0x63u8 && block[5] == 0x3au8 {
            assert(head =~= music_tag());
        }
        if head == music_tag() {
            assert(head[0] == block[0] && head[1] == block[1] && head[2] == block[2]);
            assert(head[3] == block[3] && head[4] == block[4] && head[5] == block[5]);
        }
    }
}

/// The JSON text of the metadata block `metadata`, without its `music:` tag.
pub fn json_body(metadata: &[u8]) -> (body: &[u8])
    ensures
        body@ == json_text(metadata@),
{
    if metadata.len() >= 6 && metadata[0] == 0x6d && metadata[1] == 0x75 && metadata[2] == 0x73
        && metadata[3] == 0x69 && metadata[4] == 0x63 && metadata[5] == 0x3a {
        assert(metadata@.subrange(0, 6) =~= music_tag());
        &metadata[6..metadata.len()]
    } else {
        proof {
            if metadata@.len() >= 6 && metadata@.subrange(0, 6) == music_tag() {
                assert(metadata@.subrange(0, 6)[0] == metadata@[0]);
                assert(metadata@.subrange(0, 6)[1] == metadata@[1]);
                assert(metadata@.subrange(0, 6)[2] == metadata@[2]);
                assert(metadata@.subrange(0, 6)[3] == metadata@[3]);
                assert(metadata@.subrange(0, 6)[4] == metadata@[4]);
                assert(metadata@.subrange(0, 6)[5] == metadata@[5]);
            }
        }
        metadata
    }
}

impl Metadata {
    /// The names of the artists, joined with `" / "`.
    pub fn artist_names(&self) -> (names: String)
        ensures
            names@ == join_with(artist_name_list(self.artist@), " / "@),
    {
        let mut names = String::new();
        let mut count: usize = 0;
        let mut i: usize = 0;
        while i < self.artist.len()
            invariant
                0 <= i <= self.artist@.len(),
                count == artist_name_list(self.artist@.subrange(0, i as int)).len(),
                names@ == join_with(artist_name_list(self.artist@.subrange(0, i as int)), " / "@),
            decreases self.artist@.len() - i,
        {
            let entry = &self.artist[i];
            let ghost before = self.artist@.subrange(0, i as int);
            let ghost after = self.artist@.subrange(0, i + 1);
            assert(after.drop_last() =~= before);
            assert(after.last() == self.artist@[i as int]);
            if entry.len() > 0 {
                match as_string(Some(&entry[0])) {
                    Some(name) => {
                        let ghost rest = artist_name_list(before);
                        assert(artist_name_list(after) == rest.push(name@));
                        assert(rest.push(name@).drop_last() =~= rest);
                        if count > 0 {
                            names.append(" / ");
                        }
                        names.append(name.as_str());
                        assert(names@ =~= join_with(rest.push(name@), " / "@));
                        assert(count < usize::MAX) by {
                            lemma_name_list_len(after);
                        }
                        count = count + 1;
                    },
                    None => {},
                }
            }
            i = i + 1;
        }
        assert(self.artist@.subrange(0, self.artist@.len() as int) =~= self.artist@);
        names
    }
}

proof fn lemma_name_list_len(entries: Seq<Vec<Json>>)
    ensures
        artist_name_list(entries).len() <= entries.len(),
    decreases entries.len(),
{
    if entries.len() > 0 {
        lemma_name_list_len(entries.drop_last());
    }
}

} // verus!
