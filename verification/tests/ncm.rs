use ncmdump::browser::{restore_action, BrowserType, RestoreAction};
use ncmdump::dump::decrypt::rc4_ksa;
use ncmdump::dump::dump::{cover_mime, AudioDecryptor, CoverMime};
use ncmdump::dump::util::{has_wanted_extension, output_file_name};
use ncmdump::json::{Json, JsonNumber};
use ncmdump::ncm::metadata::{json_body, Metadata, MetadataId, Privilege};
use ncmdump::ncm::{AudioFormat, NcmFile, DEFAULT_CORE_KEY, DEFAULT_MAGIC, DEFAULT_MODIFY_KEY};

fn metadata_with_artists(artist: Vec<Vec<Json>>) -> Metadata {
    Metadata {
        music_id: MetadataId::String("2604307454".to_string()),
        music_name: "LOVE 2000".to_string(),
        artist,
        album_id: MetadataId::default(),
        album: "LOVE 2000".to_string(),
        album_pic_doc_id: MetadataId::U64(0),
        album_pic: String::new(),
        bitrate: 1999000,
        mp3_doc_id: MetadataId::default(),
        duration: 263546,
        mv_id: MetadataId::String(String::new()),
        alias: vec![],
        trans_names: vec![],
        format: AudioFormat::Flac,
        fee: 8,
        privilege: Privilege { flag: 1806596 },
    }
}

#[test]
fn artist_names_single() {
    let meta = metadata_with_artists(vec![vec![
        Json::String("遠野ひかる".to_string()),
        Json::String("33947223".to_string()),
    ]]);
    assert_eq!(meta.artist_names(), "遠野ひかる");
}

#[test]
fn artist_names_joined_and_filtered() {
    let meta = metadata_with_artists(vec![
        vec![Json::String("Linkin Park".to_string()), Json::Number(JsonNumber::PosInt(95439))],
        vec![Json::Number(JsonNumber::PosInt(1))],
        vec![],
        vec![Json::String("Jay-Z".to_string())],
    ]);
    assert_eq!(meta.artist_names(), "Linkin Park / Jay-Z");
    assert_eq!(metadata_with_artists(vec![]).artist_names(), "");
}

#[test]
fn json_body_strips_music_tag() {
    assert_eq!(json_body(b"music:{\"a\":1}"), b"{\"a\":1}");
    assert_eq!(json_body(b"{\"a\":1}"), b"{\"a\":1}");
    assert_eq!(json_body(b"musi"), b"musi");
}

#[test]
fn audio_format_extensions() {
    assert_eq!(AudioFormat::Mp3.extension(), "mp3");
    assert_eq!(AudioFormat::Flac.extension(), "flac");
    assert_eq!(AudioFormat::default(), AudioFormat::Mp3);
}

#[test]
fn ncm_file_builders() {
    let f = NcmFile::default();
    assert_eq!(f.magic, [0u8; 8]);
    assert_eq!(f.audio_offset, 0);
    let f = f.with_default_key().with_default_magic();
    assert_eq!(f.magic, DEFAULT_MAGIC);
    assert_eq!(f.core_key, DEFAULT_CORE_KEY);
    assert_eq!(f.modify_key, DEFAULT_MODIFY_KEY);
    let f = f.with_magic([1; 8]).with_core_key([2; 16]).with_modify_key([3; 16]);
    assert_eq!(f.magic, [1; 8]);
    assert_eq!(f.core_key, [2; 16]);
    assert_eq!(f.modify_key, [3; 16]);
}

#[test]
fn cover_mime_detection() {
    let png = [0x89u8, 0x50, 0x4E, 0x47, 0x0D, 0x0A, 0x1A, 0x0A, 0, 0];
    assert_eq!(cover_mime(&png), CoverMime::Png);
    assert_eq!(cover_mime(&png[..7]), CoverMime::Jpeg);
    assert_eq!(cover_mime(&[0xFF, 0xD8, 0xFF, 0xE0, 0, 0, 0, 0, 0]), CoverMime::Jpeg);
}

#[test]
fn output_names_and_extension_filter() {
    assert_eq!(output_file_name("song", AudioFormat::Flac), "song.flac");
    assert_eq!(output_file_name("a.b", AudioFormat::Mp3), "a.b.mp3");
    assert!(has_wanted_extension(Some("ncm"), "ncm"));
    assert!(!has_wanted_extension(Some("mp3"), "ncm"));
    assert!(has_wanted_extension(None, "ncm"));
}

#[test]
fn browser_locations() {
    assert_eq!(BrowserType::Firefox.install_dir(), "firefox");
    assert_eq!(BrowserType::Zen.back_dir(), "zen_back");
    assert_eq!(BrowserType::Firefox.back_dir(), "firefox_back");
    assert!(BrowserType::Zen.url().ends_with("zen.linux-x86_64.tar.xz"));
    assert!(BrowserType::Firefox.url().starts_with("https://download.mozilla.org/"));
    assert_eq!(BrowserType::default(), BrowserType::Firefox);
}

#[test]
fn restore_decisions() {
    assert_eq!(restore_action(true, true), RestoreAction::ReplaceInstall);
    assert_eq!(restore_action(false, true), RestoreAction::MoveBackIn);
    assert_eq!(restore_action(true, false), RestoreAction::Nothing);
    assert_eq!(restore_action(false, false), RestoreAction::Nothing);
}

fn decrypt_in_pieces(key_box: [u8; 256], data: &[u8], piece: usize) -> Vec<u8> {
    let mut file = NcmFile::default();
    file.key_box = key_box;
    let mut d = file.audio_decryptor();
    assert_eq!(d.offset, 0);
    let mut out = Vec::new();
    for part in data.chunks(piece) {
        let mut chunk = part.to_vec();
        assert!(d.decrypt_next(&mut chunk));
        out.extend_from_slice(&chunk);
    }
    assert_eq!(d.offset, data.len());
    out
}

#[test]
fn audio_decryption_ignores_piece_sizes() {
    let key_box = rc4_ksa(b"audio key");
    let data: Vec<u8> = (0..1000u32).map(|i| (i * 31 + 5) as u8).collect();
    let whole = decrypt_in_pieces(key_box, &data, 1000);
    assert_eq!(decrypt_in_pieces(key_box, &data, 1), whole);
    assert_eq!(decrypt_in_pieces(key_box, &data, 7), whole);
    assert_eq!(decrypt_in_pieces(key_box, &data, 0x8000), whole);
    assert_ne!(whole, data);
}

#[test]
fn audio_decryption_undoes_itself() {
    let key_box = rc4_ksa(b"another key");
    let data: Vec<u8> = (0..777u32).map(|i| (i ^ 0x5a) as u8).collect();
    let masked = decrypt_in_pieces(key_box, &data, 13);
    assert_eq!(decrypt_in_pieces(key_box, &masked, 100), data);
}

#[test]
fn audio_decryptor_refuses_overflowing_piece() {
    let mut d = AudioDecryptor {
        key_box: rc4_ksa(b"k"),
        offset: usize::MAX - 3,
    };
    let mut chunk = vec![1u8, 2, 3];
    assert!(!d.decrypt_next(&mut chunk));
    assert_eq!(chunk, vec![1u8, 2, 3]);
    assert_eq!(d.offset, usize::MAX - 3);
    let mut chunk = vec![1u8, 2];
    assert!(d.decrypt_next(&mut chunk));
    assert_eq!(d.offset, usize::MAX - 1);
}
