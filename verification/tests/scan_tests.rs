use tunelib::scan::filter_supported;
use tunelib::scan::has_supported_extension;
use tunelib::tags::Id3Tags;
use tunelib::tags::art_data_uri;

#[test]
fn filter_keeps_exactly_supported_files() {
    let paths = vec![
        "/d/a.mp3".to_string(),
        "/d/b.txt".to_string(),
        "/d/c.flac".to_string(),
    ];
    let kept = filter_supported(&paths);
    assert_eq!(kept, vec!["/d/a.mp3".to_string(), "/d/c.flac".to_string()]);
}

#[test]
fn every_supported_extension_is_accepted() {
    assert!(has_supported_extension("s.mp3"));
    assert!(has_supported_extension("s.wav"));
    assert!(has_supported_extension("s.flac"));
    assert!(has_supported_extension("s.ogg"));
    assert!(has_supported_extension("s.aiff"));
}

#[test]
fn unsupported_or_bare_extensions_are_rejected() {
    assert!(!has_supported_extension("s.txt"));
    assert!(!has_supported_extension("s.mp4"));
    assert!(!has_supported_extension(".mp3"));
    assert!(!has_supported_extension(""));
    assert!(!has_supported_extension("mp3"));
}

#[test]
fn extension_match_is_case_sensitive() {
    assert!(!has_supported_extension("S.MP3"));
    assert!(!has_supported_extension("s.Flac"));
}

#[test]
fn filter_of_empty_input_is_empty() {
    let kept = filter_supported(&Vec::new());
    assert!(kept.is_empty());
}

#[test]
fn art_data_uri_carries_prefix_and_base64() {
    let bytes = b"hello".to_vec();
    assert_eq!(art_data_uri(&bytes), "data:image/jpeg;base64,aGVsbG8=");
}

#[test]
fn art_data_uri_of_no_bytes_is_bare_prefix() {
    assert_eq!(art_data_uri(&Vec::new()), "data:image/jpeg;base64,");
}

#[test]
fn art_data_uri_pads_partial_groups() {
    let bytes = vec![0xffu8, 0xee];
    assert_eq!(art_data_uri(&bytes), "data:image/jpeg;base64,/+4=");
}

#[test]
fn new_tags_are_all_absent() {
    let t = Id3Tags::new();
    assert!(t.title.is_none());
    assert!(t.artist.is_none());
    assert!(t.album.is_none());
    assert!(t.year.is_none());
    assert!(t.album_art.is_none());
    assert!(t.track.is_none());
}

#[test]
fn id3_read_replaces_every_field() {
    let mut t = Id3Tags::new();
    t.album = Some("Old".to_string());
    t.apply_id3_frames(
        Some("T".to_string()),
        Some("A".to_string()),
        None,
        Some("2001".to_string()),
        None,
        Some(7),
    );
    assert_eq!(t.title.as_deref(), Some("T"));
    assert_eq!(t.artist.as_deref(), Some("A"));
    assert!(t.album.is_none());
    assert_eq!(t.year.as_deref(), Some("2001"));
    assert!(t.album_art.is_none());
    assert_eq!(t.track, Some(7));
}

#[test]
fn vorbis_read_keeps_track_number() {
    let mut t = Id3Tags::new();
    t.apply_id3_frames(None, None, None, None, None, Some(3));
    t.apply_vorbis_fields(
        Some("T".to_string()),
        Some("A".to_string()),
        Some("Alb".to_string()),
        Some("1999".to_string()),
        None,
    );
    assert_eq!(t.title.as_deref(), Some("T"));
    assert_eq!(t.track, Some(3));
}
