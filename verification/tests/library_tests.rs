use tunelib::library::Library;
use tunelib::tags::Id3Tags;
use tunelib::track::Track;

fn tags(
    title: Option<&str>,
    artist: Option<&str>,
    album: Option<&str>,
    track: Option<u32>,
) -> Id3Tags {
    Id3Tags {
        title: title.map(|s| s.to_string()),
        artist: artist.map(|s| s.to_string()),
        album: album.map(|s| s.to_string()),
        year: None,
        album_art: None,
        track,
    }
}

fn mk(path: &str, title: Option<&str>, artist: Option<&str>, album: Option<&str>, track: Option<u32>) -> Track {
    Track {
        path: path.to_string(),
        file_name: path.rsplit('/').next().unwrap().to_string(),
        duration: 1000,
        id3_tags: tags(title, artist, album, track),
    }
}

#[test]
fn ingest_two_tracks() {
    let mut lib = Library::new();
    let a = mk("/m/a.mp3", Some("X"), Some("A"), None, None);
    let b = mk("/m/b.mp3", Some("Y"), Some("A"), None, None);
    lib.ingest(vec![a, b]);
    assert_eq!(lib.tracks.len(), 2);
}

#[test]
fn rescan_is_idempotent() {
    let mut lib = Library::new();
    let a = mk("/m/a.mp3", Some("X"), Some("A"), None, None);
    let b = mk("/m/b.mp3", Some("Y"), Some("A"), None, None);
    lib.ingest(vec![a.duplicate(), b.duplicate()]);
    assert_eq!(lib.tracks.len(), 2);
    lib.ingest(vec![a, b]);
    assert_eq!(lib.tracks.len(), 2);
}

#[test]
fn duplicate_in_one_batch_kept_once() {
    let mut lib = Library::new();
    let a = mk("/m/a.mp3", Some("X"), Some("A"), None, None);
    lib.ingest(vec![a.duplicate(), a]);
    assert_eq!(lib.tracks.len(), 1);
}

#[test]
fn sort_by_title_after_equal_keys() {
    // A(artist="A", album=None, track=None, title="X") precedes
    // B(artist="A", album=None, track=None, title="Y").
    let mut lib = Library::new();
    let a = mk("/m/a.mp3", Some("X"), Some("A"), None, None);
    let b = mk("/m/b.mp3", Some("Y"), Some("A"), None, None);
    lib.ingest(vec![b, a]);
    assert_eq!(lib.tracks[0].id3_tags.title.as_deref(), Some("X"));
    assert_eq!(lib.tracks[1].id3_tags.title.as_deref(), Some("Y"));
}

#[test]
fn none_artist_precedes_present_artist() {
    let mut lib = Library::new();
    let with_artist = mk("/m/a.mp3", Some("A"), Some("Aaa"), None, None);
    let without_artist = mk("/m/z.mp3", Some("Z"), None, None, None);
    lib.ingest(vec![with_artist, without_artist]);
    assert!(lib.tracks[0].id3_tags.artist.is_none());
    assert!(lib.tracks[1].id3_tags.artist.is_some());
}

#[test]
fn none_album_and_track_number_sort_first() {
    let mut lib = Library::new();
    let with_album = mk("/m/a.mp3", Some("T"), Some("A"), Some("Alb"), Some(1));
    let without_album = mk("/m/b.mp3", Some("T"), Some("A"), None, Some(1));
    let without_number = mk("/m/c.mp3", Some("T"), Some("A"), Some("Alb"), None);
    lib.ingest(vec![with_album.duplicate(), without_album, without_number]);
    assert_eq!(lib.tracks[0].path, "/m/b.mp3");
    assert_eq!(lib.tracks[1].path, "/m/c.mp3");
    assert_eq!(lib.tracks[2].path, "/m/a.mp3");
}

#[test]
fn track_number_orders_within_album() {
    let mut lib = Library::new();
    let one = mk("/m/1.mp3", Some("B"), Some("A"), Some("Alb"), Some(1));
    let two = mk("/m/2.mp3", Some("A"), Some("A"), Some("Alb"), Some(2));
    lib.ingest(vec![two, one]);
    assert_eq!(lib.tracks[0].id3_tags.track, Some(1));
    assert_eq!(lib.tracks[1].id3_tags.track, Some(2));
}

#[test]
fn path_breaks_full_key_ties() {
    let mut lib = Library::new();
    let mut first = mk("/m/a.mp3", Some("T"), Some("A"), Some("Alb"), Some(1));
    let mut second = mk("/m/b.mp3", Some("T"), Some("A"), Some("Alb"), Some(1));
    first.duration = 1;
    second.duration = 2;
    lib.ingest(vec![second, first]);
    assert_eq!(lib.tracks[0].path, "/m/a.mp3");
    assert_eq!(lib.tracks[1].path, "/m/b.mp3");
}

#[test]
fn partial_failure_keeps_valid_tracks() {
    // A corrupt file never decodes into a Track, so the caller hands ingest
    // only the two valid ones; the library holds exactly those two.
    let mut lib = Library::new();
    let good1 = mk("/m/ok1.mp3", Some("X"), Some("A"), None, None);
    let good2 = mk("/m/ok2.flac", Some("Y"), Some("B"), None, None);
    let decoded = vec![good1.duplicate(), good2.duplicate()];
    lib.ingest(decoded);
    assert_eq!(lib.tracks.len(), 2);
    assert!(lib.tracks[0].same_as(&good1));
    assert!(lib.tracks[1].same_as(&good2));
}

#[test]
fn merge_keeps_existing_tracks() {
    let mut lib = Library::new();
    let a = mk("/m/a.mp3", Some("X"), Some("A"), None, None);
    let b = mk("/m/b.mp3", Some("Y"), Some("B"), None, None);
    lib.ingest(vec![a.duplicate()]);
    lib.ingest(vec![b]);
    assert_eq!(lib.tracks.len(), 2);
    assert!(lib.tracks[0].same_as(&a));
}

#[test]
fn same_as_is_structural() {
    let a = mk("/m/a.mp3", Some("X"), Some("A"), Some("Alb"), Some(1));
    assert!(a.same_as(&a.duplicate()));
    let mut other_duration = a.duplicate();
    other_duration.duration = 9;
    assert!(!a.same_as(&other_duration));
    let mut other_year = a.duplicate();
    other_year.id3_tags.year = Some("1999".to_string());
    assert!(!a.same_as(&other_year));
    let mut other_art = a.duplicate();
    other_art.id3_tags.album_art = Some("data:image/jpeg;base64,".to_string());
    assert!(!a.same_as(&other_art));
}
