//! Tag metadata for a track: optional title, artist, album, year, track
//! number, and album art held inline as a data URI.

use vstd::prelude::*;
use vstd::string::StringExecFns;

verus! {

/// The extracted tag fields of one audio file. Every field is independently
/// optional; a track with no readable tag container keeps all fields `None`,
/// which is a valid terminal state, not an error.
pub struct Id3Tags {
    pub title: Option<String>,
    pub artist: Option<String>,
    pub album: Option<String>,
    pub year: Option<String>,
    pub album_art: Option<String>,
    pub track: Option<u32>,
}

/// Mathematical model of `Id3Tags`: each text field as an optional
/// character sequence.
#[verifier::ext_equal]
pub struct TagsView {
    pub title: Option<Seq<char>>,
    pub artist: Option<Seq<char>>,
    pub album: Option<Seq<char>>,
    pub year: Option<Seq<char>>,
    pub album_art: Option<Seq<char>>,
    pub track: Option<u32>,
}

/// The view of an optional string: `None` stays `None`.
pub open spec fn opt_view(o: Option<String>) -> Option<Seq<char>> {
    match o {
        Option::None => Option::None,
        Option::Some(s) => Option::Some(s@),
    }
}

impl View for Id3Tags {
    type V = TagsView;

    open spec fn view(&self) -> TagsView {
        TagsView {
            title: opt_view(self.title),
            artist: opt_view(self.artist),
            album: opt_view(self.album),
            year: opt_view(self.year),
            album_art: opt_view(self.album_art),
            track: self.track,
        }
    }
}

/// The model of a tag set with every field absent.
pub open spec fn empty_tags() -> TagsView {
    TagsView {
        title: Option::None,
        artist: Option::None,
        album: Option::None,
        year: Option::None,
        album_art: Option::None,
        track: Option::None,
    }
}

impl Id3Tags {
    /// A tag set with every field absent.
    pub fn new() -> (r: Id3Tags)
        ensures
            r@ == empty_tags(),
    {
        Id3Tags {
            title: Option::None,
            artist: Option::None,
            album: Option::None,
            year: Option::None,
            album_art: Option::None,
            track: Option::None,
        }
    }

    /// Install the fields of a successful ID3 read. A reader that succeeded
    /// replaces every field it handles, absent ones included: when several
    /// readers recognize one file, the last successful one wins per field.
    pub fn apply_id3_frames(
        &mut self,
        title: Option<String>,
        artist: Option<String>,
        album: Option<String>,
        year: Option<String>,
        album_art: Option<String>,
        track: Option<u32>,
    )
        ensures
            final(self)@ == (TagsView {
                title: opt_view(title),
                artist: opt_view(artist),
                album: opt_view(album),
                year: opt_view(year),
                album_art: opt_view(album_art),
                track: track,
            }),
    {
        self.title = title;
        self.artist = artist;
        self.album = album;
        self.year = year;
        self.album_art = album_art;
        self.track = track;
    }

    /// Install the fields of a successful Vorbis-comment read (FLAC). It
    /// carries no track number, so that field keeps its previous value.
    pub fn apply_vorbis_fields(
        &mut self,
        title: Option<String>,
        artist: Option<String>,
        album: Option<String>,
        year: Option<String>,
        album_art: Option<String>,
    )
        ensures
            final(self)@ == (TagsView {
                title: opt_view(title),
                artist: opt_view(artist),
                album: opt_view(album),
                year: opt_view(year),
                album_art: opt_view(album_art),
                track: old(self)@.track,
            }),
    {
        self.title = title;
        self.artist = artist;
        self.album = album;
        self.year = year;
        self.album_art = album_art;
    }
}

/// The standard base64 encoding of a byte sequence.
pub uninterp spec fn base64_of(bytes: Seq<u8>) -> Seq<char>;

/// Relies on base64's `Engine::encode` with the `STANDARD` engine: the
/// padded, standard-alphabet base64 encoding of the input, a function of the
/// bytes alone, four characters for every started group of three bytes.
#[verifier::external_body]
fn base64_encode(bytes: &Vec<u8>) -> (r: String)
    requires
        bytes@.len() <= usize::MAX / 4,
    ensures
        r@ == base64_of(bytes@),
        r@.len() == 4 * ((bytes@.len() + 2) / 3),
{
    base64::engine::Engine::encode(&base64::engine::general_purpose::STANDARD, bytes.as_slice())
}

/// Album art as an inline data URI: the image bytes in base64 behind an
/// explicit image MIME prefix.
pub fn art_data_uri(bytes: &Vec<u8>) -> (r: String)
    requires
        bytes@.len() <= usize::MAX / 4,
    ensures
        r@ == "data:image/jpeg;base64,"@ + base64_of(bytes@),
{
    let mut r = String::from_str("data:image/jpeg;base64,");
    let encoded = base64_encode(bytes);
    r.append(encoded.as_str());
    r
}

} // verus!
