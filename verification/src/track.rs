//! One audio file plus its decoded duration and extracted metadata. Track
//! identity is structural: every field takes part in equality, which is the
//! basis for library deduplication.

use vstd::prelude::*;
use crate::tags::Id3Tags;
use crate::tags::TagsView;
use crate::tags::opt_view;

verus! {

/// One entry of the library: the file's path (normalized by the caller), its
/// bare file name, the decoded duration in milliseconds, and the extracted
/// tag fields.
pub struct Track {
    pub path: String,
    pub file_name: String,
    pub duration: u64,
    pub id3_tags: Id3Tags,
}

/// Mathematical model of a `Track`.
#[verifier::ext_equal]
pub struct TrackView {
    pub path: Seq<char>,
    pub file_name: Seq<char>,
    pub duration: u64,
    pub id3_tags: TagsView,
}

impl View for Track {
    type V = TrackView;

    open spec fn view(&self) -> TrackView {
        TrackView {
            path: self.path@,
            file_name: self.file_name@,
            duration: self.duration,
            id3_tags: self.id3_tags@,
        }
    }
}

/// The view of an optional track: `None` stays `None`.
pub open spec fn opt_track_view(o: Option<Track>) -> Option<TrackView> {
    match o {
        Option::None => Option::None,
        Option::Some(t) => Option::Some(t@),
    }
}

/// Equality of optional strings at the model level.
fn eq_opt_string(a: &Option<String>, b: &Option<String>) -> (r: bool)
    ensures
        r == (opt_view(*a) == opt_view(*b)),
{
    match (a, b) {
        (Option::None, Option::None) => true,
        (Option::Some(x), Option::Some(y)) => *x == *y,
        _ => false,
    }
}

/// A copy of an optional string, equal at the model level.
fn clone_opt_string(a: &Option<String>) -> (r: Option<String>)
    ensures
        opt_view(r) == opt_view(*a),
{
    match a {
        Option::None => Option::None,
        Option::Some(x) => Option::Some(x.clone()),
    }
}

impl Track {
    /// Structural equality over all fields: the identity used for
    /// deduplication. Two scans of one file yield equal tracks only when
    /// metadata extraction was deterministic.
    pub fn same_as(&self, other: &Track) -> (r: bool)
        ensures
            r == (self@ == other@),
    {
        let fields_eq = self.path == other.path && self.file_name == other.file_name
            && self.duration == other.duration;
        let tags_eq = eq_opt_string(&self.id3_tags.title, &other.id3_tags.title)
            && eq_opt_string(&self.id3_tags.artist, &other.id3_tags.artist)
            && eq_opt_string(&self.id3_tags.album, &other.id3_tags.album)
            && eq_opt_string(&self.id3_tags.year, &other.id3_tags.year)
            && eq_opt_string(&self.id3_tags.album_art, &other.id3_tags.album_art)
            && (match (self.id3_tags.track, other.id3_tags.track) {
                (Option::None, Option::None) => true,
                (Option::Some(x), Option::Some(y)) => x == y,
                _ => false,
            });
        let r = fields_eq && tags_eq;
        proof {
            if r {
                assert(self@ =~= other@);
            }
        }
        r
    }

    /// An owned copy, equal to the original at the model level.
    pub fn duplicate(&self) -> (r: Track)
        ensures
            r@ == self@,
    {
        let r = Track {
            path: self.path.clone(),
            file_name: self.file_name.clone(),
            duration: self.duration,
            id3_tags: Id3Tags {
                title: clone_opt_string(&self.id3_tags.title),
                artist: clone_opt_string(&self.id3_tags.artist),
                album: clone_opt_string(&self.id3_tags.album),
                year: clone_opt_string(&self.id3_tags.year),
                album_art: clone_opt_string(&self.id3_tags.album_art),
                track: self.id3_tags.track,
            },
        };
        proof {
            assert(r@ =~= self@);
        }
        r
    }
}

} // verus!
