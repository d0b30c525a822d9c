//! Navigation over the library: the track one step forward or backward from
//! the current one, with wraparound at both ends. The current track is looked
//! up by structural equality; when it is absent from the library (for example
//! removed by a rescan), navigation is a safe no-op.

use vstd::prelude::*;
use crate::library::Library;
use crate::library::views_of;
use crate::track::Track;
use crate::track::TrackView;
use crate::track::opt_track_view;

verus! {

/// The index of the first occurrence of `t` in `s`, or -1 when absent.
pub open spec fn find_track(s: Seq<TrackView>, t: TrackView) -> int
    decreases s.len(),
{
    if s.len() == 0 {
        -1
    } else if s[0] == t {
        0
    } else if find_track(s.skip(1), t) < 0 {
        -1
    } else {
        find_track(s.skip(1), t) + 1
    }
}

/// The track one step forward from `cur`, wrapping from the last track to the
/// first; `None` when there is no current track or it is not in the library.
pub open spec fn next_of(lib: Seq<TrackView>, cur: Option<TrackView>) -> Option<TrackView> {
    match cur {
        Option::None => Option::None,
        Option::Some(c) => {
            let i = find_track(lib, c);
            if i < 0 {
                Option::None
            } else if i + 1 < lib.len() {
                Option::Some(lib[i + 1])
            } else {
                Option::Some(lib[0])
            }
        },
    }
}

/// The track one step backward from `cur`, wrapping from the first track to
/// the last; `None` when there is no current track or it is not in the
/// library.
pub open spec fn previous_of(lib: Seq<TrackView>, cur: Option<TrackView>) -> Option<TrackView> {
    match cur {
        Option::None => Option::None,
        Option::Some(c) => {
            let i = find_track(lib, c);
            if i < 0 {
                Option::None
            } else if i > 0 {
                Option::Some(lib[i - 1])
            } else {
                Option::Some(lib[lib.len() - 1])
            }
        },
    }
}

proof fn lemma_find_track_at(s: Seq<TrackView>, t: TrackView, i: int)
    requires
        0 <= i < s.len(),
        s[i] == t,
        forall|k: int| 0 <= k < i ==> s[k] != t,
    ensures
        find_track(s, t) == i,
    decreases i,
{
    if s[0] == t {
        assert(i == 0);
    } else {
        assert(s.skip(1)[i - 1] == s[i]);
        assert forall|k: int| 0 <= k < i - 1 implies s.skip(1)[k] != t by {
            assert(s.skip(1)[k] == s[k + 1]);
        }
        lemma_find_track_at(s.skip(1), t, i - 1);
    }
}

proof fn lemma_find_track_none(s: Seq<TrackView>, t: TrackView)
    requires
        forall|k: int| 0 <= k < s.len() ==> s[k] != t,
    ensures
        find_track(s, t) == -1,
    decreases s.len(),
{
    if s.len() != 0 {
        assert forall|k: int| 0 <= k < s.len() - 1 implies s.skip(1)[k] != t by {
            assert(s.skip(1)[k] == s[k + 1]);
        }
        lemma_find_track_none(s.skip(1), t);
    }
}

/// The index of the first track equal to `t`, or `None` when absent.
fn find_index(tracks: &Vec<Track>, t: &Track) -> (r: Option<usize>)
    ensures
        (match r {
            Option::None => find_track(views_of(tracks@), t@) == -1,
            Option::Some(i) => i < tracks@.len() && find_track(views_of(tracks@), t@) == i as int,
        }),
{
    let n = tracks.len();
    let mut i: usize = 0;
    while i < n
        invariant
            n == tracks@.len(),
            i <= n,
            forall|k: int| 0 <= k < i ==> views_of(tracks@)[k] != t@,
        decreases n - i,
    {
        if tracks[i].same_as(t) {
            proof {
                lemma_find_track_at(views_of(tracks@), t@, i as int);
            }
            return Option::Some(i);
        }
        i = i + 1;
    }
    proof {
        lemma_find_track_none(views_of(tracks@), t@);
    }
    Option::None
}

/// The track to play after the current one, wrapping from the end of the
/// library to its start.
pub fn next(library: &Library, current: &Option<Track>) -> (r: Option<Track>)
    ensures
        opt_track_view(r) == next_of(library@, opt_track_view(*current)),
{
    match current {
        Option::None => Option::None,
        Option::Some(c) => {
            let n = library.tracks.len();
            match find_index(&library.tracks, c) {
                Option::None => Option::None,
                Option::Some(i) => {
                    proof {
                        assert(i < n);
                    }
                    let j: usize = if i + 1 < n {
                        i + 1
                    } else {
                        0
                    };
                    Option::Some(library.tracks[j].duplicate())
                },
            }
        },
    }
}

/// The track to play before the current one, wrapping from the start of the
/// library to its end.
pub fn previous(library: &Library, current: &Option<Track>) -> (r: Option<Track>)
    ensures
        opt_track_view(r) == previous_of(library@, opt_track_view(*current)),
{
    match current {
        Option::None => Option::None,
        Option::Some(c) => {
            let n = library.tracks.len();
            match find_index(&library.tracks, c) {
                Option::None => Option::None,
                Option::Some(i) => {
                    proof {
                        assert(i < n);
                    }
                    let j: usize = if i > 0 {
                        i - 1
                    } else {
                        n - 1
                    };
                    Option::Some(library.tracks[j].duplicate())
                },
            }
        },
    }
}

} // verus!
