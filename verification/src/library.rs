//! The library: the deduplicated collection of all known tracks, kept sorted
//! by (artist, album, track number, title) with `None` before any present
//! value and the file path as final tie-breaker. Ingestion merges new tracks
//! with the existing ones under structural track equality.

use vstd::prelude::*;
use crate::order::Cmp;
use crate::order::cmp_key;
use crate::order::key_le;
use crate::order::cmp_track_key;
use crate::order::lemma_cmp_key_flip;
use crate::order::lemma_cmp_key_trans;
use crate::track::Track;
use crate::track::TrackView;

verus! {

/// The models of a sequence of tracks.
pub open spec fn views_of(ts: Seq<Track>) -> Seq<TrackView> {
    ts.map_values(|t: Track| t@)
}

/// The sequence is sorted under the library key order.
pub open spec fn sorted_by_key(s: Seq<TrackView>) -> bool {
    forall|i: int, j: int| 0 <= i < j < s.len() ==> key_le(s[i], s[j])
}

/// The ordered sequence of all known tracks, unique under structural track
/// equality. Mutated only through `ingest`, which replaces the contents in
/// one step from the caller's point of view: a reader holding the library
/// never observes a partially merged state.
pub struct Library {
    pub tracks: Vec<Track>,
}

impl View for Library {
    type V = Seq<TrackView>;

    open spec fn view(&self) -> Seq<TrackView> {
        views_of(self.tracks@)
    }
}

impl Library {
    /// The library invariant: sorted under the key order and free of
    /// duplicates.
    pub open spec fn wf(&self) -> bool {
        &&& sorted_by_key(self@)
        &&& self@.no_duplicates()
    }

    /// An empty library.
    pub fn new() -> (r: Library)
        ensures
            r@ == Seq::<TrackView>::empty(),
            r.wf(),
    {
        let r = Library { tracks: Vec::new() };
        proof {
            assert(r@ =~= Seq::<TrackView>::empty());
        }
        r
    }

    /// Whether some track in `tracks` equals `t` structurally.
    fn contains_track(tracks: &Vec<Track>, t: &Track) -> (r: bool)
        ensures
            r == views_of(tracks@).contains(t@),
    {
        let n = tracks.len();
        let mut i: usize = 0;
        while i < n
            invariant
                n == tracks@.len(),
                i <= n,
                forall|k: int| 0 <= k < i ==> views_of(tracks@)[k] != t@,
            decreases n - i,
        {
            if tracks[i].same_as(t) {
                proof {
                    assert(views_of(tracks@)[i as int] == t@);
                }
                return true;
            }
            i = i + 1;
        }
        false
    }

    /// The first position whose track sorts strictly after `t`; `tracks.len()`
    /// when no track does.
    fn find_insert_pos(tracks: &Vec<Track>, t: &Track) -> (j: usize)
        ensures
            j <= tracks@.len(),
            forall|k: int| 0 <= k < j ==> cmp_key(views_of(tracks@)[k], t@) != Cmp::Gt,
            j < tracks@.len() ==> cmp_key(views_of(tracks@)[j as int], t@) == Cmp::Gt,
    {
        let n = tracks.len();
        let mut j: usize = 0;
        while j < n
            invariant
                n == tracks@.len(),
                j <= n,
                forall|k: int| 0 <= k < j ==> cmp_key(views_of(tracks@)[k], t@) != Cmp::Gt,
            decreases n - j,
        {
            match cmp_track_key(&tracks[j], t) {
                Cmp::Gt => {
                    return j;
                },
                _ => {
                    j = j + 1;
                },
            }
        }
        j
    }

    /// Insert a track that is not yet present at its sorted position.
    fn insert_sorted(tracks: &mut Vec<Track>, t: Track)
        requires
            sorted_by_key(views_of(old(tracks)@)),
            views_of(old(tracks)@).no_duplicates(),
            !views_of(old(tracks)@).contains(t@),
        ensures
            sorted_by_key(views_of(final(tracks)@)),
            views_of(final(tracks)@).no_duplicates(),
            views_of(final(tracks)@).len() == views_of(old(tracks)@).len() + 1,
            forall|x: TrackView|
                views_of(final(tracks)@).contains(x) <==> (views_of(old(tracks)@).contains(x) || x
                    == t@),
    {
        let ghost old_v = views_of(tracks@);
        let j = Self::find_insert_pos(tracks, &t);
        tracks.insert(j, t);
        proof {
            let new_v = views_of(tracks@);
            let jj = j as int;
            assert forall|k: int| 0 <= k < new_v.len() implies new_v[k] == (if k < jj {
                old_v[k]
            } else if k == jj {
                t@
            } else {
                old_v[k - 1]
            }) by {
                assert(tracks@[k] == (if k < jj {
                    old(tracks)@[k]
                } else if k == jj {
                    t
                } else {
                    old(tracks)@[k - 1]
                }));
            }
            // sortedness: everything before `jj` sorts no later than `t`,
            // everything from `jj` on sorts strictly after it.
            if jj < old_v.len() {
                assert forall|k: int| jj <= k < old_v.len() implies cmp_key(t@, old_v[k])
                    == Cmp::Lt by {
                    lemma_cmp_key_flip(old_v[jj], t@);
                    if k > jj {
                        assert(key_le(old_v[jj], old_v[k]));
                        lemma_cmp_key_trans(t@, old_v[jj], old_v[k]);
                    }
                }
            }
            assert(sorted_by_key(new_v)) by {
                assert forall|x: int, y: int| 0 <= x < y < new_v.len() implies key_le(
                    new_v[x],
                    new_v[y],
                ) by {
                    if x < jj && y == jj {
                        assert(cmp_key(old_v[x], t@) != Cmp::Gt);
                    } else if x == jj && y > jj {
                        assert(cmp_key(t@, old_v[y - 1]) == Cmp::Lt);
                    }
                }
            }
            // uniqueness: `t` was absent, the rest was pairwise distinct.
            assert forall|k: int| 0 <= k < old_v.len() implies old_v[k] != t@ by {
                assert(old_v.contains(old_v[k]));
            }
            assert(new_v.no_duplicates());
            // membership in both directions.
            assert forall|x: TrackView| new_v.contains(x) implies (old_v.contains(x) || x
                == t@) by {
                let k = choose|k: int| 0 <= k < new_v.len() && new_v[k] == x;
                if k < jj {
                    assert(old_v[k] == x);
                } else if k > jj {
                    assert(old_v[k - 1] == x);
                }
            }
            assert forall|x: TrackView| old_v.contains(x) implies new_v.contains(x) by {
                let k = choose|k: int| 0 <= k < old_v.len() && old_v[k] == x;
                if k < jj {
                    assert(new_v[k] == x);
                } else {
                    assert(new_v[k + 1] == x);
                }
            }
            assert(new_v.contains(t@)) by {
                assert(new_v[jj] == t@);
            }
        }
    }

    /// Merge the given tracks into the library: the result holds exactly the
    /// union of the old contents and the new tracks, deduplicated by
    /// structural equality and sorted under the key order. Per-track failures
    /// belong to the caller: whatever was undecodable never reaches this
    /// list, and one bad file does not affect the rest.
    pub fn ingest(&mut self, new_tracks: Vec<Track>)
        requires
            old(self).wf(),
        ensures
            final(self).wf(),
            forall|x: TrackView|
                final(self)@.contains(x) <==> (old(self)@.contains(x) || views_of(
                    new_tracks@,
                ).contains(x)),
    {
        let n = new_tracks.len();
        let mut i: usize = 0;
        while i < n
            invariant
                n == new_tracks@.len(),
                i <= n,
                self.wf(),
                forall|x: TrackView|
                    self@.contains(x) <==> (old(self)@.contains(x) || views_of(
                        new_tracks@.take(i as int),
                    ).contains(x)),
            decreases n - i,
        {
            let ghost pre_v = self@;
            let ghost taken = views_of(new_tracks@.take(i as int));
            let t = new_tracks[i].duplicate();
            let already = Self::contains_track(&self.tracks, &t);
            if !already {
                Self::insert_sorted(&mut self.tracks, t);
            }
            proof {
                let next_taken = views_of(new_tracks@.take(i as int + 1));
                assert forall|x: TrackView| next_taken.contains(x) implies (taken.contains(x) || x
                    == t@) by {
                    let k = choose|k: int| 0 <= k < next_taken.len() && next_taken[k] == x;
                    if k < i {
                        assert(taken[k] == x);
                    } else {
                        assert(new_tracks@.take(i as int + 1)[k] == new_tracks@[i as int]);
                    }
                }
                assert forall|x: TrackView| taken.contains(x) implies next_taken.contains(x) by {
                    let k = choose|k: int| 0 <= k < taken.len() && taken[k] == x;
                    assert(next_taken[k] == x);
                }
                assert(next_taken.contains(t@)) by {
                    assert(next_taken[i as int] == t@);
                }
                if already {
                    assert(self@.contains(t@));
                }
            }
            i = i + 1;
        }
        proof {
            assert(new_tracks@.take(n as int) =~= new_tracks@);
        }
    }
}

/// Re-scanning an unchanged file set is idempotent: a duplicate-free library
/// whose members after a merge are the same as before has the same size as
/// before. With `ingest`'s contract this says that ingesting tracks that are
/// all already present keeps the library size constant.
pub proof fn lemma_rescan_keeps_size(
    before: Seq<TrackView>,
    new: Seq<TrackView>,
    after: Seq<TrackView>,
)
    requires
        before.no_duplicates(),
        after.no_duplicates(),
        forall|t: TrackView| new.contains(t) ==> before.contains(t),
        forall|t: TrackView| after.contains(t) <==> (before.contains(t) || new.contains(t)),
    ensures
        after.len() == before.len(),
{
    assert(after.to_set() =~= before.to_set());
    before.unique_seq_to_set();
    after.unique_seq_to_set();
}

/// In a sorted library, a track without an artist never follows a track with
/// one: all artistless tracks come first.
pub proof fn lemma_none_artist_first(s: Seq<TrackView>, i: int, j: int)
    requires
        sorted_by_key(s),
        0 <= i < j < s.len(),
        s[i].id3_tags.artist is Some,
    ensures
        s[j].id3_tags.artist is Some,
{
    assert(key_le(s[i], s[j]));
}

} // verus!
