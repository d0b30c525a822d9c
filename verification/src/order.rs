//! Total order on tracks: three-way comparison of character sequences,
//! optional fields (`None` sorts before any present value), and the sort key
//! (artist, album, track number, title) with the file path as final
//! tie-breaker.

use vstd::prelude::*;
use vstd::string::StrSliceExecFns;
use crate::tags::opt_view;
use crate::track::Track;
use crate::track::TrackView;

verus! {

/// Result of a three-way comparison.
#[derive(Clone, Copy)]
pub enum Cmp {
    Lt,
    Eq,
    Gt,
}

/// The comparison with its arguments swapped.
pub open spec fn flip(c: Cmp) -> Cmp {
    match c {
        Cmp::Lt => Cmp::Gt,
        Cmp::Eq => Cmp::Eq,
        Cmp::Gt => Cmp::Lt,
    }
}

/// Lexicographic three-way comparison of character sequences by code point;
/// a proper prefix sorts before its extensions.
pub open spec fn cmp_chars(a: Seq<char>, b: Seq<char>) -> Cmp
    decreases a.len(),
{
    if a.len() == 0 && b.len() == 0 {
        Cmp::Eq
    } else if a.len() == 0 {
        Cmp::Lt
    } else if b.len() == 0 {
        Cmp::Gt
    } else if a[0] < b[0] {
        Cmp::Lt
    } else if b[0] < a[0] {
        Cmp::Gt
    } else {
        cmp_chars(a.skip(1), b.skip(1))
    }
}

/// Comparison of optional character sequences: `None` sorts first.
pub open spec fn cmp_opt_chars(a: Option<Seq<char>>, b: Option<Seq<char>>) -> Cmp {
    match (a, b) {
        (Option::None, Option::None) => Cmp::Eq,
        (Option::None, Option::Some(_)) => Cmp::Lt,
        (Option::Some(_), Option::None) => Cmp::Gt,
        (Option::Some(x), Option::Some(y)) => cmp_chars(x, y),
    }
}

/// Comparison of optional track numbers: `None` sorts first.
pub open spec fn cmp_opt_u32(a: Option<u32>, b: Option<u32>) -> Cmp {
    match (a, b) {
        (Option::None, Option::None) => Cmp::Eq,
        (Option::None, Option::Some(_)) => Cmp::Lt,
        (Option::Some(_), Option::None) => Cmp::Gt,
        (Option::Some(x), Option::Some(y)) => if x < y {
            Cmp::Lt
        } else if y < x {
            Cmp::Gt
        } else {
            Cmp::Eq
        },
    }
}

/// The library sort key: (artist, album, track number, title), each with
/// `None` first, ties broken by the file path for determinism.
pub open spec fn cmp_key(a: TrackView, b: TrackView) -> Cmp {
    let c_artist = cmp_opt_chars(a.id3_tags.artist, b.id3_tags.artist);
    let c_album = cmp_opt_chars(a.id3_tags.album, b.id3_tags.album);
    let c_track = cmp_opt_u32(a.id3_tags.track, b.id3_tags.track);
    let c_title = cmp_opt_chars(a.id3_tags.title, b.id3_tags.title);
    if c_artist != Cmp::Eq {
        c_artist
    } else if c_album != Cmp::Eq {
        c_album
    } else if c_track != Cmp::Eq {
        c_track
    } else if c_title != Cmp::Eq {
        c_title
    } else {
        cmp_chars(a.path, b.path)
    }
}

/// `a` sorts no later than `b`.
pub open spec fn key_le(a: TrackView, b: TrackView) -> bool {
    cmp_key(a, b) != Cmp::Gt
}

pub proof fn lemma_cmp_chars_eq(a: Seq<char>, b: Seq<char>)
    ensures
        cmp_chars(a, b) == Cmp::Eq <==> a == b,
    decreases a.len(),
{
    if a.len() == 0 && b.len() == 0 {
        assert(a =~= b);
    } else if a.len() == 0 || b.len() == 0 {
        assert(a != b);
    } else {
        lemma_cmp_chars_eq(a.skip(1), b.skip(1));
        if cmp_chars(a, b) == Cmp::Eq {
            assert(a[0] == b[0]);
            assert(cmp_chars(a, b) == cmp_chars(a.skip(1), b.skip(1)));
            assert(a.skip(1) == b.skip(1));
            assert(a =~= b) by {
                assert(a.len() == b.len());
                assert forall|i: int| 0 <= i < a.len() implies a[i] == b[i] by {
                    if i > 0 {
                        assert(a.skip(1)[i - 1] == b.skip(1)[i - 1]);
                        assert(a[i] == a.skip(1)[i - 1]);
                        assert(b[i] == b.skip(1)[i - 1]);
                    }
                }
            }
        }
        if a == b {
            assert(a.skip(1) =~= b.skip(1));
        }
    }
}

pub proof fn lemma_cmp_chars_flip(a: Seq<char>, b: Seq<char>)
    ensures
        cmp_chars(b, a) == flip(cmp_chars(a, b)),
    decreases a.len(),
{
    if a.len() != 0 && b.len() != 0 && !(a[0] < b[0]) && !(b[0] < a[0]) {
        lemma_cmp_chars_flip(a.skip(1), b.skip(1));
    }
}

pub proof fn lemma_cmp_chars_trans(a: Seq<char>, b: Seq<char>, c: Seq<char>)
    requires
        cmp_chars(a, b) != Cmp::Gt,
        cmp_chars(b, c) != Cmp::Gt,
    ensures
        cmp_chars(a, c) != Cmp::Gt,
        cmp_chars(a, b) == Cmp::Lt || cmp_chars(b, c) == Cmp::Lt ==> cmp_chars(a, c) == Cmp::Lt,
    decreases a.len(),
{
    if a.len() == 0 {
        if c.len() == 0 {
            assert(b.len() == 0);
            assert(cmp_chars(a, c) == Cmp::Eq);
            assert(cmp_chars(a, b) == Cmp::Eq);
            assert(cmp_chars(b, c) == Cmp::Eq);
        } else {
            assert(cmp_chars(a, c) == Cmp::Lt);
        }
    } else {
        assert(b.len() != 0);
        assert(c.len() != 0);
        if !(a[0] < b[0]) && !(b[0] < a[0]) && !(b[0] < c[0]) && !(c[0] < b[0]) {
            assert(cmp_chars(a, b) == cmp_chars(a.skip(1), b.skip(1)));
            assert(cmp_chars(b, c) == cmp_chars(b.skip(1), c.skip(1)));
            assert(cmp_chars(a, c) == cmp_chars(a.skip(1), c.skip(1)));
            lemma_cmp_chars_trans(a.skip(1), b.skip(1), c.skip(1));
        } else {
            assert(!(b[0] < a[0]));
            assert(!(c[0] < b[0]));
            assert(a[0] < c[0]);
            assert(cmp_chars(a, c) == Cmp::Lt);
            assert(cmp_chars(a, b) == Cmp::Lt || cmp_chars(b, c) == Cmp::Lt);
        }
    }
}

pub proof fn lemma_cmp_opt_chars_flip(a: Option<Seq<char>>, b: Option<Seq<char>>)
    ensures
        cmp_opt_chars(b, a) == flip(cmp_opt_chars(a, b)),
{
    if a is Some && b is Some {
        lemma_cmp_chars_flip(a.unwrap(), b.unwrap());
    }
}

pub proof fn lemma_cmp_opt_chars_trans(a: Option<Seq<char>>, b: Option<Seq<char>>, c: Option<
    Seq<char>,
>)
    requires
        cmp_opt_chars(a, b) != Cmp::Gt,
        cmp_opt_chars(b, c) != Cmp::Gt,
    ensures
        cmp_opt_chars(a, c) != Cmp::Gt,
        cmp_opt_chars(a, b) == Cmp::Lt || cmp_opt_chars(b, c) == Cmp::Lt ==> cmp_opt_chars(a, c)
            == Cmp::Lt,
{
    if a is Some && b is Some && c is Some {
        lemma_cmp_chars_trans(a.unwrap(), b.unwrap(), c.unwrap());
    }
}

pub proof fn lemma_cmp_opt_chars_eq(a: Option<Seq<char>>, b: Option<Seq<char>>)
    ensures
        cmp_opt_chars(a, b) == Cmp::Eq <==> a == b,
{
    if a is Some && b is Some {
        lemma_cmp_chars_eq(a.unwrap(), b.unwrap());
    }
}

pub proof fn lemma_cmp_key_flip(a: TrackView, b: TrackView)
    ensures
        cmp_key(b, a) == flip(cmp_key(a, b)),
{
    lemma_cmp_opt_chars_flip(a.id3_tags.artist, b.id3_tags.artist);
    lemma_cmp_opt_chars_flip(a.id3_tags.album, b.id3_tags.album);
    lemma_cmp_opt_chars_flip(a.id3_tags.title, b.id3_tags.title);
    lemma_cmp_chars_flip(a.path, b.path);
}

pub proof fn lemma_cmp_key_trans(a: TrackView, b: TrackView, c: TrackView)
    requires
        cmp_key(a, b) != Cmp::Gt,
        cmp_key(b, c) != Cmp::Gt,
    ensures
        cmp_key(a, c) != Cmp::Gt,
        cmp_key(a, b) == Cmp::Lt || cmp_key(b, c) == Cmp::Lt ==> cmp_key(a, c) == Cmp::Lt,
{
    lemma_cmp_opt_chars_trans(a.id3_tags.artist, b.id3_tags.artist, c.id3_tags.artist);
    lemma_cmp_opt_chars_eq(a.id3_tags.artist, b.id3_tags.artist);
    lemma_cmp_opt_chars_eq(b.id3_tags.artist, c.id3_tags.artist);
    if cmp_opt_chars(a.id3_tags.artist, b.id3_tags.artist) == Cmp::Eq && cmp_opt_chars(
        b.id3_tags.artist,
        c.id3_tags.artist,
    ) == Cmp::Eq {
        lemma_cmp_opt_chars_trans(a.id3_tags.album, b.id3_tags.album, c.id3_tags.album);
        lemma_cmp_opt_chars_eq(a.id3_tags.album, b.id3_tags.album);
        lemma_cmp_opt_chars_eq(b.id3_tags.album, c.id3_tags.album);
        if cmp_opt_chars(a.id3_tags.album, b.id3_tags.album) == Cmp::Eq && cmp_opt_chars(
            b.id3_tags.album,
            c.id3_tags.album,
        ) == Cmp::Eq {
            if cmp_opt_u32(a.id3_tags.track, b.id3_tags.track) == Cmp::Eq && cmp_opt_u32(
                b.id3_tags.track,
                c.id3_tags.track,
            ) == Cmp::Eq {
                lemma_cmp_opt_chars_trans(a.id3_tags.title, b.id3_tags.title, c.id3_tags.title);
                lemma_cmp_opt_chars_eq(a.id3_tags.title, b.id3_tags.title);
                lemma_cmp_opt_chars_eq(b.id3_tags.title, c.id3_tags.title);
                if cmp_opt_chars(a.id3_tags.title, b.id3_tags.title) == Cmp::Eq && cmp_opt_chars(
                    b.id3_tags.title,
                    c.id3_tags.title,
                ) == Cmp::Eq {
                    lemma_cmp_chars_trans(a.path, b.path, c.path);
                }
            }
        }
    }
}

/// Three-way comparison of two strings, matching `cmp_chars` on their views.
fn cmp_str(a: &str, b: &str) -> (r: Cmp)
    ensures
        r == cmp_chars(a@, b@),
{
    let alen = a.unicode_len();
    let blen = b.unicode_len();
    let mut i: usize = 0;
    proof {
        assert(a@.skip(0) =~= a@);
        assert(b@.skip(0) =~= b@);
    }
    loop
        invariant
            i <= alen,
            i <= blen,
            alen == a@.len(),
            blen == b@.len(),
            cmp_chars(a@, b@) == cmp_chars(a@.skip(i as int), b@.skip(i as int)),
        decreases alen - i,
    {
        proof {
            assert(a@.skip(i as int).len() == alen - i);
            assert(b@.skip(i as int).len() == blen - i);
        }
        if i == alen && i == blen {
            return Cmp::Eq;
        } else if i == alen {
            return Cmp::Lt;
        } else if i == blen {
            return Cmp::Gt;
        }
        let ca = a.get_char(i);
        let cb = b.get_char(i);
        proof {
            assert(a@.skip(i as int)[0] == a@[i as int]);
            assert(b@.skip(i as int)[0] == b@[i as int]);
        }
        if ca < cb {
            return Cmp::Lt;
        }
        if cb < ca {
            return Cmp::Gt;
        }
        proof {
            assert(a@.skip(i as int).skip(1) =~= a@.skip(i as int + 1));
            assert(b@.skip(i as int).skip(1) =~= b@.skip(i as int + 1));
        }
        i = i + 1;
    }
}

/// Three-way comparison of optional strings: `None` sorts first.
fn cmp_opt_string(a: &Option<String>, b: &Option<String>) -> (r: Cmp)
    ensures
        r == cmp_opt_chars(opt_view(*a), opt_view(*b)),
{
    match (a, b) {
        (Option::None, Option::None) => Cmp::Eq,
        (Option::None, Option::Some(_)) => Cmp::Lt,
        (Option::Some(_), Option::None) => Cmp::Gt,
        (Option::Some(x), Option::Some(y)) => cmp_str(x.as_str(), y.as_str()),
    }
}

/// Three-way comparison of optional track numbers: `None` sorts first.
fn cmp_opt_num(a: Option<u32>, b: Option<u32>) -> (r: Cmp)
    ensures
        r == cmp_opt_u32(a, b),
{
    match (a, b) {
        (Option::None, Option::None) => Cmp::Eq,
        (Option::None, Option::Some(_)) => Cmp::Lt,
        (Option::Some(_), Option::None) => Cmp::Gt,
        (Option::Some(x), Option::Some(y)) => if x < y {
            Cmp::Lt
        } else if y < x {
            Cmp::Gt
        } else {
            Cmp::Eq
        },
    }
}

/// Three-way comparison of two tracks under the library sort key.
pub fn cmp_track_key(a: &Track, b: &Track) -> (r: Cmp)
    ensures
        r == cmp_key(a@, b@),
{
    let c_artist = cmp_opt_string(&a.id3_tags.artist, &b.id3_tags.artist);
    if !(matches!(c_artist, Cmp::Eq)) {
        return c_artist;
    }
    let c_album = cmp_opt_string(&a.id3_tags.album, &b.id3_tags.album);
    if !(matches!(c_album, Cmp::Eq)) {
        return c_album;
    }
    let c_track = cmp_opt_num(a.id3_tags.track, b.id3_tags.track);
    if !(matches!(c_track, Cmp::Eq)) {
        return c_track;
    }
    let c_title = cmp_opt_string(&a.id3_tags.title, &b.id3_tags.title);
    if !(matches!(c_title, Cmp::Eq)) {
        return c_title;
    }
    cmp_str(a.path.as_str(), b.path.as_str())
}

} // verus!
