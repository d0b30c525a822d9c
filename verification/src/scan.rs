//! The extension filter of the file scanner. Walking directories is the
//! caller's job; the decision which candidate files are audio files is made
//! here: a path qualifies when it ends in one of the supported extensions,
//! compared case-sensitively.

use vstd::prelude::*;
use vstd::string::StrSliceExecFns;

verus! {

/// `s` ends in `suffix`, with at least one character before it.
pub open spec fn ends_with(s: Seq<char>, suffix: Seq<char>) -> bool {
    s.len() > suffix.len() && s.skip(s.len() - suffix.len()) == suffix
}

/// The path names a file of a supported audio container.
pub open spec fn supported_path(p: Seq<char>) -> bool {
    ||| ends_with(p, ".mp3"@)
    ||| ends_with(p, ".wav"@)
    ||| ends_with(p, ".flac"@)
    ||| ends_with(p, ".ogg"@)
    ||| ends_with(p, ".aiff"@)
}

/// The models of a sequence of strings.
pub open spec fn strings_of(s: Seq<String>) -> Seq<Seq<char>> {
    s.map_values(|x: String| x@)
}

/// The subsequence of supported paths, in their original order.
pub open spec fn supported_of(s: Seq<Seq<char>>) -> Seq<Seq<char>> {
    s.filter(|p: Seq<char>| supported_path(p))
}

fn str_ends_with(s: &str, suffix: &str) -> (r: bool)
    ensures
        r == ends_with(s@, suffix@),
{
    let n = s.unicode_len();
    let m = suffix.unicode_len();
    if n <= m {
        return false;
    }
    let mut k: usize = 0;
    while k < m
        invariant
            n == s@.len(),
            m == suffix@.len(),
            m < n,
            k <= m,
            forall|x: int| 0 <= x < k ==> s@[n - m + x] == suffix@[x],
        decreases m - k,
    {
        let cs = s.get_char(n - m + k);
        let cf = suffix.get_char(k);
        if cs != cf {
            proof {
                assert(s@.skip(n - m)[k as int] == s@[n - m + k]);
            }
            return false;
        }
        k = k + 1;
    }
    proof {
        assert(s@.skip(n - m) =~= suffix@);
    }
    true
}

/// Whether the path ends in one of the supported audio extensions.
pub fn has_supported_extension(p: &str) -> (r: bool)
    ensures
        r == supported_path(p@),
{
    str_ends_with(p, ".mp3") || str_ends_with(p, ".wav") || str_ends_with(p, ".flac")
        || str_ends_with(p, ".ogg") || str_ends_with(p, ".aiff")
}

/// Keep exactly the candidate paths with a supported extension, in their
/// original order. A rejected file never aborts the scan: it is merely left
/// out, and the caller may report it.
pub fn filter_supported(paths: &Vec<String>) -> (r: Vec<String>)
    ensures
        strings_of(r@) == supported_of(strings_of(paths@)),
{
    let n = paths.len();
    let mut r: Vec<String> = Vec::new();
    let ghost all = strings_of(paths@);
    proof {
        assert(strings_of(r@) =~= Seq::<Seq<char>>::empty());
        assert(all.take(0) =~= Seq::<Seq<char>>::empty());
        reveal(Seq::filter);
    }
    let mut i: usize = 0;
    while i < n
        invariant
            n == paths@.len(),
            i <= n,
            all == strings_of(paths@),
            strings_of(r@) == supported_of(all.take(i as int)),
        decreases n - i,
    {
        let ghost pre = strings_of(r@);
        if has_supported_extension(paths[i].as_str()) {
            r.push(paths[i].clone());
        }
        proof {
            reveal(Seq::filter);
            let stepped = all.take(i as int + 1);
            assert(stepped.drop_last() =~= all.take(i as int));
            assert(stepped.last() == all[i as int]);
            if supported_path(all[i as int]) {
                assert(strings_of(r@) =~= pre.push(paths@[i as int]@));
            } else {
                assert(strings_of(r@) =~= pre);
            }
        }
        i = i + 1;
    }
    proof {
        assert(all.take(n as int) =~= all);
    }
    r
}

} // verus!
