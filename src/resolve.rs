//! Resolution of logical paths into candidate locations under the site root.
//!
//! A candidate is a path relative to the site's base directory. The caller
//! checks which candidates exist; the first existing one wins.

use vstd::prelude::*;
use crate::error::ImageFnError;
use crate::text::{chars_of, string_from};

verus! {

/// `content/`, the content root relative to the base directory.
pub open spec fn content_dir() -> Seq<char> {
    seq!['c', 'o', 'n', 't', 'e', 'n', 't', '/']
}

/// `static/`, the static root relative to the base directory.
pub open spec fn static_dir() -> Seq<char> {
    seq!['s', 't', 'a', 't', 'i', 'c', '/']
}

/// `@/`, shorthand for the content root.
pub open spec fn content_alias() -> Seq<char> {
    seq!['@', '/']
}

pub open spec fn has_prefix(p: Seq<char>, pre: Seq<char>) -> bool {
    pre.len() <= p.len() && p.subrange(0, pre.len() as int) == pre
}

/// A path that starts with a path separator.
pub open spec fn is_absolute(p: Seq<char>) -> bool {
    p.len() > 0 && p[0] == '/'
}

/// What the unfinished last segment of a path read so far is.
#[derive(Clone, Copy, Debug, PartialEq, Eq, Structural)]
pub enum SegmentKind {
    /// Nothing yet.
    Empty,
    /// `.`
    Dot,
    /// `..`
    DotDot,
    /// Any other name.
    Name,
}

/// The segment after reading `c`, which is no separator.
pub open spec fn segment_step(k: SegmentKind, c: char) -> SegmentKind {
    if c == '.' {
        match k {
            SegmentKind::Empty => SegmentKind::Dot,
            SegmentKind::Dot => SegmentKind::DotDot,
            _ => SegmentKind::Name,
        }
    } else {
        SegmentKind::Name
    }
}

/// How a finished segment changes the depth below the starting directory.
pub open spec fn segment_effect(k: SegmentKind) -> int {
    match k {
        SegmentKind::Name => 1,
        SegmentKind::DotDot => -1,
        _ => 0,
    }
}

/// Reading a relative path left to right: the depth below the starting
/// directory after its finished segments, its unfinished segment, and
/// whether some finished prefix already stood above the starting directory.
pub open spec fn walk(p: Seq<char>) -> (int, SegmentKind, bool)
    decreases p.len(),
{
    if p.len() == 0 {
        (0, SegmentKind::Empty, false)
    } else {
        let w = walk(p.drop_last());
        let c = p.last();
        if c == '/' {
            let d = w.0 + segment_effect(w.1);
            (d, SegmentKind::Empty, w.2 || d < 0)
        } else {
            (w.0, segment_step(w.1, c), w.2)
        }
    }
}

/// Taken from a directory, the relative path `p` leads above that
/// directory at some point, its `..` segments outnumbering the names before.
pub open spec fn climbs_above(p: Seq<char>) -> bool {
    let w = walk(p);
    w.2 || w.0 + segment_effect(w.1) < 0
}

/// The candidates of `s`, in order, without those that climb above the base
/// directory.
pub open spec fn kept(s: Seq<Seq<char>>) -> Seq<Seq<char>>
    decreases s.len(),
{
    if s.len() == 0 {
        s
    } else {
        let r = kept(s.drop_last());
        if climbs_above(s.last()) {
            r
        } else {
            r.push(s.last())
        }
    }
}

/// The locations actually tried for a non-absolute logical path.
pub open spec fn tried(p: Seq<char>) -> Seq<Seq<char>> {
    kept(candidates(p))
}

/// The locations tried for a non-absolute logical path, in order, each
/// relative to the base directory.
pub open spec fn candidates(p: Seq<char>) -> Seq<Seq<char>> {
    if has_prefix(p, content_alias()) {
        seq![content_dir() + p.subrange(2, p.len() as int)]
    } else if has_prefix(p, content_dir()) || has_prefix(p, static_dir()) {
        seq![p]
    } else {
        seq![content_dir() + p, static_dir() + p, p]
    }
}

/// What resolving a logical path yields before any existence check: an
/// absolute path is refused; otherwise the locations are tried in order,
/// leaving out any that would climb above the base directory.
pub open spec fn resolution(p: Seq<char>) -> Result<Seq<Seq<char>>, ImageFnError> {
    if is_absolute(p) {
        Err(ImageFnError::AbsolutePath)
    } else {
        Ok(tried(p))
    }
}

/// The candidates held in `v`, as character sequences.
pub open spec fn views_of(v: Seq<String>) -> Seq<Seq<char>> {
    v.map_values(|s: String| s@)
}

/// The index of the first existing candidate among `n`, where `exists[i]`
/// tells whether candidate `i` exists and a missing entry counts as absent.
pub open spec fn first_existing(n: nat, exists: Seq<bool>) -> Option<nat>
    decreases n,
{
    if n == 0 {
        None
    } else {
        match first_existing((n - 1) as nat, exists) {
            Some(i) => Some(i),
            None => if (n - 1) < exists.len() && exists[n - 1] {
                Some((n - 1) as nat)
            } else {
                None
            },
        }
    }
}

fn has_prefix_exec(v: &Vec<char>, pre: &str) -> (r: bool)
    ensures
        r == has_prefix(v@, pre@),
{
    let p = chars_of(pre);
    if p.len() > v.len() {
        return false;
    }
    let mut i: usize = 0;
    while i < p.len()
        invariant
            p@ == pre@,
            p@.len() <= v@.len(),
            0 <= i <= p@.len(),
            forall|j: int| 0 <= j < i ==> v@[j] == p@[j],
        decreases p@.len() - i,
    {
        if v[i] != p[i] {
            assert(v@.subrange(0, p@.len() as int)[i as int] != p@[i as int]);
            return false;
        }
        i = i + 1;
    }
    assert(v@.subrange(0, p@.len() as int) =~= p@);
    true
}

fn climbs_above_exec(s: &String) -> (r: bool)
    ensures
        r == climbs_above(s@),
{
    let v = chars_of(s.as_str());
    let n = v.len();
    let mut depth: usize = 0;
    let mut kind = SegmentKind::Empty;
    let mut i: usize = 0;
    while i < n
        invariant
            n == v@.len(),
            v@ == s@,
            i <= n,
            depth <= i,
            walk(v@.subrange(0, i as int)) == (depth as int, kind, false),
        decreases n - i,
    {
        let c = v[i];
        assert(v@.subrange(0, i + 1).drop_last() =~= v@.subrange(0, i as int));
        assert(v@.subrange(0, i + 1).last() == c);
        if c == '/' {
            match kind {
                SegmentKind::Name => {
                    depth = depth + 1;
                },
                SegmentKind::DotDot => {
                    if depth == 0 {
                        proof {
                            assert(walk(v@.subrange(0, i + 1)).2);
                            lemma_climbed_stays(v@, i + 1);
                        }
                        return true;
                    }
                    depth = depth - 1;
                },
                _ => {},
            }
            kind = SegmentKind::Empty;
        } else {
            kind =
            if c == '.' {
                match kind {
                    SegmentKind::Empty => SegmentKind::Dot,
                    SegmentKind::Dot => SegmentKind::DotDot,
                    _ => SegmentKind::Name,
                }
            } else {
                SegmentKind::Name
            };
        }
        i = i + 1;
    }
    assert(v@.subrange(0, n as int) =~= v@);
    match kind {
        SegmentKind::DotDot => depth == 0,
        _ => false,
    }
}

/// Once a prefix has climbed above the starting directory, the whole path
/// has.
proof fn lemma_climbed_stays(p: Seq<char>, m: int)
    requires
        0 <= m <= p.len(),
        walk(p.subrange(0, m)).2,
    ensures
        climbs_above(p),
    decreases p.len() - m,
{
    if m == p.len() {
        assert(p.subrange(0, m) =~= p);
    } else {
        assert(p.subrange(0, m + 1).drop_last() =~= p.subrange(0, m));
        lemma_climbed_stays(p, m + 1);
    }
}

/// The candidate locations of the logical path `path`, in the order in which
/// they are tried, leaving out any that would climb above the base
/// directory; an absolute path is rejected.
pub fn candidate_paths(path: &str) -> (r: Result<Vec<String>, ImageFnError>)
    ensures
        match (r, resolution(path@)) {
            (Ok(v), Ok(c)) => views_of(v@) == c,
            (Err(e), Err(f)) => e == f,
            _ => false,
        },
{
    let v = chars_of(path);
    proof {
        reveal_strlit("@/");
        reveal_strlit("content/");
        reveal_strlit("static/");
        assert("@/"@ =~= content_alias());
        assert("content/"@ =~= content_dir());
        assert("static/"@ =~= static_dir());
    }
    if v.len() > 0 && v[0] == '/' {
        return Err(ImageFnError::AbsolutePath);
    }
    let mut out: Vec<String> = Vec::new();
    assert(v@.subrange(0, v@.len() as int) =~= v@);
    if has_prefix_exec(&v, "@/") {
        out.push(string_from("content/", &v, 2));
        assert(views_of(out@) =~= candidates(path@));
    } else if has_prefix_exec(&v, "content/") || has_prefix_exec(&v, "static/") {
        out.push(path.to_owned());
        assert(views_of(out@) =~= candidates(path@));
    } else {
        out.push(string_from("content/", &v, 0));
        out.push(string_from("static/", &v, 0));
        out.push(path.to_owned());
        assert(views_of(out@) =~= candidates(path@));
    }
    let mut kept_out: Vec<String> = Vec::new();
    let mut i: usize = 0;
    while i < out.len()
        invariant
            i <= out@.len(),
            views_of(out@) == candidates(path@),
            views_of(kept_out@) == kept(views_of(out@).subrange(0, i as int)),
        decreases out@.len() - i,
    {
        let ghost before = views_of(out@).subrange(0, i + 1);
        assert(before.drop_last() =~= views_of(out@).subrange(0, i as int));
        assert(before.last() == out@[i as int]@);
        if !climbs_above_exec(&out[i]) {
            kept_out.push(out[i].clone());
            assert(views_of(kept_out@) =~= kept(before));
        }
        i = i + 1;
    }
    assert(views_of(out@).subrange(0, out@.len() as int) =~= views_of(out@));
    Ok(kept_out)
}

/// The index of the first candidate that exists, given for each of the
/// `n` candidates whether it exists.
pub fn first_existing_index(n: usize, exists: &Vec<bool>) -> (r: Option<usize>)
    ensures
        r matches Some(i) ==> first_existing(n as nat, exists@) == Some(i as nat),
        r is None ==> first_existing(n as nat, exists@) is None,
{
    let mut i: usize = 0;
    while i < n && i < exists.len()
        invariant
            i <= n,
            first_existing(i as nat, exists@) is None,
        decreases n - i,
    {
        if exists[i] {
            assert(first_existing((i + 1) as nat, exists@) == Some(i as nat));
            proof {
                lemma_first_existing_stable((i + 1) as nat, n as nat, exists@);
            }
            return Some(i);
        }
        assert(first_existing((i + 1) as nat, exists@) is None);
        i = i + 1;
    }
    proof {
        lemma_first_existing_none_beyond(i as nat, n as nat, exists@);
    }
    None
}

/// The winner is the first existing candidate: it exists and none before it
/// does; where there is none, no candidate exists.
pub proof fn first_existing_is_first(n: nat, exists: Seq<bool>)
    ensures
        match first_existing(n, exists) {
            Some(i) => i < n && i < exists.len() && exists[i as int] && forall|j: int|
                0 <= j < i ==> !#[trigger] exists[j],
            None => forall|j: int| 0 <= j < n && j < exists.len() ==> !#[trigger] exists[j],
        },
    decreases n,
{
    if n > 0 {
        first_existing_is_first((n - 1) as nat, exists);
    }
}

proof fn lemma_first_existing_stable(m: nat, n: nat, exists: Seq<bool>)
    requires
        m <= n,
        first_existing(m, exists) is Some,
    ensures
        first_existing(n, exists) == first_existing(m, exists),
    decreases n - m,
{
    if m < n {
        lemma_first_existing_stable(m, (n - 1) as nat, exists);
    }
}

proof fn lemma_first_existing_none_beyond(m: nat, n: nat, exists: Seq<bool>)
    requires
        m <= n,
        first_existing(m, exists) is None,
        m == n || m >= exists.len(),
    ensures
        first_existing(n, exists) is None,
    decreases n - m,
{
    if m < n {
        lemma_first_existing_none_beyond(m, (n - 1) as nat, exists);
    }
}

/// A location lies under the site root: it is relative and, taken from the
/// base directory, never climbs above it.
pub open spec fn stays_under_root(c: Seq<char>) -> bool {
    !is_absolute(c) && !climbs_above(c)
}

/// What `kept` leaves does not climb, and comes from what it was given.
proof fn lemma_kept(s: Seq<Seq<char>>)
    ensures
        forall|k: int|
            0 <= k < kept(s).len() ==> !climbs_above(#[trigger] kept(s)[k]) && exists|j: int|
                0 <= j < s.len() && s[j] == kept(s)[k],
    decreases s.len(),
{
    if s.len() > 0 {
        let t = s.drop_last();
        lemma_kept(t);
        assert forall|k: int| 0 <= k < kept(s).len() implies !climbs_above(
            #[trigger] kept(s)[k],
        ) && exists|j: int| 0 <= j < s.len() && s[j] == kept(s)[k] by {
            if k < kept(t).len() {
                let j = choose|j: int| 0 <= j < t.len() && t[j] == kept(t)[k];
                assert(s[j] == kept(s)[k]);
            } else {
                assert(s[s.len() - 1] == kept(s)[k]);
            }
        }
    }
}

/// Every location tried for a logical path lies under the site root: at or
/// below the base directory, which holds the content and static roots.
pub proof fn candidates_stay_under_root(p: Seq<char>)
    ensures
        resolution(p) is Ok ==> forall|k: int|
            0 <= k < tried(p).len() ==> #[trigger] stays_under_root(tried(p)[k]),
{
    if !is_absolute(p) {
        let c = candidates(p);
        lemma_kept(c);
        assert forall|j: int| 0 <= j < c.len() implies !is_absolute(#[trigger] c[j]) by {
            if has_prefix(p, content_alias()) {
                assert(c[j][0] == 'c');
            } else if has_prefix(p, content_dir()) || has_prefix(p, static_dir()) {
            } else if j == 0 {
                assert(c[j][0] == 'c');
            } else if j == 1 {
                assert(c[j][0] == 's');
            }
        }
        assert forall|k: int| 0 <= k < tried(p).len() implies #[trigger] stays_under_root(
            tried(p)[k],
        ) by {
            let j = choose|j: int| 0 <= j < c.len() && c[j] == kept(c)[k];
            assert(!is_absolute(c[j]));
        }
    }
}

/// A path that starts with a path separator never resolves.
pub proof fn absolute_paths_never_resolve(p: Seq<char>)
    requires
        is_absolute(p),
    ensures
        resolution(p) is Err,
{
}

} // verus!
