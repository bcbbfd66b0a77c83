pub mod events;
pub mod host_file;

pub use self::events::IoEvents;
pub use self::host_file::{HostFd, HostFdRegistry, HostFile};

use vstd::prelude::*;
use vstd::string::StrSliceExecFns;

verus! {

broadcast use vstd::string::group_string_axioms;

/// `p` with its trailing `'/'`s removed.
pub open spec fn trim_end_slashes(p: Seq<char>) -> Seq<char>
    decreases p.len(),
{
    if p.len() > 0 && p.last() == '/' {
        trim_end_slashes(p.drop_last())
    } else {
        p
    }
}

/// The position of the last `'/'` of `p`, if it has one.
pub open spec fn last_slash(p: Seq<char>) -> Option<int>
    decreases p.len(),
{
    if p.len() == 0 {
        None
    } else if p.last() == '/' {
        Some(p.len() - 1)
    } else {
        last_slash(p.drop_last())
    }
}

/// The `(base_path, file_name)` of a path: with the trailing `'/'`s removed, the
/// file name is what follows the last `'/'`, and the base path what precedes it,
/// or `"/"` where nothing does; a path with no `'/'` is a file name in `"."`.
pub open spec fn split_path_spec(p: Seq<char>) -> (Seq<char>, Seq<char>) {
    let t = trim_end_slashes(p);
    match last_slash(t) {
        None => (seq!['.'], t),
        Some(k) => (
            if k == 0 {
                seq!['/']
            } else {
                t.subrange(0, k)
            },
            t.subrange(k + 1, t.len() as int),
        ),
    }
}

/// Split a `path` str to `(base_path, file_name)`
pub fn split_path(path: &str) -> (r: (&str, &str))
    ensures
        r.0@ == split_path_spec(path@).0,
        r.1@ == split_path_spec(path@).1,
{
    let ghost p = path@;
    // Length (in chars) of `path` with its trailing '/'s removed.
    let mut end: usize = 0;
    // The last '/' seen so far.
    let mut cur_slash: Option<usize> = None;
    // The last '/' before `end`.
    let mut slash_before_end: Option<usize> = None;
    let mut i: usize = 0;
    let n = path.unicode_len();
    for c in it: path.chars()
        invariant
            p == path@,
            n == p.len(),
            it.seq() == p,
            i == it.index(),
            end <= i,
            trim_end_slashes(p.take(i as int)) == p.take(end as int),
            cur_slash matches Some(k) ==> k < i,
            slash_before_end matches Some(k) ==> k < end,
            last_slash(p.take(i as int)) == (match cur_slash {
                Some(k) => Some(k as int),
                None => None::<int>,
            }),
            last_slash(p.take(end as int)) == (match slash_before_end {
                Some(k) => Some(k as int),
                None => None::<int>,
            }),
    {
        assert(p.take(i + 1).drop_last() =~= p.take(i as int));
        assert(p.take(i + 1).last() == c);
        if c == '/' {
            cur_slash = Some(i);
        } else {
            end = i + 1;
            slash_before_end = cur_slash;
        }
        i = i + 1;
    }
    assert(i == n);
    assert(p.take(n as int) =~= p);
    let ghost t = p.take(end as int);
    match slash_before_end {
        None => {
            let file_name = path.substring_char(0, end);
            proof {
                reveal_strlit(".");
                assert(file_name@ =~= t);
            }
            (".", file_name)
        },
        Some(k) => {
            let file_name = path.substring_char(k + 1, end);
            assert(file_name@ =~= t.subrange(k + 1, t.len() as int));
            if k == 0 {
                proof {
                    reveal_strlit("/");
                }
                ("/", file_name)
            } else {
                let dir_path = path.substring_char(0, k);
                assert(dir_path@ =~= t.subrange(0, k as int));
                (dir_path, file_name)
            }
        },
    }
}


proof fn lemma_last_slash(s: Seq<char>)
    ensures
        match last_slash(s) {
            Some(k) => 0 <= k < s.len() && s[k] == '/' && forall|j: int|
                k < j < s.len() ==> s[j] != '/',
            None => forall|j: int| 0 <= j < s.len() ==> s[j] != '/',
        },
    decreases s.len(),
{
    if s.len() > 0 && s.last() != '/' {
        lemma_last_slash(s.drop_last());
        assert forall|j: int| 0 <= j < s.len() - 1 implies s.drop_last()[j] == s[j] by {}
    }
}

proof fn lemma_trim_end_slashes(s: Seq<char>)
    ensures
        trim_end_slashes(s).len() <= s.len(),
        trim_end_slashes(s) == s.take(trim_end_slashes(s).len() as int),
        trim_end_slashes(s).len() == 0 || trim_end_slashes(s).last() != '/',
        forall|j: int| trim_end_slashes(s).len() <= j < s.len() ==> s[j] == '/',
    decreases s.len(),
{
    if s.len() > 0 && s.last() == '/' {
        lemma_trim_end_slashes(s.drop_last());
        let t = trim_end_slashes(s.drop_last());
        assert(s.drop_last().take(t.len() as int) =~= s.take(t.len() as int));
        assert forall|j: int| t.len() <= j < s.len() implies s[j] == '/' by {
            if j < s.len() - 1 {
                assert(s.drop_last()[j] == s[j]);
            }
        }
    } else {
        assert(s.take(s.len() as int) =~= s);
    }
}

/// The file name of a path holds no `'/'`, and it is empty exactly when nothing
/// is left of the path once its trailing `'/'`s are removed.
pub proof fn lemma_split_path_file_name_has_no_slash(p: Seq<char>)
    ensures
        forall|j: int|
            0 <= j < split_path_spec(p).1.len() ==> split_path_spec(p).1[j] != '/',
        split_path_spec(p).1.len() == 0 <==> trim_end_slashes(p).len() == 0,
{
    let t = trim_end_slashes(p);
    lemma_last_slash(t);
    lemma_trim_end_slashes(p);
    match last_slash(t) {
        None => {},
        Some(k) => {
            let f = t.subrange(k + 1, t.len() as int);
            assert forall|j: int| 0 <= j < f.len() implies f[j] != '/' by {
                assert(f[j] == t[k + 1 + j]);
            }
            if f.len() == 0 {
                assert(t.last() == t[k]);
            }
        },
    }
}

/// Rejoining: with no `'/'` left after trimming, the file name is the whole
/// trimmed path and the base path is `"."`; with its last `'/'` first, the trimmed
/// path is `'/'` and the file name; otherwise it is the base path, `'/'` and the
/// file name.
pub proof fn lemma_split_path_rejoin(p: Seq<char>)
    ensures
        ({
            let t = trim_end_slashes(p);
            let (d, f) = split_path_spec(p);
            match last_slash(t) {
                None => d == seq!['.'] && f == t,
                Some(k) => if k == 0 {
                    d == seq!['/'] && t == seq!['/'] + f
                } else {
                    t == d + seq!['/'] + f
                },
            }
        }),
{
    let t = trim_end_slashes(p);
    lemma_last_slash(t);
    match last_slash(t) {
        None => {},
        Some(k) => {
            let f = t.subrange(k + 1, t.len() as int);
            if k == 0 {
                assert(t =~= seq!['/'] + f);
            } else {
                assert(t =~= t.subrange(0, k) + seq!['/'] + f);
            }
        },
    }
}

} // verus!
