//! Candidate selection: which paths name `.pyc` artifacts.

use vstd::prelude::*;

verus! {

/// `s` with every trailing separator and every trailing `"."` component
/// removed, mirroring how a path's final component is found: `"/a/b.pyc/"`,
/// `"/a/b.pyc/."` and `"/a/b.pyc/.//"` all name the same file as
/// `"/a/b.pyc"`.  (A trailing `".."` component is kept: a path ending in
/// `".."` names no file.)
pub open spec fn spec_trim_path(s: Seq<char>) -> Seq<char>
    decreases s.len(),
{
    if s.len() > 0 && s[s.len() - 1] == '/' {
        spec_trim_path(s.drop_last())
    } else if s.len() >= 2 && s[s.len() - 1] == '.' && s[s.len() - 2] == '/' {
        spec_trim_path(s.drop_last())
    } else {
        s
    }
}

/// The selection predicate: true exactly when the path's final extension
/// component equals `pyc` (case-sensitive).
///
/// After trailing separators and `"."` components are dropped, the path
/// must end in `".pyc"` with at least one further character of the file
/// name before the dot, so `foo.pyc`, `foo.opt-2.pyc` and `foo.pyc/.`
/// select, while `foo.apyc`, a bare `pyc` file name, and a hidden file
/// named exactly `.pyc` do not.
pub open spec fn spec_is_pyc_path(s: Seq<char>) -> bool {
    let t = spec_trim_path(s);
    &&& t.len() >= 5
    &&& t[t.len() - 4] == '.'
    &&& t[t.len() - 3] == 'p'
    &&& t[t.len() - 2] == 'y'
    &&& t[t.len() - 1] == 'c'
    &&& t[t.len() - 5] != '/'
}

/// Decides whether a path selects as a `.pyc` candidate.
pub fn filter(path: &str) -> (r: bool)
    ensures
        r == spec_is_pyc_path(path@),
{
    let n = path.unicode_len();
    let mut m = n;
    proof {
        assert(path@.subrange(0, n as int) =~= path@);
    }
    while m > 0 && (path.get_char(m - 1) == '/'
            || (m >= 2 && path.get_char(m - 1) == '.' && path.get_char(m - 2) == '/'))
        invariant
            m <= n,
            n == path@.len(),
            spec_trim_path(path@) == spec_trim_path(path@.subrange(0, m as int)),
        decreases m,
    {
        proof {
            assert(path@.subrange(0, m as int).drop_last() =~= path@.subrange(0, m - 1 as int));
        }
        m = m - 1;
    }
    if m < 5 {
        return false;
    }
    path.get_char(m - 4) == '.' && path.get_char(m - 3) == 'p'
        && path.get_char(m - 2) == 'y' && path.get_char(m - 1) == 'c'
        && path.get_char(m - 5) != '/'
}

} // verus!
