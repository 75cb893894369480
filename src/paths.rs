//! Paths as character sequences with `/` as the separator.
use vstd::prelude::*;

verus! {

/// The path `s` with every leading `~/` removed.
pub open spec fn strip_home_marker(s: Seq<char>) -> Seq<char>
    decreases s.len(),
{
    if s.len() >= 2 && s[0] == '~' && s[1] == '/' {
        strip_home_marker(s.skip(2))
    } else {
        s
    }
}

/// `rel` placed under `base`: an absolute `rel` stands alone, and a separator is
/// put in between unless `base` is empty or already ends with one.
pub open spec fn join_path(base: Seq<char>, rel: Seq<char>) -> Seq<char> {
    if rel.len() > 0 && rel[0] == '/' {
        rel
    } else if base.len() == 0 || base.last() == '/' {
        base + rel
    } else {
        base + seq!['/'] + rel
    }
}

pub open spec fn starts_with(s: Seq<char>, p: Seq<char>) -> bool {
    p.len() <= s.len() && s.take(p.len() as int) == p
}

/// The part of `path` below `root`, if `path` lies at or under `root`; every
/// path lies under the empty root.
pub open spec fn relative_to(root: Seq<char>, path: Seq<char>) -> Option<Seq<char>> {
    if root.len() == 0 {
        Some(path)
    } else if starts_with(path, root) {
        let rest = path.skip(root.len() as int);
        if rest.len() == 0 {
            Some(rest)
        } else if rest[0] == '/' {
            Some(rest.skip(1))
        } else if root.len() > 0 && root.last() == '/' {
            Some(rest)
        } else {
            None
        }
    } else {
        None
    }
}

pub open spec fn git_dir_name() -> Seq<char> {
    seq!['.', 'g', 'i', 't']
}

/// A relative path whose first component is the repository's `.git` directory.
pub open spec fn is_internal(rel: Seq<char>) -> bool {
    starts_with(rel, git_dir_name()) && (rel.len() == 4 || rel[4] == '/')
}

/// The directory part of `p`: everything before its last separator (the root
/// itself when that separator is the first character, empty when there is none).
pub open spec fn parent_dir(p: Seq<char>) -> Seq<char>
    decreases p.len(),
{
    if p.len() == 0 {
        p
    } else if p.last() == '/' {
        if p.len() == 1 {
            p
        } else {
            p.drop_last()
        }
    } else {
        parent_dir(p.drop_last())
    }
}

/// Removes every leading `~/` from a path given relative to the home directory.
pub fn strip_home_marker_of(s: &str) -> (r: String)
    ensures
        r@ == strip_home_marker(s@),
{
    let n = s.unicode_len();
    let mut i: usize = 0;
    assert(s@.skip(0) =~= s@);
    while n - i >= 2 && s.get_char(i) == '~' && s.get_char(i + 1) == '/'
        invariant
            i <= n,
            n == s@.len(),
            strip_home_marker(s@.skip(i as int)) == strip_home_marker(s@),
        decreases n - i,
    {
        assert(s@.skip(i as int).skip(2) =~= s@.skip(i + 2));
        i = i + 2;
    }
    let rest = s.substring_char(i, n);
    assert(rest@ =~= s@.skip(i as int));
    String::from_str(rest)
}

/// Whether `s` begins with `p`.
pub fn has_prefix(s: &str, p: &str) -> (r: bool)
    ensures
        r == starts_with(s@, p@),
{
    let n = s.unicode_len();
    let m = p.unicode_len();
    if m > n {
        return false;
    }
    let mut i: usize = 0;
    while i < m
        invariant
            i <= m,
            m <= n,
            n == s@.len(),
            m == p@.len(),
            forall|j: int| 0 <= j < i ==> s@[j] == p@[j],
        decreases m - i,
    {
        if s.get_char(i) != p.get_char(i) {
            assert(s@.take(m as int)[i as int] != p@[i as int]);
            return false;
        }
        i = i + 1;
    }
    assert(s@.take(m as int) =~= p@);
    true
}

/// `rel` placed under `base`.
pub fn join(base: &str, rel: &str) -> (r: String)
    ensures
        r@ == join_path(base@, rel@),
{
    let nb = base.unicode_len();
    let nr = rel.unicode_len();
    if nr > 0 && rel.get_char(0) == '/' {
        return String::from_str(rel);
    }
    let mut r = String::from_str(base);
    if !(nb == 0 || base.get_char(nb - 1) == '/') {
        let sep = "/";
        proof {
            reveal_strlit("/");
        }
        r.append(sep);
    }
    r.append(rel);
    r
}

/// The part of `path` below `root`, if `path` lies at or under `root`.
pub fn relative_path(root: &str, path: &str) -> (r: Option<String>)
    ensures
        r matches Some(x) ==> relative_to(root@, path@) == Some(x@),
        r is None ==> relative_to(root@, path@) is None,
{
    let k = root.unicode_len();
    if k == 0 {
        return Some(String::from_str(path));
    }
    if !has_prefix(path, root) {
        return None;
    }
    let n = path.unicode_len();
    let rest = path.substring_char(k, n);
    assert(rest@ =~= path@.skip(k as int));
    if k == n {
        Some(String::from_str(rest))
    } else if path.get_char(k) == '/' {
        let tail = path.substring_char(k + 1, n);
        assert(tail@ =~= rest@.skip(1));
        Some(String::from_str(tail))
    } else if k > 0 && root.get_char(k - 1) == '/' {
        Some(String::from_str(rest))
    } else {
        None
    }
}

/// Whether a path relative to the repository's root lies in its `.git` directory.
pub fn is_internal_path(rel: &str) -> (r: bool)
    ensures
        r == is_internal(rel@),
{
    let g = ".git";
    proof {
        reveal_strlit(".git");
    }
    assert(g@ =~= git_dir_name());
    if !has_prefix(rel, g) {
        return false;
    }
    let n = rel.unicode_len();
    n == 4 || rel.get_char(4) == '/'
}

/// The directory part of `p`.
pub fn parent_of(p: &str) -> (r: String)
    ensures
        r@ == parent_dir(p@),
{
    let n = p.unicode_len();
    let mut k: usize = n;
    assert(p@.take(n as int) =~= p@);
    while k > 0 && p.get_char(k - 1) != '/'
        invariant
            k <= n,
            n == p@.len(),
            parent_dir(p@.take(k as int)) == parent_dir(p@),
        decreases k,
    {
        assert(p@.take(k as int).drop_last() =~= p@.take(k - 1));
        k = k - 1;
    }
    if k == 0 {
        assert(p@.take(0) =~= Seq::<char>::empty());
        return String::from_str(p.substring_char(0, 0));
    }
    if k == 1 {
        let r = p.substring_char(0, 1);
        assert(r@ =~= p@.take(1));
        String::from_str(r)
    } else {
        let r = p.substring_char(0, k - 1);
        assert(r@ =~= p@.take(k as int).drop_last());
        String::from_str(r)
    }
}

/// A relative path placed under a non-empty base is found below it again.
pub proof fn lemma_relative_of_join(base: Seq<char>, rel: Seq<char>)
    requires
        base.len() > 0,
        !(rel.len() > 0 && rel[0] == '/'),
    ensures
        relative_to(base, join_path(base, rel)) == Some(rel),
{
    let j = join_path(base, rel);
    assert(j.take(base.len() as int) =~= base);
    if base.last() == '/' {
        assert(j.skip(base.len() as int) =~= rel);
    } else {
        assert(j.skip(base.len() as int) =~= seq!['/'] + rel);
        assert(j.skip(base.len() as int).skip(1) =~= rel);
    }
}

} // verus!
