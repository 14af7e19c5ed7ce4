use vstd::prelude::*;

use crate::strutil::push_char;

verus! {

/// The index just after the last occurrence of `c` in `s`, or zero when `c`
/// does not occur.
pub open spec fn after_last(s: Seq<char>, c: char) -> int
    decreases s.len(),
{
    if s.len() == 0 {
        0
    } else if s.last() == c {
        s.len() as int
    } else {
        after_last(s.drop_last(), c)
    }
}

pub proof fn lemma_after_last_bounds(s: Seq<char>, c: char)
    ensures
        0 <= after_last(s, c) <= s.len(),
        forall|i: int| after_last(s, c) <= i < s.len() ==> s[i] != c,
        after_last(s, c) > 0 ==> s[after_last(s, c) - 1] == c,
    decreases s.len(),
{
    if s.len() > 0 && s.last() != c {
        lemma_after_last_bounds(s.drop_last(), c);
        assert(forall|i: int| 0 <= i < s.len() - 1 ==> s[i] == s.drop_last()[i]);
    }
}

/// Finds the index just after the last occurrence of `c`.
pub fn afterLast(s: &str, c: char) -> (k: usize)
    ensures
        k == after_last(s@, c),
{
    let n = s.unicode_len();
    let mut i = n;
    proof {
        assert(s@.take(n as int) =~= s@);
    }
    while i > 0
        invariant
            i <= n,
            n == s@.len(),
            after_last(s@, c) == after_last(s@.take(i as int), c),
        decreases i,
    {
        let ch = s.get_char(i - 1);
        proof {
            assert(s@.take(i as int).last() == s@[i - 1]);
            if ch != c {
                assert(s@.take(i as int).drop_last() =~= s@.take(i as int - 1));
            }
        }
        if ch == c {
            return i;
        }
        i = i - 1;
    }
    proof {
        assert(s@.take(0) =~= Seq::<char>::empty());
    }
    0
}

/// How one path is placed under another: an absolute second path stands
/// alone; otherwise the two are joined with a single separator.
pub open spec fn joined_path(dir: Seq<char>, rel: Seq<char>) -> Seq<char> {
    if rel.len() > 0 && rel[0] == '/' {
        rel
    } else if dir.len() == 0 {
        rel
    } else if dir.last() == '/' {
        dir + rel
    } else {
        dir + seq!['/'] + rel
    }
}

/// Joins a directory and a path below it.
pub fn joinPath(dir: &str, rel: &str) -> (r: String)
    ensures
        r@ == joined_path(dir@, rel@),
{
    if rel.unicode_len() > 0 {
        if rel.get_char(0) == '/' {
            return rel.to_owned();
        }
    }
    let dn = dir.unicode_len();
    if dn == 0 {
        return rel.to_owned();
    }
    if dir.get_char(dn - 1) == '/' {
        let r = String::from_str(dir).concat(rel);
        proof {
            assert(dir@.last() == dir@[dn - 1]);
        }
        return r;
    }
    let mut s = String::from_str(dir);
    push_char(&mut s, '/');
    let r = s.concat(rel);
    proof {
        assert(dir@.push('/') =~= dir@ + seq!['/']);
    }
    r
}

/// The extension of a path's file name: what follows the last dot of the
/// last component, unless the dot only starts a hidden file's name.
pub open spec fn ext_of(p: Seq<char>) -> Seq<char> {
    let f = p.skip(after_last(p, '/'));
    let d = after_last(f, '.');
    if d <= 1 {
        Seq::<char>::empty()
    } else {
        f.skip(d)
    }
}

/// Extracts the extension of a path's file name, or an empty string.
pub fn extOf(p: &str) -> (r: String)
    ensures
        r@ == ext_of(p@),
{
    let n = p.unicode_len();
    let k = afterLast(p, '/');
    proof {
        lemma_after_last_bounds(p@, '/');
    }
    let f = p.substring_char(k, n);
    let d = afterLast(f, '.');
    proof {
        lemma_after_last_bounds(f@, '.');
    }
    if d <= 1 {
        String::new()
    } else {
        let fn_len = n - k;
        f.substring_char(d, fn_len).to_owned()
    }
}

/// A path given an extension: unchanged when the extension is empty, else
/// the extension is appended after a dot.
pub open spec fn with_ext(base: Seq<char>, ext: Seq<char>) -> Seq<char> {
    if ext.len() == 0 {
        base
    } else {
        base + seq!['.'] + ext
    }
}

/// Appends an extension, if there is one to append.
pub fn withExt(base: String, ext: &str) -> (r: String)
    ensures
        r@ == with_ext(base@, ext@),
{
    if ext.unicode_len() == 0 {
        base
    } else {
        let ghost b0 = base@;
        let mut s = base;
        push_char(&mut s, '.');
        let r = s.concat(ext);
        proof {
            assert(r@ =~= b0 + seq!['.'] + ext@);
        }
        r
    }
}

/// How a stored path is made root-relative: the root itself becomes the
/// empty path; a path under the root (with a separator at the boundary)
/// loses the root prefix; anything else does not lie under the root.
pub open spec fn root_relative(full: Seq<char>, root: Seq<char>) -> Option<Seq<char>> {
    if full == root {
        Some(Seq::<char>::empty())
    } else if root.len() > 0 && root.last() == '/' && full.len() > root.len() && full.take(
        root.len() as int,
    ) == root {
        Some(full.skip(root.len() as int))
    } else if full.len() > root.len() + 1 && full.take(root.len() as int) == root && full[root.len() as int]
        == '/' {
        Some(full.skip(root.len() as int + 1))
    } else {
        None
    }
}

/// Rewrites a canonical path to be relative to a canonical root, or reports
/// that it does not lie under the root.
pub fn stripRoot(full: &str, root: &str) -> (r: Option<String>)
    ensures
        r matches Some(rel) ==> root_relative(full@, root@) matches Some(s) && rel@ == s,
        r is None ==> root_relative(full@, root@) is None,
{
    let n_full = full.unicode_len();
    let n_root = root.unicode_len();
    if n_full == n_root {
        if full.to_owned() == root.to_owned() {
            proof {
                assert(full@ == root@);
            }
            return Some(String::new());
        }
        proof {
            assert(full@ != root@);
            assert(root_relative(full@, root@) is None);
        }
        return None;
    }
    if n_full < n_root {
        proof {
            assert(full@ != root@);
        }
        return None;
    }
    // n_full > n_root
    let prefix = full.substring_char(0, n_root);
    if !(prefix.to_owned() == root.to_owned()) {
        proof {
            assert(full@.take(n_root as int) != root@);
            assert(full@ != root@);
        }
        return None;
    }
    proof {
        assert(full@.take(n_root as int) == root@);
    }
    if n_root > 0 && root.get_char(n_root - 1) == '/' {
        proof {
            assert(root@.last() == root@[n_root - 1]);
        }
        return Some(full.substring_char(n_root, n_full).to_owned());
    }
    if full.get_char(n_root) == '/' {
        if n_full > n_root + 1 {
            return Some(full.substring_char(n_root + 1, n_full).to_owned());
        }
        // "root/" exactly: nothing below the root
        proof {
            assert(full@ != root@);
        }
        return None;
    }
    proof {
        assert(full@ != root@);
    }
    None
}

} // verus!
