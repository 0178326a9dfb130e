//! Paths as plain strings with `/` separators: joining a component, and the
//! parent, file name and extension of a path.
use vstd::prelude::*;

verus! {

/// Index of the last `c` in `s`, or -1 when there is none.
pub open spec fn last_index_of(s: Seq<char>, c: char) -> int
    decreases s.len(),
{
    if s.len() == 0 {
        -1
    } else if s.last() == c {
        s.len() - 1
    } else {
        last_index_of(s.drop_last(), c)
    }
}

pub proof fn lemma_last_index_of(s: Seq<char>, c: char)
    ensures
        -1 <= last_index_of(s, c) < s.len(),
        last_index_of(s, c) >= 0 ==> s[last_index_of(s, c)] == c,
        forall|k: int| last_index_of(s, c) < k < s.len() ==> s[k] != c,
    decreases s.len(),
{
    if s.len() > 0 && s.last() != c {
        lemma_last_index_of(s.drop_last(), c);
        assert forall|k: int| last_index_of(s, c) < k < s.len() implies s[k] != c by {
            if k < s.len() - 1 {
                assert(s[k] == s.drop_last()[k]);
            }
        }
    }
}

/// `rel` appended to `base` as a path component: an absolute `rel` (one that
/// starts with `/`) replaces `base`, an empty `base` yields `rel`, and a
/// separator is put between them unless `base` already ends with one.
pub open spec fn join_spec(base: Seq<char>, rel: Seq<char>) -> Seq<char> {
    if rel.len() > 0 && rel[0] == '/' {
        rel
    } else if base.len() == 0 {
        rel
    } else if base.last() == '/' {
        base + rel
    } else {
        base + seq!['/'] + rel
    }
}

/// The path without its last component: `None` for the empty path and for
/// `/`, the empty path for a bare name, `/` for a name right under the root.
pub open spec fn parent_spec(p: Seq<char>) -> Option<Seq<char>> {
    let i = last_index_of(p, '/');
    if p.len() == 0 || p =~= seq!['/'] {
        None
    } else if i < 0 {
        Some(Seq::empty())
    } else if i == 0 {
        Some(seq!['/'])
    } else {
        Some(p.subrange(0, i))
    }
}

/// The last component of a path, when it is not empty.
pub open spec fn file_name_spec(p: Seq<char>) -> Option<Seq<char>> {
    let name = p.subrange(last_index_of(p, '/') + 1, p.len() as int);
    if name.len() == 0 {
        None
    } else {
        Some(name)
    }
}

/// What follows the last `.` of a file name, when that `.` is not its first
/// character.
pub open spec fn extension_spec(name: Seq<char>) -> Option<Seq<char>> {
    let j = last_index_of(name, '.');
    if j <= 0 {
        None
    } else {
        Some(name.subrange(j + 1, name.len() as int))
    }
}

/// Position of the last `c` in `s`.
fn find_last(s: &str, c: char) -> (r: Option<usize>)
    ensures
        match r {
            None => last_index_of(s@, c) == -1,
            Some(i) => last_index_of(s@, c) == i as int && (i as int) < s@.len(),
        },
{
    let n = s.unicode_len();
    let mut i: usize = n;
    assert(s@.subrange(0, n as int) =~= s@);
    while i > 0
        invariant
            i <= n == s@.len(),
            last_index_of(s@, c) == last_index_of(s@.subrange(0, i as int), c),
        decreases i,
    {
        let ghost pre = s@.subrange(0, i as int);
        assert(pre.drop_last() =~= s@.subrange(0, i - 1));
        if s.get_char(i - 1) == c {
            return Some(i - 1);
        }
        i = i - 1;
    }
    assert(s@.subrange(0, 0) =~= Seq::<char>::empty());
    None
}

/// `rel` joined to `base` as a path component.
pub fn join_path(base: &str, rel: &str) -> (r: String)
    ensures
        r@ == join_spec(base@, rel@),
{
    let rl = rel.unicode_len();
    if rl > 0 && rel.get_char(0) == '/' {
        return String::from_str(rel);
    }
    let bl = base.unicode_len();
    if bl == 0 {
        return String::from_str(rel);
    }
    let b = String::from_str(base);
    if base.get_char(bl - 1) == '/' {
        b.concat(rel)
    } else {
        proof {
            reveal_strlit("/");
        }
        let with_sep = b.concat("/");
        with_sep.concat(rel)
    }
}

/// The parent of `path`.
pub fn parent_path(path: &str) -> (r: Option<String>)
    ensures
        r matches Some(s) ==> parent_spec(path@) == Some(s@),
        r is None ==> parent_spec(path@) is None,
{
    let n = path.unicode_len();
    proof {
        reveal_strlit("/");
        reveal_strlit("");
    }
    if n == 0 || (n == 1 && path.get_char(0) == '/') {
        assert(n == 1 ==> (path@ =~= seq!['/'] <==> path@[0] == '/'));
        return None;
    }
    assert(!(path@ =~= seq!['/'])) by {
        if path@ =~= seq!['/'] {
            assert(path@.len() == 1 && path@[0] == '/');
        }
    }
    match find_last(path, '/') {
        None => Some(String::new()),
        Some(i) => {
            if i == 0 {
                Some(String::from_str("/"))
            } else {
                Some(String::from_str(path.substring_char(0, i)))
            }
        },
    }
}

/// The last component of `path`.
pub fn file_name(path: &str) -> (r: Option<String>)
    ensures
        r matches Some(s) ==> file_name_spec(path@) == Some(s@),
        r is None ==> file_name_spec(path@) is None,
{
    let n = path.unicode_len();
    let start: usize = match find_last(path, '/') {
        None => 0,
        Some(i) => i + 1,
    };
    proof {
        lemma_last_index_of(path@, '/');
    }
    if start >= n {
        None
    } else {
        Some(String::from_str(path.substring_char(start, n)))
    }
}

/// The extension of file name `name`.
pub fn extension(name: &str) -> (r: Option<String>)
    ensures
        r matches Some(s) ==> extension_spec(name@) == Some(s@),
        r is None ==> extension_spec(name@) is None,
{
    let n = name.unicode_len();
    proof {
        lemma_last_index_of(name@, '.');
    }
    match find_last(name, '.') {
        None => None,
        Some(j) => {
            if j == 0 {
                None
            } else {
                Some(String::from_str(name.substring_char(j + 1, n)))
            }
        },
    }
}

} // verus!
