//! Paths as strings: joining, and the file name and stem of an archive entry.
use vstd::prelude::*;

verus! {

/// `root` followed by `rel`, with one separator between them unless `root`
/// is empty or already ends in one.
pub open spec fn join_path(root: Seq<char>, rel: Seq<char>) -> Seq<char> {
    if root.len() == 0 || root.last() == '/' {
        root + rel
    } else {
        root + seq!['/'] + rel
    }
}

/// Joins `rel` onto `root`.
pub fn join_str(root: &str, rel: &str) -> (r: String)
    ensures
        r@ == join_path(root@, rel@),
{
    let mut r = String::from_str(root);
    let n = root.unicode_len();
    if n > 0 && root.get_char(n - 1) != '/' {
        proof {
            reveal_strlit("/");
        }
        r.append("/");
    }
    r.append(rel);
    proof {
        assert(r@ =~= join_path(root@, rel@));
    }
    r
}

/// Index just past the last `'/'` of `s[..end]`, or 0 where there is none.
pub open spec fn segment_start(s: Seq<char>, end: int) -> int
    decreases end,
{
    if end <= 0 {
        0
    } else if s[end - 1] == '/' {
        end
    } else {
        segment_start(s, end - 1)
    }
}

/// Length of `s[..end]` once its trailing separators, and the `.`
/// components that follow a separator, are dropped.
pub open spec fn trimmed_len(s: Seq<char>, end: int) -> int
    decreases end,
{
    if end <= 0 {
        0
    } else if s[end - 1] == '/' {
        trimmed_len(s, end - 1)
    } else if end >= 2 && s[end - 1] == '.' && s[end - 2] == '/' {
        trimmed_len(s, end - 2)
    } else {
        end
    }
}

/// The last component of a path, where it names a file or directory.
pub open spec fn file_name_of(path: Seq<char>) -> Option<Seq<char>> {
    let end = trimmed_len(path, path.len() as int);
    let name = path.subrange(segment_start(path, end), end);
    if name.len() == 0 || name == seq!['.'] || name == seq!['.', '.'] {
        None
    } else {
        Some(name)
    }
}

/// Index of the last `'.'` of `s[..end]`, or -1 where there is none.
pub open spec fn last_dot(s: Seq<char>, end: int) -> int
    decreases end,
{
    if end <= 0 {
        -1
    } else if s[end - 1] == '.' {
        end - 1
    } else {
        last_dot(s, end - 1)
    }
}

/// A file name without its final extension; a leading dot starts no extension.
pub open spec fn stem_of(name: Seq<char>) -> Seq<char> {
    let d = last_dot(name, name.len() as int);
    if d <= 0 {
        name
    } else {
        name.subrange(0, d)
    }
}

proof fn lemma_last_dot_bounds(s: Seq<char>, end: int)
    requires
        0 <= end <= s.len(),
    ensures
        -1 <= last_dot(s, end) < end,
    decreases end,
{
    if end > 0 && s[end - 1] != '.' {
        lemma_last_dot_bounds(s, end - 1);
    }
}

/// The last component of `path` (see `file_name_of`).
pub fn file_name(path: &str) -> (r: Option<String>)
    ensures
        r matches Some(n) ==> file_name_of(path@) == Some(n@),
        r is None ==> file_name_of(path@) is None,
{
    let len = path.unicode_len();
    let mut end: usize = len;
    loop
        invariant
            end <= len,
            len == path@.len(),
            trimmed_len(path@, end as int) == trimmed_len(path@, len as int),
        ensures
            end == trimmed_len(path@, len as int),
        decreases end,
    {
        if end > 0 && path.get_char(end - 1) == '/' {
            end = end - 1;
        } else if end >= 2 && path.get_char(end - 1) == '.' && path.get_char(end - 2) == '/' {
            end = end - 2;
        } else {
            break;
        }
    }
    let mut start: usize = end;
    while start > 0 && path.get_char(start - 1) != '/'
        invariant
            start <= end <= len,
            len == path@.len(),
            end == trimmed_len(path@, len as int),
            segment_start(path@, start as int) == segment_start(path@, end as int),
        decreases start,
    {
        start = start - 1;
    }
    let name = path.substring_char(start, end);
    let k = name.unicode_len();
    if k == 0 || (k == 1 && name.get_char(0) == '.') || (k == 2 && name.get_char(0) == '.'
        && name.get_char(1) == '.') {
        proof {
            if k == 1 {
                assert(name@ =~= seq!['.']);
            } else if k == 2 {
                assert(name@ =~= seq!['.', '.']);
            }
        }
        None
    } else {
        proof {
            if name@ == seq!['.'] {
                assert(name@[0] == '.');
            }
            if name@ == seq!['.', '.'] {
                assert(name@[0] == '.' && name@[1] == '.');
            }
        }
        Some(String::from_str(name))
    }
}

/// The file name `name` without its final extension (see `stem_of`).
pub fn file_stem(name: &str) -> (r: String)
    ensures
        r@ == stem_of(name@),
{
    let len = name.unicode_len();
    let mut i: usize = len;
    while i > 0 && name.get_char(i - 1) != '.'
        invariant
            i <= len,
            len == name@.len(),
            last_dot(name@, i as int) == last_dot(name@, len as int),
        decreases i,
    {
        i = i - 1;
    }
    if i <= 1 {
        proof {
            lemma_last_dot_bounds(name@, len as int);
        }
        String::from_str(name)
    } else {
        String::from_str(name.substring_char(0, i - 1))
    }
}

} // verus!
