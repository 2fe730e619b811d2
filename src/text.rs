use vstd::prelude::*;

verus! {

/// The path `dir` joined with the relative component `name`: a separator is
/// put between them unless `dir` is empty or already ends with one.
pub open spec fn join_spec(dir: Seq<char>, name: Seq<char>) -> Seq<char> {
    if dir.len() == 0 || dir.last() == '/' {
        dir + name
    } else {
        dir + seq!['/'] + name
    }
}

/// The text view of an optional string.
pub open spec fn opt_view(o: Option<String>) -> Option<Seq<char>> {
    match o {
        Some(s) => Some(s@),
        None => None,
    }
}

/// Whether `needle` occurs in `hay` at position `i`.
pub open spec fn occurs_at(hay: Seq<char>, needle: Seq<char>, i: int) -> bool {
    0 <= i && i + needle.len() <= hay.len() && hay.subrange(i, i + needle.len()) == needle
}

/// Whether `needle` occurs anywhere in `hay`.
pub open spec fn contains_spec(hay: Seq<char>, needle: Seq<char>) -> bool {
    exists|i: int| occurs_at(hay, needle, i)
}

/// Whether no character of `s` is a path separator.
pub open spec fn no_separator(s: Seq<char>) -> bool {
    forall|i: int| 0 <= i < s.len() ==> s[i] != '/'
}

/// A path without its trailing separators.
pub open spec fn trim_end_spec(p: Seq<char>) -> Seq<char>
    decreases p.len(),
{
    if p.len() > 0 && p.last() == '/' {
        trim_end_spec(p.drop_last())
    } else {
        p
    }
}

/// What follows the last separator of a path (the whole text when it has
/// none).
pub open spec fn last_component_spec(p: Seq<char>) -> Seq<char>
    decreases p.len(),
{
    if p.len() == 0 {
        p
    } else if p.last() == '/' {
        seq![]
    } else {
        last_component_spec(p.drop_last()).push(p.last())
    }
}

/// The last component of a path, trailing separators ignored: `dir` for
/// both `/a/dir` and `/a/dir/`.
pub open spec fn file_name_spec(p: Seq<char>) -> Seq<char> {
    last_component_spec(trim_end_spec(p))
}

/// Character-wise equality of two strings.
pub fn str_equal(a: &str, b: &str) -> (r: bool)
    ensures
        r == (a@ == b@),
{
    let n = a.unicode_len();
    if n != b.unicode_len() {
        return false;
    }
    let mut i: usize = 0;
    while i < n
        invariant
            n == a@.len(),
            n == b@.len(),
            i <= n,
            a@.subrange(0, i as int) == b@.subrange(0, i as int),
        decreases n - i,
    {
        if a.get_char(i) != b.get_char(i) {
            return false;
        }
        assert(a@.subrange(0, i + 1) == a@.subrange(0, i as int).push(a@[i as int]));
        assert(b@.subrange(0, i + 1) == b@.subrange(0, i as int).push(b@[i as int]));
        i = i + 1;
    }
    assert(a@ == a@.subrange(0, n as int));
    assert(b@ == b@.subrange(0, n as int));
    true
}

fn occurs_at_exec(hay: &str, needle: &str, i: usize) -> (r: bool)
    requires
        i + needle@.len() <= hay@.len(),
    ensures
        r == occurs_at(hay@, needle@, i as int),
{
    let n = hay.unicode_len();
    let m = needle.unicode_len();
    let mut j: usize = 0;
    while j < m
        invariant
            n == hay@.len(),
            m == needle@.len(),
            i + m <= hay@.len(),
            j <= m,
            hay@.subrange(i as int, i + j) == needle@.subrange(0, j as int),
        decreases m - j,
    {
        if hay.get_char(i + j) != needle.get_char(j) {
            assert(hay@.subrange(i as int, i + m)[j as int] != needle@[j as int]);
            return false;
        }
        assert(hay@.subrange(i as int, i + j + 1) == hay@.subrange(i as int, i + j).push(
            hay@[i + j],
        ));
        assert(needle@.subrange(0, j + 1) == needle@.subrange(0, j as int).push(needle@[j as int]));
        j = j + 1;
    }
    assert(needle@ == needle@.subrange(0, m as int));
    true
}

/// Whether `needle` occurs in `hay`.
pub fn str_contains(hay: &str, needle: &str) -> (r: bool)
    ensures
        r == contains_spec(hay@, needle@),
{
    let n = hay.unicode_len();
    let m = needle.unicode_len();
    if m > n {
        assert(forall|i: int| !occurs_at(hay@, needle@, i));
        return false;
    }
    let last = n - m;
    let mut i: usize = 0;
    loop
        invariant
            n == hay@.len(),
            m == needle@.len(),
            last == n - m,
            i <= last,
            forall|k: int| 0 <= k < i ==> !occurs_at(hay@, needle@, k),
        decreases last - i,
    {
        if occurs_at_exec(hay, needle, i) {
            return true;
        }
        if i == last {
            assert(forall|k: int| !occurs_at(hay@, needle@, k));
            return false;
        }
        i = i + 1;
    }
}

/// Joins a directory and a relative path component.
pub fn path_join(dir: &str, name: &str) -> (r: String)
    ensures
        r@ == join_spec(dir@, name@),
{
    let n = dir.unicode_len();
    let mut out = String::from_str(dir);
    if n != 0 && dir.get_char(n - 1) != '/' {
        out.append("/");
        proof {
            reveal_strlit("/");
        }
    }
    out.append(name);
    out
}

/// The last component of a path.
pub fn file_name(path: &str) -> (r: String)
    ensures
        r@ == file_name_spec(path@),
        no_separator(r@),
{
    let len = path.unicode_len();
    let mut n: usize = len;
    assert(path@.subrange(0, len as int) =~= path@);
    while n > 0 && path.get_char(n - 1) == '/'
        invariant
            len == path@.len(),
            n <= len,
            trim_end_spec(path@) == trim_end_spec(path@.subrange(0, n as int)),
        decreases n,
    {
        assert(path@.subrange(0, n as int).drop_last() =~= path@.subrange(0, n - 1));
        n = n - 1;
    }
    let ghost t = path@.subrange(0, n as int);
    assert(trim_end_spec(t) == t);
    let mut start: usize = n;
    proof {
        assert(t.subrange(0, n as int) =~= t);
        assert(t.subrange(n as int, n as int) =~= Seq::<char>::empty());
        assert(last_component_spec(t) + Seq::<char>::empty() =~= last_component_spec(t));
    }
    while start > 0 && path.get_char(start - 1) != '/'
        invariant
            len == path@.len(),
            n <= len,
            t == path@.subrange(0, n as int),
            start <= n,
            forall|k: int| start <= k < n ==> t[k] != '/',
            last_component_spec(t) == last_component_spec(t.subrange(0, start as int)) + t.subrange(
                start as int,
                n as int,
            ),
        decreases start,
    {
        let ghost pre = t.subrange(0, start as int);
        assert(pre.drop_last() =~= t.subrange(0, start - 1));
        assert(t.subrange(start - 1, n as int) =~= seq![pre.last()] + t.subrange(
            start as int,
            n as int,
        ));
        start = start - 1;
    }
    proof {
        let pre = t.subrange(0, start as int);
        if start > 0 {
            assert(pre.last() == '/');
        }
        assert(last_component_spec(pre) == Seq::<char>::empty());
    }
    let r = path.substring_char(start, n);
    proof {
        assert(r@ =~= t.subrange(start as int, n as int));
    }
    String::from_str(r)
}

} // verus!
