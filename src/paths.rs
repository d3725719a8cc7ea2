//! Paths as text, with `/` as separator.
use vstd::prelude::*;

verus! {

/// Index of the last occurrence of `c` in `s`, or -1 when there is none.
pub open spec fn last_index_of(s: Seq<char>, c: char) -> int
    decreases s.len(),
{
    if s.len() == 0 {
        -1
    } else if s.last() == c {
        s.len() - 1
    } else {
        last_index_of(s.drop_last(), c)
    }
}

/// The last component of a path: the text after its last `/`.
pub open spec fn file_name_of(p: Seq<char>) -> Seq<char> {
    p.subrange(last_index_of(p, '/') + 1, p.len() as int)
}

/// The directory part of a path: the text before its last `/` (empty when
/// the path has none).
pub open spec fn parent_of(p: Seq<char>) -> Seq<char> {
    let k = last_index_of(p, '/');
    if k < 0 {
        Seq::empty()
    } else {
        p.subrange(0, k)
    }
}

/// A file name that names no file: empty, `.` or `..`.
pub open spec fn is_dot_name(n: Seq<char>) -> bool {
    n.len() == 0 || n == seq!['.'] || n == seq!['.', '.']
}

/// The extension of a file name: the text after its last `.`, provided that
/// dot is not the first character.
pub open spec fn extension_of(n: Seq<char>) -> Option<Seq<char>> {
    let d = last_index_of(n, '.');
    if is_dot_name(n) || d <= 0 {
        None
    } else {
        Some(n.subrange(d + 1, n.len() as int))
    }
}

/// The stem of a file name: the name without its extension; `unknown` for a
/// name that names no file.
pub open spec fn stem_of(n: Seq<char>) -> Seq<char> {
    let d = last_index_of(n, '.');
    if is_dot_name(n) {
        seq!['u', 'n', 'k', 'n', 'o', 'w', 'n']
    } else if d <= 0 {
        n
    } else {
        n.subrange(0, d)
    }
}

/// `name` placed under `base`: an absolute `name` stands alone, otherwise the
/// two are joined by exactly one `/`.
pub open spec fn join_of(base: Seq<char>, name: Seq<char>) -> Seq<char> {
    if name.len() > 0 && name[0] == '/' {
        name
    } else if base.len() == 0 {
        name
    } else if base.last() == '/' {
        base + name
    } else {
        base + seq!['/'] + name
    }
}

proof fn lemma_last_index_bounds(s: Seq<char>, c: char)
    ensures
        -1 <= last_index_of(s, c) < s.len(),
        last_index_of(s, c) >= 0 ==> s[last_index_of(s, c)] == c,
        forall|j: int| last_index_of(s, c) < j < s.len() ==> s[j] != c,
    decreases s.len(),
{
    if s.len() > 0 && s.last() != c {
        let t = s.drop_last();
        lemma_last_index_bounds(t, c);
        assert forall|j: int| last_index_of(s, c) < j < s.len() implies s[j] != c by {
            if j < s.len() - 1 {
                assert(s[j] == t[j]);
            }
        }
    }
}

/// A suffix free of `c` leaves the last occurrence of `c` where it was.
pub proof fn lemma_last_index_suffix(a: Seq<char>, b: Seq<char>, c: char)
    requires
        forall|i: int| 0 <= i < b.len() ==> b[i] != c,
    ensures
        last_index_of(a + b, c) == last_index_of(a, c),
    decreases b.len(),
{
    if b.len() > 0 {
        assert((a + b).drop_last() =~= a + b.drop_last());
        lemma_last_index_suffix(a, b.drop_last(), c);
    } else {
        assert(a + b =~= a);
    }
}

/// Position of the last `c` in `s`.
fn find_last(s: &str, c: char) -> (r: Option<usize>)
    ensures
        match r {
            Some(i) => i as int == last_index_of(s@, c),
            None => last_index_of(s@, c) == -1,
        },
{
    let n = s.unicode_len();
    let mut i: usize = n;
    assert(s@.subrange(0, n as int) =~= s@);
    while i > 0
        invariant
            i <= n,
            n == s@.len(),
            last_index_of(s@.subrange(0, i as int), c) == last_index_of(s@, c),
        decreases i,
    {
        let ch = s.get_char(i - 1);
        if ch == c {
            return Some(i - 1);
        }
        assert(s@.subrange(0, i as int).drop_last() =~= s@.subrange(0, i - 1));
        i = i - 1;
    }
    assert(s@.subrange(0, 0) =~= Seq::<char>::empty());
    None
}

/// The text of `s` from character `from` to character `to`.
fn slice(s: &str, from: usize, to: usize) -> (r: String)
    requires
        from <= to <= s@.len(),
    ensures
        r@ == s@.subrange(from as int, to as int),
{
    s.substring_char(from, to).to_owned()
}

/// The last component of `p`.
pub fn file_name(p: &str) -> (r: String)
    ensures
        r@ == file_name_of(p@),
{
    proof {
        lemma_last_index_bounds(p@, '/');
    }
    let n = p.unicode_len();
    match find_last(p, '/') {
        Some(k) => slice(p, k + 1, n),
        None => slice(p, 0, n),
    }
}

/// The directory part of `p`.
pub fn parent_dir(p: &str) -> (r: String)
    ensures
        r@ == parent_of(p@),
{
    proof {
        lemma_last_index_bounds(p@, '/');
    }
    match find_last(p, '/') {
        Some(k) => slice(p, 0, k),
        None => String::new(),
    }
}

fn is_dot_name_exec(n: &str) -> (r: bool)
    ensures
        r == is_dot_name(n@),
{
    let len = n.unicode_len();
    if len == 0 {
        true
    } else if len == 1 {
        let a = n.get_char(0);
        proof {
            if n@ == seq!['.'] {
                assert(n@[0] == '.');
            }
            if a == '.' {
                assert(n@ =~= seq!['.']);
            }
        }
        a == '.'
    } else if len == 2 {
        let a = n.get_char(0);
        let b = n.get_char(1);
        proof {
            if n@ == seq!['.', '.'] {
                assert(n@[0] == '.' && n@[1] == '.');
            }
            if a == '.' && b == '.' {
                assert(n@ =~= seq!['.', '.']);
            }
        }
        a == '.' && b == '.'
    } else {
        proof {
            assert(n@.len() != seq!['.'].len() && n@.len() != seq!['.', '.'].len());
        }
        false
    }
}

/// The extension of the file name `n`, if it has one.
pub fn extension(n: &str) -> (r: Option<String>)
    ensures
        match r {
            Some(e) => extension_of(n@) == Some(e@),
            None => extension_of(n@) is None,
        },
{
    proof {
        lemma_last_index_bounds(n@, '.');
    }
    if is_dot_name_exec(n) {
        return None;
    }
    let len = n.unicode_len();
    match find_last(n, '.') {
        Some(d) => {
            if d == 0 {
                None
            } else {
                Some(slice(n, d + 1, len))
            }
        },
        None => None,
    }
}

/// The stem of the file name `n`.
pub fn stem(n: &str) -> (r: String)
    ensures
        r@ == stem_of(n@),
{
    proof {
        lemma_last_index_bounds(n@, '.');
    }
    if is_dot_name_exec(n) {
        let u = "unknown";
        proof {
            reveal_strlit("unknown");
        }
        return u.to_owned();
    }
    match find_last(n, '.') {
        Some(d) => {
            if d == 0 {
                n.to_owned()
            } else {
                slice(n, 0, d)
            }
        },
        None => n.to_owned(),
    }
}

/// `name` placed under `base`.
pub fn join(base: &str, name: &str) -> (r: String)
    ensures
        r@ == join_of(base@, name@),
{
    let nl = name.unicode_len();
    let bl = base.unicode_len();
    if nl > 0 && name.get_char(0) == '/' {
        name.to_owned()
    } else if bl == 0 {
        name.to_owned()
    } else if base.get_char(bl - 1) == '/' {
        let mut r = base.to_owned();
        r.append(name);
        r
    } else {
        let mut r = base.to_owned();
        let sep = "/";
        proof {
            reveal_strlit("/");
        }
        r.append(sep);
        r.append(name);
        r
    }
}

} // verus!
