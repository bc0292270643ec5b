//! Paths as text: `/`-separated components, as on Unix.

use vstd::prelude::*;

verus! {

/// The name that `path` ends in, given `seg`, the part of the last component
/// already read from its right end. Empty components and `.` are skipped, as
/// path normalisation does; a path that ends in `..` or has no component left
/// has no name.
pub open spec fn name_before(path: Seq<char>, seg: Seq<char>) -> Option<Seq<char>>
    decreases path.len(),
{
    if path.len() == 0 || path.last() == '/' {
        if seg.len() == 0 || seg == seq!['.'] {
            if path.len() == 0 {
                None
            } else {
                name_before(path.drop_last(), Seq::empty())
            }
        } else if seg == seq!['.', '.'] {
            None
        } else {
            Some(seg)
        }
    } else {
        name_before(path.drop_last(), seq![path.last()] + seg)
    }
}

/// The final component of `path`, if it has one.
pub open spec fn file_name_of(path: Seq<char>) -> Option<Seq<char>> {
    name_before(path, Seq::empty())
}

/// `name` appended to `base` as a further component.
pub open spec fn joined(base: Seq<char>, name: Seq<char>) -> Seq<char> {
    if base.len() == 0 {
        name
    } else if base.last() == '/' {
        base + name
    } else {
        base + seq!['/'] + name
    }
}

/// Position of the first `c` in `s`, or the length of `s` where it has none.
pub open spec fn first_index_of(s: Seq<char>, c: char) -> int
    decreases s.len(),
{
    if s.len() == 0 {
        0
    } else if s[0] == c {
        0
    } else {
        1 + first_index_of(s.drop_first(), c)
    }
}

/// Position of the last `c` in `s`, or -1 where it has none.
pub open spec fn last_index_of(s: Seq<char>, c: char) -> int
    decreases s.len(),
{
    if s.len() == 0 {
        -1
    } else if s.last() == c {
        s.len() - 1
    } else {
        last_index_of(s.drop_last(), c)
    }
}

proof fn lemma_first_index_of(s: Seq<char>, c: char, i: int)
    requires
        0 <= i <= s.len(),
        forall|j: int| 0 <= j < i ==> s[j] != c,
        i == s.len() || s[i] == c,
    ensures
        first_index_of(s, c) == i,
    decreases s.len(),
{
    if s.len() > 0 && s[0] != c {
        assert forall|j: int| 0 <= j < i - 1 implies s.drop_first()[j] != c by {
            assert(s.drop_first()[j] == s[j + 1]);
        }
        lemma_first_index_of(s.drop_first(), c, i - 1);
    }
}

/// What the first `c` of `s` is: no `c` comes before it, and it is one where
/// it is within `s`.
pub proof fn lemma_first_index_of_bounds(s: Seq<char>, c: char)
    ensures
        0 <= first_index_of(s, c) <= s.len(),
        forall|j: int| 0 <= j < first_index_of(s, c) ==> s[j] != c,
        first_index_of(s, c) < s.len() ==> s[first_index_of(s, c)] == c,
    decreases s.len(),
{
    if s.len() > 0 && s[0] != c {
        lemma_first_index_of_bounds(s.drop_first(), c);
        assert forall|j: int| 0 <= j < first_index_of(s, c) implies s[j] != c by {
            if j > 0 {
                assert(s[j] == s.drop_first()[j - 1]);
            }
        }
    }
}

proof fn lemma_last_index_of(s: Seq<char>, c: char, i: int)
    requires
        -1 <= i < s.len(),
        forall|j: int| i < j < s.len() ==> s[j] != c,
        i == -1 || s[i] == c,
    ensures
        last_index_of(s, c) == i,
    decreases s.len(),
{
    if s.len() > 0 && s.last() != c {
        lemma_last_index_of(s.drop_last(), c, i);
    }
}

/// Finds the position of the first `c` in `s`.
pub fn find_first(s: &str, c: char) -> (k: usize)
    ensures
        k == first_index_of(s@, c),
        k <= s@.len(),
{
    let n = s.unicode_len();
    let mut k: usize = 0;
    while k < n && s.get_char(k) != c
        invariant
            n == s@.len(),
            k <= n,
            forall|j: int| 0 <= j < k ==> s@[j] != c,
        decreases n - k,
    {
        k += 1;
    }
    proof {
        lemma_first_index_of(s@, c, k as int);
    }
    k
}

/// Finds the position of the last `c` in `s`, if it holds one.
pub fn find_last(s: &str, c: char) -> (k: Option<usize>)
    ensures
        k matches Some(i) ==> i == last_index_of(s@, c) && i < s@.len(),
        k is None ==> last_index_of(s@, c) == -1,
{
    let mut k: usize = s.unicode_len();
    while k > 0 && s.get_char(k - 1) != c
        invariant
            k <= s@.len(),
            forall|j: int| k <= j < s@.len() ==> s@[j] != c,
        decreases k,
    {
        k -= 1;
    }
    proof {
        lemma_last_index_of(s@, c, k - 1);
    }
    if k == 0 {
        None
    } else {
        Some(k - 1)
    }
}

/// Returns the final component of `path`: `None` where the path is empty, is
/// the root, or ends in `..`.
pub fn file_name(path: &str) -> (r: Option<String>)
    ensures
        r matches Some(s) ==> file_name_of(path@) == Some(s@),
        r is None ==> file_name_of(path@) is None,
{
    let n = path.unicode_len();
    let mut i: usize = n;
    let mut end: usize = n;
    assert(path@.take(n as int) =~= path@);
    assert(path@.subrange(n as int, n as int) =~= Seq::<char>::empty());
    loop
        invariant
            n == path@.len(),
            i <= end <= n,
            name_before(path@.take(i as int), path@.subrange(i as int, end as int))
                == file_name_of(path@),
        decreases i,
    {
        if i == 0 || path.get_char(i - 1) == '/' {
            let len = end - i;
            if len == 0 || (len == 1 && path.get_char(i) == '.') {
                proof {
                    if len == 1 {
                        assert(path@.subrange(i as int, end as int) =~= seq!['.']);
                    }
                }
                if i == 0 {
                    return None;
                }
                assert(path@.take(i as int).drop_last() =~= path@.take(i - 1));
                assert(path@.subrange(i - 1, i - 1) =~= Seq::<char>::empty());
                i -= 1;
                end = i;
            } else if len == 2 && path.get_char(i) == '.' && path.get_char(i + 1) == '.' {
                assert(path@.subrange(i as int, end as int) =~= seq!['.', '.']);
                return None;
            } else {
                proof {
                    if len == 1 {
                        assert(path@.subrange(i as int, end as int) != seq!['.']) by {
                            assert(path@.subrange(i as int, end as int)[0] == path@[i as int]);
                        }
                    }
                    if len == 2 {
                        assert(path@.subrange(i as int, end as int) != seq!['.', '.']) by {
                            assert(path@.subrange(i as int, end as int)[0] == path@[i as int]);
                            assert(path@.subrange(i as int, end as int)[1] == path@[i + 1]);
                        }
                    }
                }
                return Some(String::from_str(path.substring_char(i, end)));
            }
        } else {
            assert(path@.take(i as int).drop_last() =~= path@.take(i - 1));
            assert(seq![path@.take(i as int).last()] + path@.subrange(i as int, end as int)
                =~= path@.subrange(i - 1, end as int));
            i -= 1;
        }
    }
}

/// Appends the relative component `name` to `base`, with one `/` between them.
pub fn join(base: &str, name: &str) -> (r: String)
    ensures
        r@ == joined(base@, name@),
{
    let n = base.unicode_len();
    let mut r = String::from_str(base);
    if n > 0 && base.get_char(n - 1) != '/' {
        proof {
            reveal_strlit("/");
        }
        r.append("/");
    }
    r.append(name);
    r
}

} // verus!
