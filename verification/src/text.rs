//! Character-level helpers on string slices.

use vstd::prelude::*;
use vstd::string::*;

verus! {

/// Position of the first occurrence of `c` in `s`, if any.
pub open spec fn is_first_occurrence(s: Seq<char>, c: char, i: int) -> bool {
    &&& 0 <= i < s.len()
    &&& s[i] == c
    &&& forall|j: int| 0 <= j < i ==> s[j] != c
}

/// Two string slices hold the same characters.
pub fn str_eq(a: &str, b: &str) -> (r: bool)
    ensures
        r == (a@ == b@),
{
    let n = a.unicode_len();
    let m = b.unicode_len();
    if n != m {
        return false;
    }
    let mut i: usize = 0;
    while i < n
        invariant
            n == a@.len(),
            m == b@.len(),
            n == m,
            i <= n,
            forall|j: int| 0 <= j < i ==> a@[j] == b@[j],
        decreases n - i,
    {
        if a.get_char(i) != b.get_char(i) {
            return false;
        }
        i = i + 1;
    }
    assert(a@ =~= b@);
    true
}

/// Index of the first `c` in `s`, or `None` when `s` holds no `c`.
pub fn find_char(s: &str, c: char) -> (r: Option<usize>)
    ensures
        match r {
            Some(i) => is_first_occurrence(s@, c, i as int),
            None => !s@.contains(c),
        },
{
    let n = s.unicode_len();
    let mut i: usize = 0;
    while i < n
        invariant
            n == s@.len(),
            i <= n,
            forall|j: int| 0 <= j < i ==> s@[j] != c,
        decreases n - i,
    {
        if s.get_char(i) == c {
            return Some(i);
        }
        i = i + 1;
    }
    None
}

/// Whether `c` occurs in `s` at a position in `start..end`.
pub fn contains_char_in(s: &str, c: char, start: usize, end: usize) -> (r: bool)
    requires
        start <= end <= s@.len(),
    ensures
        r == s@.subrange(start as int, end as int).contains(c),
{
    let mut i: usize = start;
    while i < end
        invariant
            start <= i <= end <= s@.len(),
            forall|j: int| start <= j < i ==> s@[j] != c,
        decreases end - i,
    {
        if s.get_char(i) == c {
            assert(s@.subrange(start as int, end as int)[i - start] == c);
            return true;
        }
        i = i + 1;
    }
    assert forall|k: int| 0 <= k < end - start implies s@.subrange(start as int, end as int)[k]
        != c by {
        assert(s@[start + k] != c);
    }
    false
}

} // verus!
