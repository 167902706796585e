//! Texts: the view of an optional string, and the search for a separator
//! character.

use vstd::prelude::*;
use vstd::string::*;

verus! {

/// The text of an optional string.
pub open spec fn opt_text(s: Option<String>) -> Option<Seq<char>> {
    match s {
        Some(x) => Some(x@),
        None => None,
    }
}

/// The index of the first occurrence of `c` in `s`, or the length of `s`
/// where `c` does not occur.
pub open spec fn first_index_of(s: Seq<char>, c: char) -> int
    decreases s.len(),
{
    if s.len() == 0 {
        0
    } else if s[0] == c {
        0
    } else {
        1 + first_index_of(s.drop_first(), c)
    }
}

/// The part of `s` before the first occurrence of `c`; all of `s` where `c`
/// does not occur.
pub open spec fn segment_before(s: Seq<char>, c: char) -> Seq<char> {
    s.subrange(0, first_index_of(s, c))
}

/// The part of `s` behind the first occurrence of `c`; empty where `c` does
/// not occur.
pub open spec fn segment_after(s: Seq<char>, c: char) -> Seq<char> {
    if first_index_of(s, c) < s.len() {
        s.subrange(first_index_of(s, c) + 1, s.len() as int)
    } else {
        Seq::empty()
    }
}

/// `first_index_of` lies within the text.
pub proof fn lemma_first_index_bounds(s: Seq<char>, c: char)
    ensures
        0 <= first_index_of(s, c) <= s.len(),
    decreases s.len(),
{
    if s.len() > 0 && s[0] != c {
        lemma_first_index_bounds(s.drop_first(), c);
    }
}

/// An index with no `c` before it, which holds `c` or ends the text, is the
/// first index of `c`.
pub proof fn lemma_first_index_is(s: Seq<char>, c: char, i: int)
    requires
        0 <= i <= s.len(),
        forall|j: int| 0 <= j < i ==> s[j] != c,
        i < s.len() ==> s[i] == c,
    ensures
        first_index_of(s, c) == i,
    decreases i,
{
    if i > 0 {
        let t = s.drop_first();
        assert(s[0] != c);
        assert forall|j: int| 0 <= j < i - 1 implies t[j] != c by {
            assert(t[j] == s[j + 1]);
        }
        lemma_first_index_is(t, c, i - 1);
    }
}

/// Where `c` does not occur in `a`, its first index in `a + [c] + b` is the
/// length of `a`.
pub proof fn lemma_first_index_joined(a: Seq<char>, c: char, b: Seq<char>)
    requires
        !a.contains(c),
    ensures
        first_index_of(a + seq![c] + b, c) == a.len(),
        segment_before(a + seq![c] + b, c) == a,
        segment_after(a + seq![c] + b, c) == b,
{
    let s = a + seq![c] + b;
    assert forall|j: int| 0 <= j < a.len() implies s[j] != c by {
        assert(s[j] == a[j]);
        assert(a.contains(a[j]));
    }
    assert(s[a.len() as int] == c);
    lemma_first_index_is(s, c, a.len() as int);
    assert(s.subrange(0, a.len() as int) =~= a);
    assert(s.subrange(a.len() as int + 1, s.len() as int) =~= b);
}

/// Where `c` does not occur in `a`, its first index in `a` is the length.
pub proof fn lemma_first_index_absent(a: Seq<char>, c: char)
    requires
        !a.contains(c),
    ensures
        first_index_of(a, c) == a.len(),
        segment_before(a, c) == a,
{
    assert forall|j: int| 0 <= j < a.len() implies a[j] != c by {
        assert(a.contains(a[j]));
    }
    lemma_first_index_is(a, c, a.len() as int);
    assert(a.subrange(0, a.len() as int) =~= a);
}

/// Finds the first occurrence of `c` in `s` at or behind the index `from`.
/// Returns the length of `s` where there is none.
pub fn find_char(s: &str, from: usize, c: char) -> (r: usize)
    requires
        from <= s@.len(),
    ensures
        from <= r <= s@.len(),
        r - from == first_index_of(s@.subrange(from as int, s@.len() as int), c),
{
    let n: usize = s.unicode_len();
    let mut i: usize = from;
    while i < n && s.get_char(i) != c
        invariant
            from <= i <= n,
            n == s@.len(),
            forall|j: int| from <= j < i ==> s@[j] != c,
        decreases n - i,
    {
        i = i + 1;
    }
    proof {
        let t = s@.subrange(from as int, n as int);
        assert forall|j: int| 0 <= j < i - from implies t[j] != c by {
            assert(t[j] == s@[from + j]);
        }
        lemma_first_index_is(t, c, i - from);
    }
    i
}

} // verus!
