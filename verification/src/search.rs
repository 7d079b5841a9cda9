//! Finding one sequence inside another: the first place at which a pattern
//! occurs in a sequence of bytes or of characters.

use vstd::prelude::*;

verus! {

/// `needle` stands in `hay` at index `at`.
pub open spec fn occurs_at<T>(hay: Seq<T>, needle: Seq<T>, at: int) -> bool {
    0 <= at && at + needle.len() <= hay.len() && hay.subrange(at, at + needle.len()) == needle
}

/// The first index at or after `from` at which `needle` stands in `hay`.
pub open spec fn find_from<T>(hay: Seq<T>, needle: Seq<T>, from: int) -> Option<int>
    decreases hay.len() - from + 1,
{
    if from < 0 || from + needle.len() > hay.len() {
        None
    } else if occurs_at(hay, needle, from) {
        Some(from)
    } else {
        find_from(hay, needle, from + 1)
    }
}

/// The first index at which `needle` stands in `hay`.
pub open spec fn find<T>(hay: Seq<T>, needle: Seq<T>) -> Option<int> {
    find_from(hay, needle, 0)
}

/// `needle` occurs somewhere in `hay`.
pub open spec fn contains<T>(hay: Seq<T>, needle: Seq<T>) -> bool {
    find(hay, needle) is Some
}

/// `s` begins with `prefix`.
pub open spec fn starts_with<T>(s: Seq<T>, prefix: Seq<T>) -> bool {
    occurs_at(s, prefix, 0)
}

/// What `find_from` returns is the least index from `from` on at which the
/// pattern occurs, and it returns `None` only where there is no such index.
pub proof fn lemma_find_from_is_first<T>(hay: Seq<T>, needle: Seq<T>, from: int)
    requires
        0 <= from,
    ensures
        match find_from(hay, needle, from) {
            Some(at) => from <= at && occurs_at(hay, needle, at) && forall|j: int|
                from <= j < at ==> !occurs_at(hay, needle, j),
            None => forall|j: int| from <= j ==> !occurs_at(hay, needle, j),
        },
    decreases hay.len() - from + 1,
{
    if from + needle.len() > hay.len() {
    } else if occurs_at(hay, needle, from) {
    } else {
        lemma_find_from_is_first(hay, needle, from + 1);
    }
}

/// An occurrence with none before it is the one that `find` returns.
pub proof fn lemma_first_occurrence_is_found<T>(hay: Seq<T>, needle: Seq<T>, at: int)
    requires
        occurs_at(hay, needle, at),
        forall|j: int| 0 <= j < at ==> !occurs_at(hay, needle, j),
    ensures
        find(hay, needle) == Some(at),
{
    lemma_find_from_is_first(hay, needle, 0);
}

/// `contains` holds exactly where the pattern occurs at some index.
pub proof fn lemma_contains_iff_occurs<T>(hay: Seq<T>, needle: Seq<T>)
    ensures
        contains(hay, needle) <==> exists|at: int| occurs_at(hay, needle, at),
{
    lemma_find_from_is_first(hay, needle, 0);
    if contains(hay, needle) {
        assert(occurs_at(hay, needle, find(hay, needle).unwrap()));
    }
}

/// Whether `needle` stands in `hay` at `at`, for bytes.
pub fn bytes_occur_at(hay: &[u8], needle: &[u8], at: usize) -> (found: bool)
    ensures
        found == occurs_at(hay@, needle@, at as int),
{
    if needle.len() > hay.len() || at > hay.len() - needle.len() {
        return false;
    }
    let mut k: usize = 0;
    while k < needle.len()
        invariant
            k <= needle.len(),
            at + needle.len() <= hay.len(),
            forall|j: int| 0 <= j < k ==> hay@[at + j] == needle@[j],
        decreases needle.len() - k,
    {
        if hay[at + k] != needle[k] {
            assert(hay@.subrange(at as int, at + needle.len())[k as int] != needle@[k as int]);
            return false;
        }
        k += 1;
    }
    assert(hay@.subrange(at as int, at + needle.len()) =~= needle@);
    true
}

/// The first index from `from` on at which `needle` stands in `hay`, for
/// bytes.
pub fn find_bytes_from(hay: &[u8], needle: &[u8], from: usize) -> (found: Option<usize>)
    ensures
        found.is_some() == find_from(hay@, needle@, from as int).is_some(),
        found.is_some() ==> found.unwrap() as int == find_from(hay@, needle@, from as int).unwrap(),
{
    let mut at: usize = from;
    while at <= hay.len() && needle.len() <= hay.len() - at
        invariant
            from <= at,
            find_from(hay@, needle@, from as int) == find_from(hay@, needle@, at as int),
        decreases hay.len() - at,
    {
        if bytes_occur_at(hay, needle, at) {
            return Some(at);
        }
        assert(needle.len() > 0) by {
            if needle.len() == 0 {
                assert(hay@.subrange(at as int, at as int) =~= needle@);
            }
        }
        at += 1;
    }
    None
}

/// The first index at which `needle` stands in `hay`, for bytes.
pub fn find_bytes(hay: &[u8], needle: &[u8]) -> (found: Option<usize>)
    ensures
        found.is_some() == find(hay@, needle@).is_some(),
        found.is_some() ==> found.unwrap() as int == find(hay@, needle@).unwrap(),
{
    find_bytes_from(hay, needle, 0)
}

/// Whether `needle` stands in `hay` at `at`, for characters.
pub fn chars_occur_at(hay: &[char], needle: &[char], at: usize) -> (found: bool)
    ensures
        found == occurs_at(hay@, needle@, at as int),
{
    if needle.len() > hay.len() || at > hay.len() - needle.len() {
        return false;
    }
    let mut k: usize = 0;
    while k < needle.len()
        invariant
            k <= needle.len(),
            at + needle.len() <= hay.len(),
            forall|j: int| 0 <= j < k ==> hay@[at + j] == needle@[j],
        decreases needle.len() - k,
    {
        if hay[at + k] != needle[k] {
            assert(hay@.subrange(at as int, at + needle.len())[k as int] != needle@[k as int]);
            return false;
        }
        k += 1;
    }
    assert(hay@.subrange(at as int, at + needle.len()) =~= needle@);
    true
}

/// Whether `needle` occurs in `hay`, for characters.
pub fn chars_contain(hay: &[char], needle: &[char]) -> (found: bool)
    ensures
        found == contains(hay@, needle@),
{
    let mut at: usize = 0;
    while at <= hay.len() && needle.len() <= hay.len() - at
        invariant
            find(hay@, needle@) == find_from(hay@, needle@, at as int),
        decreases hay.len() - at,
    {
        if chars_occur_at(hay, needle, at) {
            return true;
        }
        assert(needle.len() > 0) by {
            if needle.len() == 0 {
                assert(hay@.subrange(at as int, at as int) =~= needle@);
            }
        }
        at += 1;
    }
    false
}

/// Whether `s` begins with `prefix`, for characters.
pub fn chars_start_with(s: &[char], prefix: &[char]) -> (found: bool)
    ensures
        found == starts_with(s@, prefix@),
{
    chars_occur_at(s, prefix, 0)
}

/// The index of the first `c` in `s`, or the length of `s` where there is
/// none.
pub open spec fn position_of(s: Seq<char>, c: char) -> int
    decreases s.len(),
{
    if s.len() == 0 || s[0] == c {
        0
    } else {
        1 + position_of(s.drop_first(), c)
    }
}

/// `position_of` stays within the text, points at `c` where it points at
/// anything, and passes over no `c`.
pub proof fn lemma_position_of(s: Seq<char>, c: char)
    ensures
        0 <= position_of(s, c) <= s.len(),
        position_of(s, c) < s.len() ==> s[position_of(s, c)] == c,
        forall|j: int| 0 <= j < position_of(s, c) ==> #[trigger] s[j] != c,
    decreases s.len(),
{
    if s.len() == 0 || s[0] == c {
    } else {
        let t = s.drop_first();
        lemma_position_of(t, c);
        assert forall|j: int| 0 <= j < position_of(s, c) implies #[trigger] s[j] != c by {
            if j > 0 {
                assert(s[j] == t[j - 1]);
            }
        }
    }
}

/// The index of the first `c` in `v` from `from` on, or the length of `v`.
pub fn position_from(v: &[char], c: char, from: usize) -> (at: usize)
    requires
        from <= v.len(),
    ensures
        from <= at <= v.len(),
        at - from == position_of(v@.skip(from as int), c),
{
    let mut at: usize = from;
    while at < v.len() && v[at] != c
        invariant
            from <= at <= v.len(),
            position_of(v@.skip(from as int), c) == (at - from) + position_of(
                v@.skip(at as int),
                c,
            ),
        decreases v.len() - at,
    {
        assert(v@.skip(at as int).drop_first() =~= v@.skip(at as int + 1));
        at += 1;
    }
    at
}

/// Whether `c` occurs in `v`.
pub fn chars_contain_char(v: &[char], c: char) -> (found: bool)
    ensures
        found == v@.contains(c),
{
    let at = position_from(v, c, 0);
    proof {
        assert(v@.skip(0) =~= v@);
        lemma_position_of(v@, c);
        if at < v.len() {
            assert(v@[at as int] == c);
        }
    }
    at < v.len()
}

} // verus!
