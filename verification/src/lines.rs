//! Lines and whitespace-delimited tokens of a text.

use vstd::prelude::*;
use vstd::slice::slice_subrange;
use crate::search::{
    chars_occur_at, lemma_position_of, position_from, position_of, starts_with,
};
use crate::text::{char_is_whitespace, is_whitespace, trim_start};

verus! {

/// A line without the carriage return that may end it.
pub open spec fn strip_cr(line: Seq<char>) -> Seq<char> {
    if line.len() > 0 && line.last() == '\r' {
        line.drop_last()
    } else {
        line
    }
}

/// The lines of a text. A line ends at a line feed; the line feed, and a
/// carriage return directly before it, belong to no line. What follows the
/// last line feed is a line of its own unless it is empty.
pub open spec fn split_lines(s: Seq<char>) -> Seq<Seq<char>>
    decreases s.len(),
{
    let end = position_of(s, '\n');
    if s.len() == 0 {
        Seq::empty()
    } else if 0 <= end < s.len() {
        seq![strip_cr(s.take(end))] + split_lines(s.skip(end + 1))
    } else {
        seq![s]
    }
}

/// The first line of a text, if it has one.
pub open spec fn first_line(s: Seq<char>) -> Option<Seq<char>> {
    if s.len() == 0 {
        None
    } else {
        Some(split_lines(s)[0])
    }
}

/// The line that starts at `start`: the index behind its last character and
/// the index at which the next line starts.
pub fn line_at(v: &[char], start: usize) -> (bounds: (usize, usize))
    requires
        start < v.len(),
    ensures
        start <= bounds.0 <= bounds.1 <= v.len(),
        start < bounds.1,
        split_lines(v@.skip(start as int)) == seq![v@.subrange(start as int, bounds.0 as int)]
            + split_lines(v@.skip(bounds.1 as int)),
{
    let ghost rest = v@.skip(start as int);
    let feed = position_from(v, '\n', start);
    proof {
        lemma_position_of(rest, '\n');
    }
    if feed < v.len() {
        let end = if feed > start && v[feed - 1] == '\r' {
            feed - 1
        } else {
            feed
        };
        proof {
            let raw = rest.take(feed - start);
            assert(raw =~= v@.subrange(start as int, feed as int));
            assert(strip_cr(raw) =~= v@.subrange(start as int, end as int));
            assert(rest.skip(feed - start + 1) =~= v@.skip(feed + 1));
        }
        (end, feed + 1)
    } else {
        proof {
            assert(rest =~= v@.subrange(start as int, v.len() as int));
            assert(v@.skip(v.len() as int) =~= Seq::<char>::empty());
            assert(seq![rest] + Seq::<Seq<char>>::empty() =~= seq![rest]);
        }
        (v.len(), v.len())
    }
}

/// How many characters stand before the first whitespace.
pub open spec fn token_len(s: Seq<char>) -> int
    decreases s.len(),
{
    if s.len() == 0 || is_whitespace(s[0]) {
        0
    } else {
        1 + token_len(s.drop_first())
    }
}

/// `token_len` stays within the text, stops at whitespace and passes over
/// none.
pub proof fn lemma_token_len(s: Seq<char>)
    ensures
        0 <= token_len(s) <= s.len(),
        token_len(s) < s.len() ==> is_whitespace(s[token_len(s)]),
        forall|j: int| 0 <= j < token_len(s) ==> !is_whitespace(#[trigger] s[j]),
        s.len() > 0 && !is_whitespace(s[0]) ==> token_len(s) > 0,
    decreases s.len(),
{
    if s.len() == 0 || is_whitespace(s[0]) {
    } else {
        let t = s.drop_first();
        lemma_token_len(t);
        assert forall|j: int| 0 <= j < token_len(s) implies !is_whitespace(#[trigger] s[j]) by {
            if j > 0 {
                assert(s[j] == t[j - 1]);
            }
        }
    }
}

/// The whitespace-delimited token with the given number, counted from zero.
pub open spec fn nth_token(s: Seq<char>, n: nat) -> Option<Seq<char>>
    decreases n,
{
    let body = trim_start(s);
    if body.len() == 0 {
        None
    } else if n == 0 {
        Some(body.take(token_len(body)))
    } else {
        nth_token(body.skip(token_len(body)), (n - 1) as nat)
    }
}

/// The index of the first character from `from` on that is no whitespace.
pub fn skip_whitespace(v: &[char], from: usize) -> (at: usize)
    requires
        from <= v.len(),
    ensures
        from <= at <= v.len(),
        v@.skip(at as int) == trim_start(v@.skip(from as int)),
{
    let mut at: usize = from;
    while at < v.len() && char_is_whitespace(v[at])
        invariant
            from <= at <= v.len(),
            trim_start(v@.skip(from as int)) == trim_start(v@.skip(at as int)),
        decreases v.len() - at,
    {
        assert(v@.skip(at as int).drop_first() =~= v@.skip(at as int + 1));
        at += 1;
    }
    at
}

/// The index of the first whitespace from `from` on.
pub fn token_end(v: &[char], from: usize) -> (at: usize)
    requires
        from <= v.len(),
    ensures
        from <= at <= v.len(),
        at - from == token_len(v@.skip(from as int)),
{
    let mut at: usize = from;
    while at < v.len() && !char_is_whitespace(v[at])
        invariant
            from <= at <= v.len(),
            token_len(v@.skip(from as int)) == (at - from) + token_len(v@.skip(at as int)),
        decreases v.len() - at,
    {
        assert(v@.skip(at as int).drop_first() =~= v@.skip(at as int + 1));
        at += 1;
    }
    at
}

/// Where the token with the given number lies in `v`.
pub fn token_bounds(v: &[char], n: usize) -> (bounds: Option<(usize, usize)>)
    ensures
        bounds.is_some() == nth_token(v@, n as nat).is_some(),
        bounds.is_some() ==> bounds.unwrap().0 <= bounds.unwrap().1 <= v.len() && v@.subrange(
            bounds.unwrap().0 as int,
            bounds.unwrap().1 as int,
        ) == nth_token(v@, n as nat).unwrap(),
{
    let mut from: usize = 0;
    let mut left: usize = n;
    assert(v@.skip(0) =~= v@);
    loop
        invariant
            from <= v.len(),
            nth_token(v@, n as nat) == nth_token(v@.skip(from as int), left as nat),
        decreases left,
    {
        let start = skip_whitespace(v, from);
        if start == v.len() {
            return None;
        }
        let end = token_end(v, start);
        let ghost body = v@.skip(start as int);
        if left == 0 {
            proof {
                assert(body.take(end - start) =~= v@.subrange(start as int, end as int));
            }
            return Some((start, end));
        }
        proof {
            assert(body.skip(end - start) =~= v@.skip(end as int));
        }
        from = end;
        left -= 1;
    }
}

/// What follows `prefix` in the first of the lines that starts with it.
pub open spec fn first_with_prefix(lines: Seq<Seq<char>>, prefix: Seq<char>) -> Option<Seq<char>>
    decreases lines.len(),
{
    if lines.len() == 0 {
        None
    } else if starts_with(lines[0], prefix) {
        Some(lines[0].skip(prefix.len() as int))
    } else {
        first_with_prefix(lines.drop_first(), prefix)
    }
}

/// In a list of lines of which none but perhaps the last starts with the
/// prefix, the search goes on in what follows.
pub proof fn lemma_first_with_prefix_skips(
    seen: Seq<Seq<char>>,
    rest: Seq<Seq<char>>,
    prefix: Seq<char>,
)
    requires
        forall|i: int| 0 <= i < seen.len() ==> !starts_with(#[trigger] seen[i], prefix),
    ensures
        first_with_prefix(seen + rest, prefix) == first_with_prefix(rest, prefix),
    decreases seen.len(),
{
    if seen.len() == 0 {
        assert(seen + rest =~= rest);
    } else {
        assert((seen + rest)[0] == seen[0]);
        assert((seen + rest).drop_first() =~= seen.drop_first() + rest);
        assert forall|i: int| 0 <= i < seen.drop_first().len() implies !starts_with(
            #[trigger] seen.drop_first()[i],
            prefix,
        ) by {
            assert(seen.drop_first()[i] == seen[i + 1]);
        }
        lemma_first_with_prefix_skips(seen.drop_first(), rest, prefix);
    }
}

/// Where in `v` the rest of the first line lies that starts with `prefix`.
pub fn find_line_with_prefix(v: &[char], prefix: &[char]) -> (bounds: Option<(usize, usize)>)
    ensures
        bounds.is_some() == first_with_prefix(split_lines(v@), prefix@).is_some(),
        bounds.is_some() ==> bounds.unwrap().0 <= bounds.unwrap().1 <= v.len() && v@.subrange(
            bounds.unwrap().0 as int,
            bounds.unwrap().1 as int,
        ) == first_with_prefix(split_lines(v@), prefix@).unwrap(),
{
    let mut start: usize = 0;
    let ghost mut seen: Seq<Seq<char>> = Seq::empty();
    assert(v@.skip(0) =~= v@);
    assert(seen + split_lines(v@) =~= split_lines(v@));
    while start < v.len()
        invariant
            start <= v.len(),
            split_lines(v@) == seen + split_lines(v@.skip(start as int)),
            forall|i: int| 0 <= i < seen.len() ==> !starts_with(#[trigger] seen[i], prefix@),
        decreases v.len() - start,
    {
        let (end, next) = line_at(v, start);
        let line = slice_subrange(v, start, end);
        let ghost rest = split_lines(v@.skip(next as int));
        if chars_occur_at(line, prefix, 0) {
            proof {
                lemma_first_with_prefix_skips(seen, seq![line@] + rest, prefix@);
                assert((seq![line@] + rest)[0] == line@);
                assert(line@.skip(prefix.len() as int) =~= v@.subrange(
                    start + prefix.len(),
                    end as int,
                ));
            }
            return Some((start + prefix.len(), end));
        }
        proof {
            assert(seen + (seq![line@] + rest) =~= seen.push(line@) + rest);
            seen = seen.push(line@);
        }
        start = next;
    }
    proof {
        assert(v@.skip(v.len() as int) =~= Seq::<char>::empty());
        assert(seen + Seq::<Seq<char>>::empty() =~= seen);
        lemma_first_with_prefix_skips(seen, Seq::empty(), prefix@);
    }
    None
}

} // verus!
