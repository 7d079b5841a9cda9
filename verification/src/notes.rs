//! Small values that many contracts share: the view of an optional string,
//! the texts of a list of lines, and a list of lines that grows by a line
//! that may not be there.

use vstd::prelude::*;

verus! {

/// The view of an optional string.
pub open spec fn opt_view(text: Option<String>) -> Option<Seq<char>> {
    match text {
        Some(text) => Some(text@),
        None => None,
    }
}

/// The view of an optional string slice.
pub open spec fn opt_str_view(text: Option<&str>) -> Option<Seq<char>> {
    match text {
        Some(text) => Some(text@),
        None => None,
    }
}

/// The view of a result of two strings.
pub open spec fn result_view(result: Result<String, String>) -> Result<Seq<char>, Seq<char>> {
    match result {
        Ok(value) => Ok(value@),
        Err(error) => Err(error@),
    }
}

/// The texts of a list of strings.
pub open spec fn texts(lines: Seq<String>) -> Seq<Seq<char>> {
    lines.map_values(|line: String| line@)
}

/// A list with the text of `note` where there is one, and empty otherwise.
pub open spec fn note_list(note: Option<Seq<char>>) -> Seq<Seq<char>> {
    match note {
        Some(note) => seq![note],
        None => Seq::empty(),
    }
}

/// Adds a line to a list of lines where there is one.
pub fn push_optional(notes: &mut Vec<String>, note: Option<String>)
    ensures
        texts(final(notes)@) == texts(old(notes)@) + note_list(opt_view(note)),
{
    match note {
        Some(note) => {
            notes.push(note);
            assert(texts(notes@) =~= texts(old(notes)@) + seq![note@]);
        },
        None => {
            assert(texts(notes@) =~= texts(old(notes)@) + Seq::<Seq<char>>::empty());
        },
    }
}

/// An optional string as an optional slice.
pub fn opt_as_str(text: &Option<String>) -> (slice: Option<&str>)
    ensures
        opt_str_view(slice) == opt_view(*text),
{
    match text {
        Some(text) => Some(text.as_str()),
        None => None,
    }
}

/// A copy of an optional string.
pub fn clone_opt(text: &Option<String>) -> (copy: Option<String>)
    ensures
        opt_view(copy) == opt_view(*text),
{
    match text {
        Some(text) => Some(text.clone()),
        None => None,
    }
}

/// A copy of a list of strings.
pub fn clone_list(list: &Vec<String>) -> (copy: Vec<String>)
    ensures
        texts(copy@) == texts(list@),
{
    let mut copy: Vec<String> = Vec::new();
    let mut i: usize = 0;
    assert(texts(copy@) =~= texts(list@).take(0));
    while i < list.len()
        invariant
            i <= list.len(),
            texts(copy@) == texts(list@).take(i as int),
        decreases list.len() - i,
    {
        let ghost before = copy@;
        copy.push(list[i].clone());
        assert(texts(copy@) =~= texts(before).push(list@[i as int]@));
        assert(texts(list@).take(i + 1) =~= texts(list@).take(i as int).push(list@[i as int]@));
        i += 1;
    }
    assert(texts(list@).take(list.len() as int) =~= texts(list@));
    copy
}

} // verus!
