//! The search path that the backend is started with: the supervisor's own,
//! with the directories in front in which tools are commonly installed.

use vstd::prelude::*;
use vstd::string::StringExecFns;
use crate::notes::{opt_str_view, opt_view, push_optional, texts};
use crate::numbers::{decimal_string, decimal_text};
use crate::paths::{
    join_path, join_path2, joined_path, joined_path2, normalize_path, normalized_path,
};
use crate::text::{chars_of, lower_chars, lowered, owned, str_equal, string_of};

verus! {

/// The platforms that differ in where tools are installed.
#[derive(Debug, Clone, Copy, PartialEq, Eq, Structural)]
pub enum PathPlatform {
    Windows,
    MacOs,
    Other,
}

/// The key by which two entries of a search path count as the same: the
/// normalized path, in lower case on Windows. An empty path has none.
pub open spec fn path_key_of(path: Seq<char>, is_windows: bool) -> Option<Seq<char>> {
    if path.len() == 0 {
        None
    } else if is_windows {
        Some(lowered(normalized_path(path)))
    } else {
        Some(normalized_path(path))
    }
}

/// Computes the key of an entry of a search path.
pub fn path_key(path: &str, is_windows: bool) -> (key: Option<String>)
    ensures
        opt_view(key) == path_key_of(path@, is_windows),
{
    if path.is_empty() {
        return None;
    }
    let normalized = normalize_path(path);
    if is_windows {
        let chars = chars_of(normalized.as_str());
        let folded = lower_chars(chars.as_slice());
        Some(string_of(folded.as_slice()))
    } else {
        Some(normalized)
    }
}

/// A directory that may go in front of the search path.
#[derive(Debug)]
pub struct PathCandidate {
    pub path: String,
    /// The path is a directory.
    pub is_dir: bool,
}

/// The keys of the entries of a search path.
pub open spec fn keys_of(entries: Seq<Seq<char>>, is_windows: bool) -> Set<Seq<char>>
    decreases entries.len(),
{
    if entries.len() == 0 {
        Set::empty()
    } else {
        match path_key_of(entries.last(), is_windows) {
            Some(key) => keys_of(entries.drop_last(), is_windows).insert(key),
            None => keys_of(entries.drop_last(), is_windows),
        }
    }
}

/// Whether a candidate is taken, given the keys seen so far: it is a
/// directory, has a key, and the key has not been seen.
pub open spec fn candidate_taken(seen: Set<Seq<char>>, candidate: PathCandidate, is_windows: bool) -> bool {
    candidate.is_dir && path_key_of(candidate.path@, is_windows) is Some && !seen.contains(
        path_key_of(candidate.path@, is_windows).unwrap(),
    )
}

/// The candidates that go in front of the search path, in order: each one
/// that is a directory and whose key no entry and no earlier candidate has.
pub open spec fn prepended_entries(
    seen: Set<Seq<char>>,
    candidates: Seq<PathCandidate>,
    is_windows: bool,
) -> Seq<Seq<char>>
    decreases candidates.len(),
{
    if candidates.len() == 0 {
        Seq::empty()
    } else if candidate_taken(seen, candidates[0], is_windows) {
        seq![candidates[0].path@] + prepended_entries(
            seen.insert(path_key_of(candidates[0].path@, is_windows).unwrap()),
            candidates.drop_first(),
            is_windows,
        )
    } else {
        prepended_entries(seen, candidates.drop_first(), is_windows)
    }
}

/// The views of a list of keys, as a set.
pub open spec fn key_set(keys: Seq<String>) -> Set<Seq<char>> {
    Set::new(|key: Seq<char>| exists|i: int| 0 <= i < keys.len() && #[trigger] keys[i]@ == key)
}

/// Whether a key is among those seen.
fn key_seen(seen: &Vec<String>, key: &str) -> (found: bool)
    ensures
        found == key_set(seen@).contains(key@),
{
    let mut i: usize = 0;
    while i < seen.len()
        invariant
            i <= seen.len(),
            forall|j: int| 0 <= j < i ==> (#[trigger] seen@[j])@ != key@,
        decreases seen.len() - i,
    {
        if str_equal(seen[i].as_str(), key) {
            return true;
        }
        i += 1;
    }
    false
}

/// Adds a candidate to the directories that go in front of the search
/// path, where it is taken, and remembers its key.
pub fn add_path_candidate(
    candidate: &PathCandidate,
    is_windows: bool,
    seen_keys: &mut Vec<String>,
    prepend_entries: &mut Vec<String>,
)
    ensures
        candidate_taken(key_set(old(seen_keys)@), *candidate, is_windows) ==> {
            &&& key_set(final(seen_keys)@) == key_set(old(seen_keys)@).insert(
                path_key_of(candidate.path@, is_windows).unwrap(),
            )
            &&& texts(final(prepend_entries)@) == texts(old(prepend_entries)@).push(
                candidate.path@,
            )
        },
        !candidate_taken(key_set(old(seen_keys)@), *candidate, is_windows) ==> {
            &&& key_set(final(seen_keys)@) == key_set(old(seen_keys)@)
            &&& texts(final(prepend_entries)@) == texts(old(prepend_entries)@)
        },
{
    if !candidate.is_dir {
        return;
    }
    let key = match path_key(candidate.path.as_str(), is_windows) {
        Some(key) => key,
        None => {
            return;
        },
    };
    if key_seen(seen_keys, key.as_str()) {
        return;
    }
    let ghost before = seen_keys@;
    seen_keys.push(key);
    prepend_entries.push(candidate.path.clone());
    proof {
        assert(texts(prepend_entries@) =~= texts(old(prepend_entries)@).push(candidate.path@));
        let added = path_key_of(candidate.path@, is_windows).unwrap();
        assert forall|k: Seq<char>| key_set(seen_keys@).contains(k) <==> key_set(before).insert(
            added,
        ).contains(k) by {
            if key_set(seen_keys@).contains(k) {
                let i = choose|i: int| 0 <= i < seen_keys@.len() && #[trigger] seen_keys@[i]@ == k;
                if i < before.len() {
                    assert(before[i]@ == k);
                }
            }
            if key_set(before).contains(k) {
                let i = choose|i: int| 0 <= i < before.len() && #[trigger] before[i]@ == k;
                assert(seen_keys@[i]@ == k);
            }
            if k == added {
                assert(seen_keys@[before.len() as int]@ == k);
            }
        }
        assert(key_set(seen_keys@) =~= key_set(before).insert(added));
    }
}

/// The line logged where directories went in front of the search path.
pub open spec fn augmentation_note(prepend_entries: Seq<Seq<char>>) -> Option<Seq<char>> {
    if prepend_entries.len() == 0 {
        None
    } else {
        Some(
            "backend PATH augmented with "@ + decimal_text(prepend_entries.len())
                + " prepended directories: "@ + joined_with_commas(prepend_entries),
        )
    }
}

/// The entries one after the other, with a comma and a blank between them.
pub open spec fn joined_with_commas(entries: Seq<Seq<char>>) -> Seq<char>
    decreases entries.len(),
{
    if entries.len() == 0 {
        Seq::empty()
    } else if entries.len() == 1 {
        entries[0]
    } else {
        joined_with_commas(entries.drop_last()) + ", "@ + entries.last()
    }
}

/// Renders the line for directories that went in front of the search path.
pub fn log_backend_path_augmentation(prepend_entries: &Vec<String>) -> (note: Option<String>)
    ensures
        opt_view(note) == augmentation_note(texts(prepend_entries@)),
{
    if prepend_entries.len() == 0 {
        return None;
    }
    let mut preview = prepend_entries[0].clone();
    let mut i: usize = 1;
    assert(texts(prepend_entries@).take(1) =~= seq![prepend_entries@[0]@]);
    while i < prepend_entries.len()
        invariant
            1 <= i <= prepend_entries.len(),
            preview@ == joined_with_commas(texts(prepend_entries@).take(i as int)),
        decreases prepend_entries.len() - i,
    {
        proof {
            let longer = texts(prepend_entries@).take(i + 1);
            assert(longer.drop_last() =~= texts(prepend_entries@).take(i as int));
            assert(longer.last() == prepend_entries@[i as int]@);
        }
        preview.append(", ");
        preview.append(prepend_entries[i].as_str());
        i += 1;
    }
    assert(texts(prepend_entries@).take(prepend_entries.len() as int) =~= texts(prepend_entries@));
    let mut note = owned("backend PATH augmented with ");
    note.append(decimal_string(prepend_entries.len() as u64).as_str());
    note.append(" prepended directories: ");
    note.append(preview.as_str());
    Some(note)
}

/// The directories that go in front of the search path of the backend, in
/// order, and the line to log where there are any. `existing_entries` are
/// the entries of the supervisor's own search path; `candidates` are the
/// directories to consider, those that the environment names first.
pub fn build_backend_path_override(
    existing_entries: &Vec<String>,
    candidates: &Vec<PathCandidate>,
    is_windows: bool,
) -> (outcome: (Vec<String>, Option<String>))
    ensures
        texts(outcome.0@) == prepended_entries(
            keys_of(texts(existing_entries@), is_windows),
            candidates@,
            is_windows,
        ),
        opt_view(outcome.1) == augmentation_note(texts(outcome.0@)),
{
    let mut seen_keys: Vec<String> = Vec::new();
    let mut i: usize = 0;
    assert(texts(existing_entries@).take(0) =~= Seq::<Seq<char>>::empty());
    assert(key_set(seen_keys@) =~= Set::<Seq<char>>::empty());
    while i < existing_entries.len()
        invariant
            i <= existing_entries.len(),
            key_set(seen_keys@) == keys_of(texts(existing_entries@).take(i as int), is_windows),
        decreases existing_entries.len() - i,
    {
        proof {
            let longer = texts(existing_entries@).take(i + 1);
            assert(longer.drop_last() =~= texts(existing_entries@).take(i as int));
            assert(longer.last() == existing_entries@[i as int]@);
        }
        let ghost before = seen_keys@;
        match path_key(existing_entries[i].as_str(), is_windows) {
            Some(key) => {
                seen_keys.push(key);
                proof {
                    assert forall|k: Seq<char>| key_set(seen_keys@).contains(k) <==> key_set(
                        before,
                    ).insert(key@).contains(k) by {
                        if key_set(seen_keys@).contains(k) {
                            let j = choose|j: int|
                                0 <= j < seen_keys@.len() && #[trigger] seen_keys@[j]@ == k;
                            if j < before.len() {
                                assert(before[j]@ == k);
                            }
                        }
                        if key_set(before).contains(k) {
                            let j = choose|j: int| 0 <= j < before.len() && #[trigger] before[j]@ == k;
                            assert(seen_keys@[j]@ == k);
                        }
                        if k == key@ {
                            assert(seen_keys@[before.len() as int]@ == k);
                        }
                    }
                    assert(key_set(seen_keys@) =~= key_set(before).insert(key@));
                }
            },
            None => {},
        }
        i += 1;
    }
    assert(texts(existing_entries@).take(existing_entries.len() as int) =~= texts(
        existing_entries@,
    ));
    let ghost initial = key_set(seen_keys@);
    let mut prepend_entries: Vec<String> = Vec::new();
    let mut j: usize = 0;
    assert(candidates@.skip(0) =~= candidates@);
    assert(texts(prepend_entries@) + prepended_entries(initial, candidates@, is_windows)
        =~= prepended_entries(initial, candidates@, is_windows));
    while j < candidates.len()
        invariant
            j <= candidates.len(),
            prepended_entries(initial, candidates@, is_windows) == texts(prepend_entries@)
                + prepended_entries(key_set(seen_keys@), candidates@.skip(j as int), is_windows),
        decreases candidates.len() - j,
    {
        let ghost taken_before = texts(prepend_entries@);
        let ghost seen_before = key_set(seen_keys@);
        proof {
            assert(candidates@.skip(j as int)[0] == candidates@[j as int]);
            assert(candidates@.skip(j as int).drop_first() =~= candidates@.skip(j + 1));
        }
        add_path_candidate(&candidates[j], is_windows, &mut seen_keys, &mut prepend_entries);
        proof {
            let rest = prepended_entries(key_set(seen_keys@), candidates@.skip(j + 1), is_windows);
            if candidate_taken(seen_before, candidates@[j as int], is_windows) {
                assert(taken_before + (seq![candidates@[j as int].path@] + rest)
                    =~= taken_before.push(candidates@[j as int].path@) + rest);
            }
        }
        j += 1;
    }
    proof {
        assert(candidates@.skip(candidates.len() as int) =~= Seq::<PathCandidate>::empty());
        assert(texts(prepend_entries@) + Seq::<Seq<char>>::empty() =~= texts(prepend_entries@));
    }
    let note = log_backend_path_augmentation(&prepend_entries);
    (prepend_entries, note)
}

/// Every directory that goes in front of the search path is a candidate
/// that is a directory, no two of them have the same key, and none has the
/// key of an entry that was seen before.
pub proof fn lemma_prepended_entries_are_new(
    seen: Set<Seq<char>>,
    candidates: Seq<PathCandidate>,
    is_windows: bool,
)
    ensures
        prepended_entries(seen, candidates, is_windows).len() <= candidates.len(),
        forall|i: int|
            0 <= i < prepended_entries(seen, candidates, is_windows).len() ==> {
                let entry = #[trigger] prepended_entries(seen, candidates, is_windows)[i];
                &&& path_key_of(entry, is_windows) is Some
                &&& !seen.contains(path_key_of(entry, is_windows).unwrap())
                &&& exists|c: int|
                    0 <= c < candidates.len() && candidates[c].is_dir && #[trigger] candidates[c].path@
                        == entry
            },
        forall|i: int, j: int|
            0 <= i < j < prepended_entries(seen, candidates, is_windows).len() ==> path_key_of(
                #[trigger] prepended_entries(seen, candidates, is_windows)[i],
                is_windows,
            ) != path_key_of(
                #[trigger] prepended_entries(seen, candidates, is_windows)[j],
                is_windows,
            ),
    decreases candidates.len(),
{
    if candidates.len() > 0 {
        let rest = candidates.drop_first();
        let whole = prepended_entries(seen, candidates, is_windows);
        if candidate_taken(seen, candidates[0], is_windows) {
            let key = path_key_of(candidates[0].path@, is_windows).unwrap();
            let wider = seen.insert(key);
            let tail = prepended_entries(wider, rest, is_windows);
            lemma_prepended_entries_are_new(wider, rest, is_windows);
            assert(whole =~= seq![candidates[0].path@] + tail);
            assert forall|i: int| 0 <= i < whole.len() implies {
                let entry = #[trigger] whole[i];
                &&& path_key_of(entry, is_windows) is Some
                &&& !seen.contains(path_key_of(entry, is_windows).unwrap())
                &&& exists|c: int|
                    0 <= c < candidates.len() && candidates[c].is_dir && #[trigger] candidates[c].path@
                        == entry
            } by {
                if i == 0 {
                    assert(candidates[0].path@ == whole[0]);
                } else {
                    assert(whole[i] == tail[i - 1]);
                    let c = choose|c: int|
                        0 <= c < rest.len() && rest[c].is_dir && #[trigger] rest[c].path@ == tail[i
                            - 1];
                    assert(candidates[c + 1] == rest[c]);
                    assert(candidates[c + 1].path@ == whole[i]);
                }
            }
            assert forall|i: int, j: int| 0 <= i < j < whole.len() implies path_key_of(
                #[trigger] whole[i],
                is_windows,
            ) != path_key_of(#[trigger] whole[j], is_windows) by {
                assert(whole[j] == tail[j - 1]);
                if i > 0 {
                    assert(whole[i] == tail[i - 1]);
                } else {
                    assert(wider.contains(key));
                }
            }
        } else {
            let tail = prepended_entries(seen, rest, is_windows);
            lemma_prepended_entries_are_new(seen, rest, is_windows);
            assert forall|i: int| 0 <= i < whole.len() implies {
                let entry = #[trigger] whole[i];
                &&& path_key_of(entry, is_windows) is Some
                &&& !seen.contains(path_key_of(entry, is_windows).unwrap())
                &&& exists|c: int|
                    0 <= c < candidates.len() && candidates[c].is_dir && #[trigger] candidates[c].path@
                        == entry
            } by {
                let c = choose|c: int|
                    0 <= c < rest.len() && rest[c].is_dir && #[trigger] rest[c].path@ == tail[i];
                assert(candidates[c + 1] == rest[c]);
                assert(candidates[c + 1].path@ == whole[i]);
            }
        }
    }
}

/// The directories in which tools are commonly installed, in the order in
/// which they are considered: `.local/bin` below the home directory (and
/// the current Node of nvm on macOS), the directories that nvm and Volta
/// name, then the usual places of the platform.
pub open spec fn extra_paths(
    platform: PathPlatform,
    home_dir: Option<Seq<char>>,
    nvm_bin: Option<Seq<char>>,
    volta_home: Option<Seq<char>>,
    app_data: Option<Seq<char>>,
    local_app_data: Option<Seq<char>>,
) -> Seq<Seq<char>> {
    (match home_dir {
        Some(home) => if platform == PathPlatform::MacOs {
            seq![
                joined_path2(home, ".local"@, "bin"@),
                joined_path(joined_path2(home, ".nvm"@, "current"@), "bin"@),
            ]
        } else {
            seq![joined_path2(home, ".local"@, "bin"@)]
        },
        None => Seq::empty(),
    }) + crate::notes::note_list(nvm_bin) + (match volta_home {
        Some(volta) => seq![joined_path(volta, "bin"@)],
        None => Seq::empty(),
    }) + (match platform {
        PathPlatform::MacOs => seq![
            "/opt/homebrew/bin"@,
            "/opt/homebrew/sbin"@,
            "/usr/local/bin"@,
            "/usr/local/sbin"@,
        ],
        PathPlatform::Windows => (match app_data {
            Some(dir) => seq![joined_path(dir, "npm"@)],
            None => Seq::empty(),
        }) + (match local_app_data {
            Some(dir) => seq![joined_path2(dir, "Programs"@, "nodejs"@), joined_path(dir, "nvm"@)],
            None => Seq::empty(),
        }),
        PathPlatform::Other => Seq::empty(),
    })
}

/// Lists the directories in which tools are commonly installed. Each
/// argument but the first is the text of a variable or a directory, `None`
/// where it is not known; the last two count on Windows only.
pub fn platform_extra_paths(
    platform: PathPlatform,
    home_dir: Option<&str>,
    nvm_bin: Option<&str>,
    volta_home: Option<&str>,
    app_data: Option<&str>,
    local_app_data: Option<&str>,
) -> (result: Vec<String>)
    ensures
        texts(result@) == extra_paths(
            platform,
            opt_str_view(home_dir),
            opt_str_view(nvm_bin),
            opt_str_view(volta_home),
            opt_str_view(app_data),
            opt_str_view(local_app_data),
        ),
{
    let mut result: Vec<String> = Vec::new();
    assert(texts(result@) =~= Seq::<Seq<char>>::empty());
    match home_dir {
        Some(home) => {
            push_optional(&mut result, Some(join_path2(home, ".local", "bin")));
            if platform == PathPlatform::MacOs {
                let current = join_path2(home, ".nvm", "current");
                push_optional(&mut result, Some(join_path(current.as_str(), "bin")));
            }
        },
        None => {},
    }
    let ghost first = texts(result@);
    push_optional(
        &mut result,
        match nvm_bin {
            Some(dir) => Some(owned(dir)),
            None => None,
        },
    );
    push_optional(
        &mut result,
        match volta_home {
            Some(volta) => Some(join_path(volta, "bin")),
            None => None,
        },
    );
    let ghost common = texts(result@);
    match platform {
        PathPlatform::MacOs => {
            push_optional(&mut result, Some(owned("/opt/homebrew/bin")));
            push_optional(&mut result, Some(owned("/opt/homebrew/sbin")));
            push_optional(&mut result, Some(owned("/usr/local/bin")));
            push_optional(&mut result, Some(owned("/usr/local/sbin")));
            assert(texts(result@) =~= common + seq![
                "/opt/homebrew/bin"@,
                "/opt/homebrew/sbin"@,
                "/usr/local/bin"@,
                "/usr/local/sbin"@,
            ]);
        },
        PathPlatform::Windows => {
            match app_data {
                Some(dir) => {
                    push_optional(&mut result, Some(join_path(dir, "npm")));
                },
                None => {},
            }
            let ghost middle = texts(result@);
            match local_app_data {
                Some(dir) => {
                    push_optional(&mut result, Some(join_path2(dir, "Programs", "nodejs")));
                    push_optional(&mut result, Some(join_path(dir, "nvm")));
                },
                None => {},
            }
            assert(texts(result@) =~= common + ((match opt_str_view(app_data) {
                Some(dir) => seq![joined_path(dir, "npm"@)],
                None => Seq::empty(),
            }) + (match opt_str_view(local_app_data) {
                Some(dir) => seq![
                    joined_path2(dir, "Programs"@, "nodejs"@),
                    joined_path(dir, "nvm"@),
                ],
                None => Seq::empty(),
            })));
        },
        PathPlatform::Other => {
            assert(texts(result@) =~= common + Seq::<Seq<char>>::empty());
        },
    }
    result
}

} // verus!
