//! Finding the source checkout of the backend.

use vstd::prelude::*;
use crate::notes::{opt_str_view, opt_view, push_optional, texts};
use crate::paths::{join_path, join_path2, joined_path, joined_path2};
use crate::text::owned;

verus! {

/// A directory is a source checkout where it holds the file `main.py` and
/// the directory `astrbot`.
pub fn is_astrbot_source_dir(main_py_is_file: bool, astrbot_is_dir: bool) -> (is_source: bool)
    ensures
        is_source == (main_py_is_file && astrbot_is_dir),
{
    main_py_is_file && astrbot_is_dir
}

/// The root directory of a packaged installation: `.astrbot` below the
/// home directory, where that is known.
pub fn default_packaged_root_dir(home_dir: Option<&str>) -> (root: Option<String>)
    ensures
        opt_view(root) == (match opt_str_view(home_dir) {
            Some(home) => Some(joined_path(home, ".astrbot"@)),
            None => None,
        }),
{
    match home_dir {
        Some(home) => Some(join_path(home, ".astrbot")),
        None => None,
    }
}

/// The directories in which a source checkout is looked for, in order: the
/// one named explicitly, then `vendor/AstrBot` and `AstrBot` below the
/// workspace, then the workspace itself.
pub open spec fn source_root_candidates(
    workspace_root: Seq<char>,
    explicit_source_dir: Option<Seq<char>>,
) -> Seq<Seq<char>> {
    crate::notes::note_list(explicit_source_dir) + seq![
        joined_path2(workspace_root, "vendor"@, "AstrBot"@),
        joined_path(workspace_root, "AstrBot"@),
        workspace_root,
    ]
}

/// Lists the directories in which a source checkout is looked for.
pub fn astrbot_source_root_candidates(workspace_root: &str, explicit_source_dir: Option<&str>) -> (candidates:
    Vec<String>)
    ensures
        texts(candidates@) == source_root_candidates(
            workspace_root@,
            opt_str_view(explicit_source_dir),
        ),
{
    let mut candidates: Vec<String> = Vec::new();
    assert(texts(candidates@) =~= Seq::<Seq<char>>::empty());
    push_optional(
        &mut candidates,
        match explicit_source_dir {
            Some(dir) => Some(owned(dir)),
            None => None,
        },
    );
    let ghost head = texts(candidates@);
    push_optional(&mut candidates, Some(join_path2(workspace_root, "vendor", "AstrBot")));
    push_optional(&mut candidates, Some(join_path(workspace_root, "AstrBot")));
    push_optional(&mut candidates, Some(owned(workspace_root)));
    assert(texts(candidates@) =~= head + seq![
        joined_path2(workspace_root@, "vendor"@, "AstrBot"@),
        joined_path(workspace_root@, "AstrBot"@),
        workspace_root@,
    ]);
    candidates
}

/// A directory in which a source checkout is looked for.
#[derive(Debug)]
pub struct SourceCandidate {
    pub path: String,
    /// The directory is a source checkout.
    pub is_source_dir: bool,
}

/// The first of the candidates that is a source checkout.
pub open spec fn first_source_dir(candidates: Seq<SourceCandidate>) -> Option<Seq<char>>
    decreases candidates.len(),
{
    if candidates.len() == 0 {
        None
    } else if candidates[0].is_source_dir {
        Some(candidates[0].path@)
    } else {
        first_source_dir(candidates.drop_first())
    }
}

/// Picks the source checkout among the candidates: the first that is one.
pub fn detect_astrbot_source_root_with(candidates: &Vec<SourceCandidate>) -> (root: Option<String>)
    ensures
        opt_view(root) == first_source_dir(candidates@),
{
    let mut i: usize = 0;
    assert(candidates@.skip(0) =~= candidates@);
    while i < candidates.len()
        invariant
            i <= candidates.len(),
            first_source_dir(candidates@) == first_source_dir(candidates@.skip(i as int)),
        decreases candidates.len() - i,
    {
        proof {
            assert(candidates@.skip(i as int)[0] == candidates@[i as int]);
            assert(candidates@.skip(i as int).drop_first() =~= candidates@.skip(i + 1));
        }
        if candidates[i].is_source_dir {
            return Some(candidates[i].path.clone());
        }
        i += 1;
    }
    None
}

/// The checkout that is found is a candidate that is one, and every
/// candidate before it is none; where none is found, no candidate is one.
pub proof fn lemma_first_source_dir_is_first(candidates: Seq<SourceCandidate>)
    ensures
        match first_source_dir(candidates) {
            Some(path) => exists|at: int|
                0 <= at < candidates.len() && (#[trigger] candidates[at]).is_source_dir
                    && candidates[at].path@ == path && forall|k: int|
                    0 <= k < at ==> !(#[trigger] candidates[k]).is_source_dir,
            None => forall|k: int| 0 <= k < candidates.len() ==> !(#[trigger] candidates[k]).is_source_dir,
        },
    decreases candidates.len(),
{
    if candidates.len() > 0 {
        if candidates[0].is_source_dir {
            assert(candidates[0].is_source_dir && candidates[0].path@ == first_source_dir(
                candidates,
            ).unwrap());
        } else {
            let rest = candidates.drop_first();
            lemma_first_source_dir_is_first(rest);
            match first_source_dir(rest) {
                Some(path) => {
                    let at = choose|at: int|
                        0 <= at < rest.len() && (#[trigger] rest[at]).is_source_dir && rest[at].path@
                            == path && forall|k: int|
                            0 <= k < at ==> !(#[trigger] rest[k]).is_source_dir;
                    assert(candidates[at + 1] == rest[at]);
                    assert forall|k: int| 0 <= k < at + 1 implies !(#[trigger] candidates[k]).is_source_dir by {
                        if k > 0 {
                            assert(candidates[k] == rest[k - 1]);
                        }
                    }
                    assert(candidates[at + 1].is_source_dir);
                },
                None => {
                    assert forall|k: int| 0 <= k < candidates.len() implies !(
                    #[trigger] candidates[k]).is_source_dir by {
                        if k > 0 {
                            assert(candidates[k] == rest[k - 1]);
                        }
                    }
                },
            }
        }
    }
}

} // verus!
