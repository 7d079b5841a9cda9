//! Where a packaged installation looks for the web assets that were
//! unpacked beside its data: `data/dist` below the root directory.

use vstd::prelude::*;
use crate::notes::{opt_str_view, opt_view};
use crate::paths::{join_path, join_path2, joined_path, joined_path2};
use crate::text::owned;

verus! {

/// `data/dist` below the explicit root directory, or below the packaged
/// root where no explicit one is given.
pub open spec fn fallback_probe_dir(root_dir: Option<Seq<char>>, packaged_root_dir: Option<
    Seq<char>,
>) -> Option<Seq<char>> {
    match root_dir {
        Some(root) => Some(joined_path2(root, "data"@, "dist"@)),
        None => match packaged_root_dir {
            Some(root) => Some(joined_path2(root, "data"@, "dist"@)),
            None => None,
        },
    }
}

/// The `index.html` of the fallback directory, as shown in messages.
pub open spec fn fallback_index_display(root_dir: Option<Seq<char>>, packaged_root_dir: Option<
    Seq<char>,
>) -> Seq<char> {
    match fallback_probe_dir(root_dir, packaged_root_dir) {
        Some(dir) => joined_path(dir, "index.html"@),
        None => "<unresolved>"@,
    }
}

/// The directory in which fallback web assets would lie.
pub fn packaged_fallback_webui_probe_dir(root_dir: Option<&str>, packaged_root_dir: Option<String>) -> (dir:
    Option<String>)
    ensures
        opt_view(dir) == fallback_probe_dir(opt_str_view(root_dir), opt_view(packaged_root_dir)),
{
    match root_dir {
        Some(root) => Some(join_path2(root, "data", "dist")),
        None => match packaged_root_dir {
            Some(root) => Some(join_path2(root.as_str(), "data", "dist")),
            None => None,
        },
    }
}

/// The fallback directory, where its `index.html` is a file.
/// `index_is_file` says whether it is.
pub fn packaged_fallback_webui_dir(
    root_dir: Option<&str>,
    packaged_root_dir: Option<String>,
    index_is_file: bool,
) -> (dir: Option<String>)
    ensures
        opt_view(dir) == (if index_is_file {
            fallback_probe_dir(opt_str_view(root_dir), opt_view(packaged_root_dir))
        } else {
            None
        }),
{
    let candidate = packaged_fallback_webui_probe_dir(root_dir, packaged_root_dir);
    if index_is_file {
        candidate
    } else {
        None
    }
}

/// The `index.html` of the fallback directory as shown in messages, or
/// `<unresolved>` where no root directory is known.
pub fn packaged_fallback_webui_index_display(
    root_dir: Option<&str>,
    packaged_root_dir: Option<String>,
) -> (display: String)
    ensures
        display@ == fallback_index_display(opt_str_view(root_dir), opt_view(packaged_root_dir)),
{
    match packaged_fallback_webui_probe_dir(root_dir, packaged_root_dir) {
        Some(dir) => join_path(dir.as_str(), "index.html"),
        None => owned("<unresolved>"),
    }
}

} // verus!
