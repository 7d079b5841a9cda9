//! Which directory a packaged backend serves its web assets from: the
//! embedded one where its `index.html` is there, else `data/dist` below the
//! root directory, else none.

use vstd::prelude::*;
use vstd::string::StringExecFns;
use crate::notes::{clone_opt, opt_str_view, opt_view, push_optional, result_view, texts};
use crate::paths::{join_path, joined_path};
use crate::text::{owned, str_equal};
use crate::webui_paths::{
    fallback_index_display, fallback_probe_dir, packaged_fallback_webui_dir,
    packaged_fallback_webui_index_display,
};

verus! {

/// The message for a packaged installation without usable web assets, in
/// English for `en-US` and in Chinese for every other locale. It names the
/// embedded `index.html` where one was looked for.
pub open spec fn webui_unavailable_message(locale: Seq<char>, embedded_index: Option<Seq<char>>) -> Seq<
    char,
> {
    if locale == "en-US"@ {
        match embedded_index {
            Some(index) => "Packaged WebUI is unavailable. Missing embedded index at "@ + index
                + " and fallback data/dist. Please reinstall AstrBot or download the matching dist.zip to data/dist."@,
            None => "Packaged WebUI directory is missing and fallback data/dist is unavailable. Please reinstall AstrBot or download the matching dist.zip to data/dist."@,
        }
    } else {
        match embedded_index {
            Some(index) => "内置 WebUI 不可用。缺少内置入口文件："@ + index
                + "，且回退目录 data/dist 也不可用。请重装 AstrBot，或下载匹配版本的 dist.zip 到 data/dist。"@,
            None => "内置 WebUI 目录缺失，且回退目录 data/dist 也不可用。请重装 AstrBot，或下载匹配版本的 dist.zip 到 data/dist。"@,
        }
    }
}

/// Renders the message for a packaged installation without usable web
/// assets.
pub fn packaged_webui_unavailable_error(locale: &str, embedded_index: Option<&str>) -> (message:
    String)
    ensures
        message@ == webui_unavailable_message(locale@, opt_str_view(embedded_index)),
{
    if str_equal(locale, "en-US") {
        return match embedded_index {
            Some(index) => {
                let mut message = owned("Packaged WebUI is unavailable. Missing embedded index at ");
                message.append(index);
                message.append(
                    " and fallback data/dist. Please reinstall AstrBot or download the matching dist.zip to data/dist.",
                );
                message
            },
            None => owned(
                "Packaged WebUI directory is missing and fallback data/dist is unavailable. Please reinstall AstrBot or download the matching dist.zip to data/dist.",
            ),
        };
    }
    match embedded_index {
        Some(index) => {
            let mut message = owned("内置 WebUI 不可用。缺少内置入口文件：");
            message.append(index);
            message.append(
                "，且回退目录 data/dist 也不可用。请重装 AstrBot，或下载匹配版本的 dist.zip 到 data/dist。",
            );
            message
        },
        None => owned(
            "内置 WebUI 目录缺失，且回退目录 data/dist 也不可用。请重装 AstrBot，或下载匹配版本的 dist.zip 到 data/dist。",
        ),
    }
}

/// What is known of the two places in which web assets may lie.
#[derive(Debug, Clone, Copy)]
pub struct WebuiFiles {
    /// `index.html` in the embedded directory is a file.
    pub embedded_index_is_file: bool,
    /// `index.html` in the fallback directory is a file.
    pub fallback_index_is_file: bool,
}

/// The fallback directory, where it can be used.
pub open spec fn usable_fallback_dir(
    root_dir: Option<Seq<char>>,
    packaged_root_dir: Option<Seq<char>>,
    files: WebuiFiles,
) -> Option<Seq<char>> {
    if files.fallback_index_is_file {
        fallback_probe_dir(root_dir, packaged_root_dir)
    } else {
        None
    }
}

/// The directory to serve web assets from, or the message that says why
/// there is none.
pub open spec fn packaged_webui_dir(
    embedded_webui_dir: Option<Seq<char>>,
    root_dir: Option<Seq<char>>,
    packaged_root_dir: Option<Seq<char>>,
    locale: Seq<char>,
    files: WebuiFiles,
) -> Result<Seq<char>, Seq<char>> {
    if embedded_webui_dir is Some && files.embedded_index_is_file {
        Ok(embedded_webui_dir.unwrap())
    } else {
        match usable_fallback_dir(root_dir, packaged_root_dir, files) {
            Some(fallback) => Ok(fallback),
            None => Err(
                webui_unavailable_message(
                    locale,
                    match embedded_webui_dir {
                        Some(dir) => Some(joined_path(dir, "index.html"@)),
                        None => None,
                    },
                ),
            ),
        }
    }
}

/// The lines logged while the directory is resolved.
pub open spec fn packaged_webui_notes(
    embedded_webui_dir: Option<Seq<char>>,
    root_dir: Option<Seq<char>>,
    packaged_root_dir: Option<Seq<char>>,
    files: WebuiFiles,
) -> Seq<Seq<char>> {
    let fallback = usable_fallback_dir(root_dir, packaged_root_dir, files);
    let fallback_index = fallback_index_display(root_dir, packaged_root_dir);
    match embedded_webui_dir {
        Some(dir) => {
            let index = joined_path(dir, "index.html"@);
            if files.embedded_index_is_file {
                Seq::empty()
            } else {
                seq!["packaged webui index is missing at "@ + index + ", trying fallback data/dist"@]
                    + seq![
                    match fallback {
                        Some(fallback) => "using fallback webui directory: "@ + fallback,
                        None => "packaged webui resolution failed: embedded index missing at "@
                            + index + ", fallback index missing at "@ + fallback_index,
                    },
                ]
            }
        },
        None => seq![
            match fallback {
                Some(fallback) => "embedded webui directory not found, using fallback webui directory: "@
                    + fallback,
                None => "packaged webui resolution failed: embedded webui directory is missing, fallback index missing at "@
                    + fallback_index,
            },
        ],
    }
}

/// Resolves the directory that a packaged backend serves its web assets
/// from. `files` says which of the two `index.html` files are there. The
/// second result holds the lines to log, in order.
pub fn resolve_packaged_webui_dir(
    embedded_webui_dir: Option<String>,
    root_dir: Option<&str>,
    packaged_root_dir: Option<String>,
    locale: &str,
    files: WebuiFiles,
) -> (outcome: (Result<String, String>, Vec<String>))
    ensures
        result_view(outcome.0) == packaged_webui_dir(
            opt_view(embedded_webui_dir),
            opt_str_view(root_dir),
            opt_view(packaged_root_dir),
            locale@,
            files,
        ),
        texts(outcome.1@) == packaged_webui_notes(
            opt_view(embedded_webui_dir),
            opt_str_view(root_dir),
            opt_view(packaged_root_dir),
            files,
        ),
{
    let mut notes: Vec<String> = Vec::new();
    assert(texts(notes@) =~= Seq::<Seq<char>>::empty());
    let fallback_webui_dir = packaged_fallback_webui_dir(
        root_dir,
        clone_opt(&packaged_root_dir),
        files.fallback_index_is_file,
    );
    match embedded_webui_dir {
        Some(candidate) => {
            let embedded_index = join_path(candidate.as_str(), "index.html");
            if files.embedded_index_is_file {
                return (Ok(candidate), notes);
            }
            let mut missing = owned("packaged webui index is missing at ");
            missing.append(embedded_index.as_str());
            missing.append(", trying fallback data/dist");
            push_optional(&mut notes, Some(missing));
            match fallback_webui_dir {
                Some(fallback) => {
                    let mut line = owned("using fallback webui directory: ");
                    line.append(fallback.as_str());
                    push_optional(&mut notes, Some(line));
                    (Ok(fallback), notes)
                },
                None => {
                    let fallback_index = packaged_fallback_webui_index_display(
                        root_dir,
                        packaged_root_dir,
                    );
                    let mut line = owned(
                        "packaged webui resolution failed: embedded index missing at ",
                    );
                    line.append(embedded_index.as_str());
                    line.append(", fallback index missing at ");
                    line.append(fallback_index.as_str());
                    push_optional(&mut notes, Some(line));
                    (
                        Err(packaged_webui_unavailable_error(locale, Some(embedded_index.as_str()))),
                        notes,
                    )
                },
            }
        },
        None => {
            match fallback_webui_dir {
                Some(fallback) => {
                    let mut line = owned(
                        "embedded webui directory not found, using fallback webui directory: ",
                    );
                    line.append(fallback.as_str());
                    push_optional(&mut notes, Some(line));
                    (Ok(fallback), notes)
                },
                None => {
                    let fallback_index = packaged_fallback_webui_index_display(
                        root_dir,
                        packaged_root_dir,
                    );
                    let mut line = owned(
                        "packaged webui resolution failed: embedded webui directory is missing, fallback index missing at ",
                    );
                    line.append(fallback_index.as_str());
                    push_optional(&mut notes, Some(line));
                    (Err(packaged_webui_unavailable_error(locale, None)), notes)
                },
            }
        },
    }
}

} // verus!
