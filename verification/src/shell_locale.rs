//! The language of the tray menu: the two sets of labels, and how a locale
//! name is brought to one of the two that are supported.

use vstd::prelude::*;
use vstd::slice::slice_subrange;
use vstd::string::StringExecFns;
use vstd::utf8::encode_utf8;
use crate::json::{
    json_document, json_error_text, json_from_slice, json_get, json_is_object, json_member,
    json_pretty, json_pretty_text, json_remove, json_set_text, json_text, json_with_text,
    json_without,
};
use crate::notes::{opt_str_view, opt_view, push_optional, texts};
use crate::paths::{join_path2, joined_path2};
use crate::search::{chars_start_with, starts_with};
use crate::text::{chars_of, lower_chars, lowered, owned, str_equal, trim, trim_bounds};

verus! {

/// The locale of the shell where nothing names another.
pub const DEFAULT_SHELL_LOCALE: &'static str = "zh-CN";

/// The labels of the tray menu.
#[derive(Debug, Clone, Copy)]
pub struct ShellTexts {
    pub tray_hide: &'static str,
    pub tray_show: &'static str,
    pub tray_reload: &'static str,
    pub tray_restart_backend: &'static str,
    pub tray_quit: &'static str,
}

/// The labels in English.
pub open spec fn english_texts() -> ShellTexts {
    ShellTexts {
        tray_hide: "Hide AstrBot",
        tray_show: "Show AstrBot",
        tray_reload: "Reload",
        tray_restart_backend: "Restart Backend",
        tray_quit: "Quit",
    }
}

/// The labels in Chinese.
pub open spec fn chinese_texts() -> ShellTexts {
    ShellTexts {
        tray_hide: "隐藏 AstrBot",
        tray_show: "显示 AstrBot",
        tray_reload: "重新加载",
        tray_restart_backend: "重启后端",
        tray_quit: "退出",
    }
}

/// The labels for a locale: English for `en-US`, Chinese for every other.
pub fn shell_texts_for_locale(locale: &str) -> (texts: ShellTexts)
    ensures
        texts == (if locale@ == "en-US"@ {
            english_texts()
        } else {
            chinese_texts()
        }),
{
    if str_equal(locale, "en-US") {
        return ShellTexts {
            tray_hide: "Hide AstrBot",
            tray_show: "Show AstrBot",
            tray_reload: "Reload",
            tray_restart_backend: "Restart Backend",
            tray_quit: "Quit",
        };
    }
    ShellTexts {
        tray_hide: "隐藏 AstrBot",
        tray_show: "显示 AstrBot",
        tray_reload: "重新加载",
        tray_restart_backend: "重启后端",
        tray_quit: "退出",
    }
}

/// The supported locale that a name stands for: `zh-CN` for a name that,
/// trimmed and in lower case, starts with `zh`, `en-US` for one that starts
/// with `en`, and none for any other.
pub open spec fn normalized_locale(raw: Seq<char>) -> Option<Seq<char>> {
    let name = lowered(trim(raw));
    if starts_with(name, "zh"@) {
        Some("zh-CN"@)
    } else if starts_with(name, "en"@) {
        Some("en-US"@)
    } else {
        None
    }
}

/// Brings a locale name to one of the supported locales.
pub fn normalize_shell_locale(raw: &str) -> (locale: Option<&'static str>)
    ensures
        opt_str_view(locale) == normalized_locale(raw@),
{
    let v = chars_of(raw);
    let (from, to) = trim_bounds(v.as_slice());
    let name = lower_chars(slice_subrange(v.as_slice(), from, to));
    let zh = chars_of("zh");
    let en = chars_of("en");
    if chars_start_with(name.as_slice(), zh.as_slice()) {
        return Some("zh-CN");
    }
    if chars_start_with(name.as_slice(), en.as_slice()) {
        return Some("en-US");
    }
    None
}

/// The file that keeps the chosen locale: `data/desktop_state.json` below
/// the root directory that the environment names, or below the packaged
/// root where the environment names none.
pub open spec fn locale_state_path(root_env: Option<Seq<char>>, packaged_root_dir: Option<
    Seq<char>,
>) -> Option<Seq<char>> {
    if root_env is Some && trim(root_env.unwrap()).len() > 0 {
        Some(joined_path2(trim(root_env.unwrap()), "data"@, "desktop_state.json"@))
    } else {
        match packaged_root_dir {
            Some(root) => Some(joined_path2(root, "data"@, "desktop_state.json"@)),
            None => None,
        }
    }
}

/// The path of the file that keeps the chosen locale. `root_env` is the
/// text of the root directory variable, `None` where it is unset.
pub fn desktop_state_path_for_locale(root_env: Option<&str>, packaged_root_dir: Option<&str>) -> (path:
    Option<String>)
    ensures
        opt_view(path) == locale_state_path(
            opt_str_view(root_env),
            opt_str_view(packaged_root_dir),
        ),
{
    match root_env {
        Some(root) => {
            let root = crate::text::trim_str(root);
            if !root.is_empty() {
                return Some(join_path2(root, "data", "desktop_state.json"));
            }
        },
        None => {},
    }
    match packaged_root_dir {
        Some(root) => Some(join_path2(root, "data", "desktop_state.json")),
        None => None,
    }
}

/// The locale that the state file keeps: the string under `locale` of the
/// document that the text holds, brought to a supported locale.
pub open spec fn cached_locale(state_text: Seq<char>) -> Option<Seq<char>> {
    match json_document(encode_utf8(state_text)) {
        Some(document) => match json_member(document, "locale"@) {
            Some(member) => match json_text(member) {
                Some(name) => normalized_locale(name),
                None => None,
            },
            None => None,
        },
        None => None,
    }
}

/// Reads the locale that the state file keeps. `state_text` is the content
/// of the file, `None` where there is no file that can be read.
pub fn read_cached_shell_locale(state_text: Option<&str>) -> (locale: Option<&'static str>)
    ensures
        opt_str_view(locale) == (match opt_str_view(state_text) {
            Some(text) => cached_locale(text),
            None => None,
        }),
{
    let text = match state_text {
        Some(text) => text,
        None => {
            return None;
        },
    };
    let document = match json_from_slice(text.as_bytes()) {
        Ok(document) => document,
        Err(_) => {
            return None;
        },
    };
    let member = match json_get(&document, "locale") {
        Some(member) => member,
        None => {
            return None;
        },
    };
    match member.as_str() {
        Some(name) => normalize_shell_locale(name),
        None => None,
    }
}

/// The first of the values that is there.
pub open spec fn or_else(first: Option<Seq<char>>, second: Option<Seq<char>>) -> Option<Seq<char>> {
    match first {
        Some(value) => Some(value),
        None => second,
    }
}

/// The locale that a variable names, where it is set to a supported one.
pub open spec fn env_locale(raw: Option<Seq<char>>) -> Option<Seq<char>> {
    match raw {
        Some(raw) => normalized_locale(raw),
        None => None,
    }
}

/// The locale of the shell: the one that the state file keeps; else the
/// first that the variables for the desktop locale, `LC_ALL` and `LANG`
/// name, in this order; else the default.
pub open spec fn shell_locale(
    default_shell_locale: Seq<char>,
    state_text: Option<Seq<char>>,
    desktop_locale: Option<Seq<char>>,
    lc_all: Option<Seq<char>>,
    lang: Option<Seq<char>>,
) -> Seq<char> {
    let cached = match state_text {
        Some(text) => cached_locale(text),
        None => None,
    };
    match or_else(cached, or_else(env_locale(desktop_locale), or_else(env_locale(lc_all), env_locale(lang)))) {
        Some(locale) => locale,
        None => default_shell_locale,
    }
}

/// Resolves the locale of the shell. `state_text` is the content of the
/// state file; the other three are the texts of the variables.
pub fn resolve_shell_locale(
    default_shell_locale: &'static str,
    state_text: Option<&str>,
    desktop_locale: Option<&str>,
    lc_all: Option<&str>,
    lang: Option<&str>,
) -> (locale: &'static str)
    ensures
        locale@ == shell_locale(
            default_shell_locale@,
            opt_str_view(state_text),
            opt_str_view(desktop_locale),
            opt_str_view(lc_all),
            opt_str_view(lang),
        ),
{
    match read_cached_shell_locale(state_text) {
        Some(locale) => {
            return locale;
        },
        None => {},
    }
    match desktop_locale {
        Some(value) => match normalize_shell_locale(value) {
            Some(locale) => {
                return locale;
            },
            None => {},
        },
        None => {},
    }
    match lc_all {
        Some(value) => match normalize_shell_locale(value) {
            Some(locale) => {
                return locale;
            },
            None => {},
        },
        None => {},
    }
    match lang {
        Some(value) => match normalize_shell_locale(value) {
            Some(locale) => {
                return locale;
            },
            None => {},
        },
        None => {},
    }
    default_shell_locale
}

/// What was found of the state file.
#[derive(Debug)]
pub enum StateFile {
    /// There is no file.
    Missing,
    /// The file could not be read; the field holds the error.
    Unreadable(String),
    /// The content of the file.
    Text(String),
}

/// The empty object, as a document.
pub open spec fn empty_object() -> Option<serde_json::Value> {
    json_document(encode_utf8("{}"@))
}

/// The object that the new state starts from: the document of the file
/// where it is an object, and the empty object where there is no file, or
/// the file holds no document or no object.
pub open spec fn state_base(file: StateFile) -> Option<serde_json::Value> {
    match file {
        StateFile::Text(text) => match json_document(encode_utf8(text@)) {
            Some(document) => if json_is_object(document) {
                Some(document)
            } else {
                empty_object()
            },
            None => empty_object(),
        },
        _ => empty_object(),
    }
}

/// The new state: the base with the locale set, or without one where the
/// locale that was asked for is not supported.
pub open spec fn merged_state(base: serde_json::Value, locale: Option<Seq<char>>) -> serde_json::Value {
    let normalized = match locale {
        Some(name) => normalized_locale(name),
        None => None,
    };
    match normalized {
        Some(name) => json_with_text(base, "locale"@, name),
        None => json_without(base, "locale"@),
    }
}

/// The content to write to the state file, or the error in its place. A
/// file that cannot be read for another reason than that it is missing is
/// an error, and nothing is written then.
pub open spec fn locale_state_text(
    locale: Option<Seq<char>>,
    state_path: Seq<char>,
    file: StateFile,
) -> Result<Seq<char>, Seq<char>> {
    match file {
        StateFile::Unreadable(error) => Err(
            "Failed to read shell locale state "@ + state_path + ": "@ + error@,
        ),
        _ => match state_base(file) {
            Some(base) => if json_is_object(base) {
                match json_pretty_text(merged_state(base, locale)) {
                    Ok(text) => Ok(text),
                    Err(error) => Err("Failed to serialize shell locale state: "@ + error),
                }
            } else {
                Err(
                    "Failed to normalize shell locale state "@ + state_path
                        + ": failed to normalize value into JSON object"@,
                )
            },
            None => Err(
                "Failed to normalize shell locale state "@ + state_path
                    + ": failed to normalize value into JSON object"@,
            ),
        },
    }
}

/// What keeping the locale comes to: nothing to write where there is no
/// path to keep it at, and else the content to write or the error.
pub open spec fn locale_persistence(
    locale: Option<Seq<char>>,
    state_path: Option<Seq<char>>,
    file: StateFile,
) -> Result<Option<Seq<char>>, Seq<char>> {
    match state_path {
        None => Ok(None),
        Some(path) => match locale_state_text(locale, path, file) {
            Ok(text) => Ok(Some(text)),
            Err(error) => Err(error),
        },
    }
}

/// The line about a locale that is not supported, where one was asked for.
pub open spec fn unsupported_locale_note(locale: Option<Seq<char>>) -> Seq<Seq<char>> {
    match locale {
        Some(name) => if normalized_locale(name) is None {
            seq!["unsupported shell locale '"@ + name + "'; clearing cached locale"@]
        } else {
            Seq::empty()
        },
        None => Seq::empty(),
    }
}

/// The lines logged while the state is merged.
pub open spec fn locale_state_notes(
    locale: Option<Seq<char>>,
    state_path: Option<Seq<char>>,
    file: StateFile,
) -> Seq<Seq<char>> {
    unsupported_locale_note(locale) + (match state_path {
        None => seq!["shell locale state path is unavailable; skipping locale persistence"@],
        Some(path) => match file {
            StateFile::Text(text) => match json_document(encode_utf8(text@)) {
                Some(document) => if json_is_object(document) {
                    Seq::empty()
                } else {
                    seq!["shell locale state "@ + path + " has non-object root; resetting state file"@]
                },
                None => seq![
                    "failed to parse shell locale state "@ + path + ": "@ + json_error_text(
                        encode_utf8(text@),
                    ) + ". resetting state file"@,
                ],
            },
            _ => Seq::empty(),
        },
    })
}

/// The view of what keeping the locale came to.
pub open spec fn persistence_view(outcome: Result<Option<String>, String>) -> Result<
    Option<Seq<char>>,
    Seq<char>,
> {
    match outcome {
        Ok(text) => Ok(opt_view(text)),
        Err(error) => Err(error@),
    }
}

/// The error for a state that cannot be brought to an object.
fn normalize_failure(state_path: &str) -> (message: String)
    ensures
        message@ == "Failed to normalize shell locale state "@ + state_path@
            + ": failed to normalize value into JSON object"@,
{
    let mut message = owned("Failed to normalize shell locale state ");
    message.append(state_path);
    message.append(": failed to normalize value into JSON object");
    message
}

/// Merges the locale into the state that the file keeps and renders the
/// content to write. Everything else that the file keeps stays. Without a
/// path there is nothing to write, and that is no error. The second result
/// holds the lines to log.
pub fn write_cached_shell_locale(locale: Option<&str>, state_path: Option<&str>, file: &StateFile) -> (outcome:
    (Result<Option<String>, String>, Vec<String>))
    ensures
        persistence_view(outcome.0) == locale_persistence(
            opt_str_view(locale),
            opt_str_view(state_path),
            *file,
        ),
        texts(outcome.1@) == locale_state_notes(opt_str_view(locale), opt_str_view(state_path), *file),
{
    let mut notes: Vec<String> = Vec::new();
    assert(texts(notes@) =~= Seq::<Seq<char>>::empty());
    let normalized_locale = match locale {
        Some(name) => normalize_shell_locale(name),
        None => None,
    };
    match locale {
        Some(raw_locale) => {
            if normalized_locale.is_none() {
                let mut line = owned("unsupported shell locale '");
                line.append(raw_locale);
                line.append("'; clearing cached locale");
                push_optional(&mut notes, Some(line));
            }
        },
        None => {},
    }
    let ghost head = texts(notes@);
    assert(head =~= unsupported_locale_note(opt_str_view(locale)));
    assert(head + Seq::<Seq<char>>::empty() =~= head);
    let state_path = match state_path {
        Some(path) => path,
        None => {
            push_optional(
                &mut notes,
                Some(owned("shell locale state path is unavailable; skipping locale persistence")),
            );
            return (Ok(None), notes);
        },
    };
    let parsed: Option<serde_json::Value> = match file {
        StateFile::Text(raw) => match json_from_slice(raw.as_str().as_bytes()) {
            Ok(value) => {
                if value.is_object() {
                    Some(value)
                } else {
                    let mut line = owned("shell locale state ");
                    line.append(state_path);
                    line.append(" has non-object root; resetting state file");
                    push_optional(&mut notes, Some(line));
                    None
                }
            },
            Err(error) => {
                let mut line = owned("failed to parse shell locale state ");
                line.append(state_path);
                line.append(": ");
                line.append(error.as_str());
                line.append(". resetting state file");
                push_optional(&mut notes, Some(line));
                None
            },
        },
        StateFile::Missing => None,
        StateFile::Unreadable(error) => {
            let mut message = owned("Failed to read shell locale state ");
            message.append(state_path);
            message.append(": ");
            message.append(error.as_str());
            return (Err(message), notes);
        },
    };
    let mut state = match parsed {
        Some(value) => value,
        None => match json_from_slice("{}".as_bytes()) {
            Ok(value) => value,
            Err(_) => {
                return (Err(normalize_failure(state_path)), notes);
            },
        },
    };
    if !state.is_object() {
        return (Err(normalize_failure(state_path)), notes);
    }
    match normalized_locale {
        Some(name) => {
            json_set_text(&mut state, "locale", name);
        },
        None => {
            json_remove(&mut state, "locale");
        },
    }
    match json_pretty(&state) {
        Ok(text) => (Ok(Some(text)), notes),
        Err(error) => {
            let mut message = owned("Failed to serialize shell locale state: ");
            message.append(error.as_str());
            (Err(message), notes)
        },
    }
}

} // verus!
