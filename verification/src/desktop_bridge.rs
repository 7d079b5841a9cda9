//! The bridge between a page of the backend and the desktop: which pages
//! get it, and the script that sets it up.

use vstd::prelude::*;
use vstd::string::StringExecFns;
use crate::origin_policy::{tray_origin_decision, uses_backend_origin, LoopbackHosts};
use crate::search::{chars_occur_at, occurs_at};
use crate::text::{chars_of, owned};
use crate::urls::{parsed_url, url_parse};

verus! {

/// The event that tells a page that the tray asked for a restart.
pub const TRAY_RESTART_BACKEND_EVENT: &'static str = "astrbot://tray-restart-backend";

/// What stands in the script template in place of the name of the event.
pub const BOOTSTRAP_EVENT_PLACEHOLDER: &'static str = "{TRAY_RESTART_BACKEND_EVENT}";

/// Whether the bridge is offered to a page: the backend URL parses, and the
/// page counts as a page of the backend.
pub fn should_inject_desktop_bridge(
    backend_url: &str,
    page_url: &url::Url,
    loopback: LoopbackHosts,
) -> (inject: bool)
    ensures
        inject == (match parsed_url(backend_url@) {
            Some(backend) => uses_backend_origin(backend, *page_url, loopback),
            None => false,
        }),
{
    match url_parse(backend_url) {
        Some(backend) => tray_origin_decision(&backend, page_url, loopback).uses_backend_origin,
        None => false,
    }
}

/// A text with every occurrence of a pattern replaced, the occurrences
/// taken from the left and without overlap. An empty pattern occurs
/// nowhere.
pub open spec fn replaced(text: Seq<char>, pattern: Seq<char>, with: Seq<char>) -> Seq<char>
    decreases text.len(),
{
    if pattern.len() == 0 || text.len() == 0 {
        text
    } else if occurs_at(text, pattern, 0) {
        with + replaced(text.skip(pattern.len() as int), pattern, with)
    } else {
        seq![text[0]] + replaced(text.drop_first(), pattern, with)
    }
}

/// The script that sets the bridge up: the template with the name of the
/// event in every place of the placeholder.
pub fn desktop_bridge_bootstrap_script(template: &str, event_name: &str) -> (script: String)
    ensures
        script@ == replaced(template@, BOOTSTRAP_EVENT_PLACEHOLDER@, event_name@),
{
    let text = chars_of(template);
    let pattern = chars_of(BOOTSTRAP_EVENT_PLACEHOLDER);
    if pattern.len() == 0 {
        return owned(template);
    }
    let mut script = String::new();
    let mut i: usize = 0;
    proof {
        assert(text@.skip(0) =~= text@);
        assert(script@ + replaced(text@, pattern@, event_name@) =~= replaced(
            text@,
            pattern@,
            event_name@,
        ));
    }
    while i < text.len()
        invariant
            i <= text.len(),
            pattern.len() > 0,
            text@ == template@,
            pattern@ == BOOTSTRAP_EVENT_PLACEHOLDER@,
            replaced(text@, pattern@, event_name@) == script@ + replaced(
                text@.skip(i as int),
                pattern@,
                event_name@,
            ),
        decreases text.len() - i,
    {
        let ghost rest = text@.skip(i as int);
        let ghost before = script@;
        if chars_occur_at(text.as_slice(), pattern.as_slice(), i) {
            proof {
                assert(rest.subrange(0, pattern.len() as int) =~= text@.subrange(
                    i as int,
                    i + pattern.len(),
                ));
                assert(rest.skip(pattern.len() as int) =~= text@.skip(i + pattern.len()));
                let tail = replaced(text@.skip(i + pattern.len()), pattern@, event_name@);
                assert(before + (event_name@ + tail) =~= (before + event_name@) + tail);
            }
            script.append(event_name);
            i += pattern.len();
        } else {
            proof {
                if i + pattern.len() <= text.len() {
                    assert(rest.subrange(0, pattern.len() as int) =~= text@.subrange(
                        i as int,
                        i + pattern.len(),
                    ));
                }
                assert(rest.drop_first() =~= text@.skip(i + 1));
                let tail = replaced(text@.skip(i + 1), pattern@, event_name@);
                assert(before + (seq![text@[i as int]] + tail) =~= before.push(text@[i as int])
                    + tail);
            }
            script.push(text[i]);
            i += 1;
        }
    }
    proof {
        assert(text@.skip(text.len() as int) =~= Seq::<char>::empty());
        assert(script@ + Seq::<char>::empty() =~= script@);
    }
    script
}

} // verus!
