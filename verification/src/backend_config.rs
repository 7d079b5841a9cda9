//! Configuration values that come from the environment: timeouts with their
//! clamped ranges and the path that the readiness probe asks for. The
//! functions take the raw text of a variable and return, beside the value,
//! the line to log where the text was not taken as it stood.

use vstd::prelude::*;
use vstd::slice::slice_subrange;
use vstd::string::StringExecFns;
use crate::notes::{note_list, opt_str_view, opt_view, push_optional, texts};
use crate::numbers::{
    decimal_string, decimal_text, is_unsigned, parse_unsigned, unsigned_value,
    unsigned_value_up_to,
};
use crate::text::{chars_of, owned, trim, trim_bounds};

verus! {

/// What a variable of the environment holds.
#[derive(Debug, Clone)]
pub enum EnvValue {
    /// The variable is not set.
    Unset,
    /// The variable is set to this text.
    Text(String),
    /// The variable is set to something that is no Unicode text; the field
    /// holds its lossy rendering.
    NotUnicode(String),
}

/// The number that `raw` holds: its text without the whitespace around it,
/// read as a decimal number of any size. Zero is a number like any other.
pub open spec fn timeout_number(raw: Seq<char>) -> Option<nat> {
    unsigned_value(trim(raw), 10)
}

/// The timeout that `raw` configures: the number itself where it lies in
/// `min_ms..=max_ms`, the nearer bound where it does not, and the fallback
/// where `raw` holds no number.
pub open spec fn clamped_timeout(raw: Seq<char>, fallback_ms: u64, min_ms: u64, max_ms: u64) -> u64 {
    match timeout_number(raw) {
        Some(parsed) => if parsed < min_ms {
            min_ms
        } else if parsed > max_ms {
            max_ms
        } else {
            parsed as u64
        },
        None => fallback_ms,
    }
}

/// The line logged for a value below the minimum.
pub open spec fn below_minimum_note(env_name: Seq<char>, raw: Seq<char>, min_ms: u64) -> Seq<char> {
    env_name + "='"@ + raw + "' is below minimum "@ + decimal_text(min_ms as nat)
        + "ms, clamped to "@ + decimal_text(min_ms as nat) + "ms"@
}

/// The line logged for a value above the maximum.
pub open spec fn above_maximum_note(env_name: Seq<char>, raw: Seq<char>, max_ms: u64) -> Seq<char> {
    env_name + "='"@ + raw + "' is above maximum "@ + decimal_text(max_ms as nat)
        + "ms, clamped to "@ + decimal_text(max_ms as nat) + "ms"@
}

/// The line logged for a value that is no number.
pub open spec fn invalid_value_note(env_name: Seq<char>, raw: Seq<char>, fallback_ms: u64) -> Seq<
    char,
> {
    "invalid "@ + env_name + "='"@ + raw + "', fallback to "@ + decimal_text(fallback_ms as nat)
        + "ms"@
}

/// The line that goes with `clamped_timeout`, where there is one.
pub open spec fn clamped_timeout_note(
    raw: Seq<char>,
    env_name: Seq<char>,
    fallback_ms: u64,
    min_ms: u64,
    max_ms: u64,
) -> Option<Seq<char>> {
    match timeout_number(raw) {
        Some(parsed) => if parsed < min_ms {
            Some(below_minimum_note(env_name, raw, min_ms))
        } else if parsed > max_ms {
            Some(above_maximum_note(env_name, raw, max_ms))
        } else {
            None
        },
        None => Some(invalid_value_note(env_name, raw, fallback_ms)),
    }
}

/// The line for a value that was clamped to a bound.
fn clamp_note(env_name: &str, raw: &str, relation: &str, bound_ms: u64) -> (note: String)
    ensures
        note@ == env_name@ + "='"@ + raw@ + relation@ + decimal_text(bound_ms as nat)
            + "ms, clamped to "@ + decimal_text(bound_ms as nat) + "ms"@,
{
    let bound = decimal_string(bound_ms);
    let mut note = owned(env_name);
    note.append("='");
    note.append(raw);
    note.append(relation);
    note.append(bound.as_str());
    note.append("ms, clamped to ");
    note.append(bound.as_str());
    note.append("ms");
    note
}

/// Reads a timeout in milliseconds from the text of a variable and clamps
/// it to `min_ms..=max_ms`. Text that is no number gives the fallback. Zero
/// is a number like any other, and so is one too large for the machine. The second result is the line to log: there is one whenever
/// the value returned is not the number that the text holds.
pub fn parse_clamped_timeout_env(
    raw: &str,
    env_name: &str,
    fallback_ms: u64,
    min_ms: u64,
    max_ms: u64,
) -> (outcome: (u64, Option<String>))
    ensures
        outcome.0 == clamped_timeout(raw@, fallback_ms, min_ms, max_ms),
        opt_view(outcome.1) == clamped_timeout_note(raw@, env_name@, fallback_ms, min_ms, max_ms),
{
    let v = chars_of(raw);
    let (from, to) = trim_bounds(v.as_slice());
    let field = slice_subrange(v.as_slice(), from, to);
    if !is_unsigned(field, 10) {
        let mut note = owned("invalid ");
        note.append(env_name);
        note.append("='");
        note.append(raw);
        note.append("', fallback to ");
        note.append(decimal_string(fallback_ms).as_str());
        note.append("ms");
        return (fallback_ms, Some(note));
    }
    match parse_unsigned(field, 10, u128::MAX) {
        Some(parsed) => {
            if parsed < min_ms as u128 {
                (min_ms, Some(clamp_note(env_name, raw, "' is below minimum ", min_ms)))
            } else if parsed > max_ms as u128 {
                (max_ms, Some(clamp_note(env_name, raw, "' is above maximum ", max_ms)))
            } else {
                (parsed as u64, None)
            }
        },
        // A number too large for 128 bits is above every maximum.
        None => (max_ms, Some(clamp_note(env_name, raw, "' is above maximum ", max_ms))),
    }
}

/// Reads the timeout of a reachability check: the same rule as
/// `parse_clamped_timeout_env`.
pub fn parse_ping_timeout_env(
    raw: &str,
    env_name: &str,
    fallback_ms: u64,
    min_ms: u64,
    max_ms: u64,
) -> (outcome: (u64, Option<String>))
    ensures
        outcome.0 == clamped_timeout(raw@, fallback_ms, min_ms, max_ms),
        opt_view(outcome.1) == clamped_timeout_note(raw@, env_name@, fallback_ms, min_ms, max_ms),
{
    parse_clamped_timeout_env(raw, env_name, fallback_ms, min_ms, max_ms)
}

/// A clamped timeout is the fallback or lies between the bounds; a number
/// below the minimum, zero among them, gives the minimum, one above the
/// maximum the maximum, and each of these three outcomes comes with its
/// line to log.
pub proof fn lemma_clamped_timeout_range(
    raw: Seq<char>,
    env_name: Seq<char>,
    fallback_ms: u64,
    min_ms: u64,
    max_ms: u64,
)
    requires
        min_ms <= max_ms,
    ensures
        timeout_number(raw) is None ==> clamped_timeout(raw, fallback_ms, min_ms, max_ms)
            == fallback_ms,
        timeout_number(raw) is Some ==> min_ms <= clamped_timeout(
            raw,
            fallback_ms,
            min_ms,
            max_ms,
        ) <= max_ms,
        timeout_number(raw) is Some && timeout_number(raw).unwrap() < min_ms ==> clamped_timeout(
            raw,
            fallback_ms,
            min_ms,
            max_ms,
        ) == min_ms,
        timeout_number(raw) is Some && timeout_number(raw).unwrap() > max_ms ==> clamped_timeout(
            raw,
            fallback_ms,
            min_ms,
            max_ms,
        ) == max_ms,
        timeout_number(raw) is Some && timeout_number(raw).unwrap() < min_ms
            ==> clamped_timeout_note(raw, env_name, fallback_ms, min_ms, max_ms) == Some(
            below_minimum_note(env_name, raw, min_ms),
        ),
        timeout_number(raw) is Some && timeout_number(raw).unwrap() > max_ms
            ==> clamped_timeout_note(raw, env_name, fallback_ms, min_ms, max_ms) == Some(
            above_maximum_note(env_name, raw, max_ms),
        ),
        timeout_number(raw) is None ==> clamped_timeout_note(
            raw,
            env_name,
            fallback_ms,
            min_ms,
            max_ms,
        ) == Some(invalid_value_note(env_name, raw, fallback_ms)),
        clamped_timeout_note(raw, env_name, fallback_ms, min_ms, max_ms) is None <==> (
        timeout_number(raw) is Some && min_ms <= timeout_number(raw).unwrap() <= max_ms),
{
}

/// The path that the readiness probe asks for: the trimmed text of the
/// variable with a leading `/`, or the default where the variable is unset,
/// blank or no Unicode text.
pub open spec fn ready_http_path(value: EnvValue, default_path: Seq<char>) -> Seq<char> {
    match value {
        EnvValue::Text(raw) => {
            let trimmed = trim(raw@);
            if trimmed.len() == 0 {
                default_path
            } else if trimmed[0] == '/' {
                trimmed
            } else {
                "/"@ + trimmed
            }
        },
        _ => default_path,
    }
}

/// The line that goes with `ready_http_path`, where there is one.
pub open spec fn ready_http_path_note(
    value: EnvValue,
    env_name: Seq<char>,
    default_path: Seq<char>,
) -> Option<Seq<char>> {
    match value {
        EnvValue::Unset => None,
        EnvValue::Text(raw) => {
            let trimmed = trim(raw@);
            if trimmed.len() == 0 {
                Some(
                    env_name + " is empty/whitespace, fallback to default '"@ + default_path
                        + "'"@,
                )
            } else if trimmed[0] == '/' {
                None
            } else {
                Some(
                    env_name + " is missing leading '/': '"@ + trimmed + "', normalized to '"@ + (
                    "/"@ + trimmed) + "'"@,
                )
            }
        },
        EnvValue::NotUnicode(lossy) => Some(
            env_name + " contains non-UTF-8 value '"@ + lossy@ + "', fallback to default '"@
                + default_path + "'"@,
        ),
    }
}

/// Resolves the path that the readiness probe asks for from the value of
/// its variable. The second result is the line to log, where the value was
/// not taken as it stood.
pub fn resolve_backend_ready_http_path(value: &EnvValue, env_name: &str, default_path: &str) -> (outcome:
    (String, Option<String>))
    ensures
        outcome.0@ == ready_http_path(*value, default_path@),
        opt_view(outcome.1) == ready_http_path_note(*value, env_name@, default_path@),
{
    match value {
        EnvValue::Unset => (owned(default_path), None),
        EnvValue::Text(raw) => {
            let v = chars_of(raw.as_str());
            let (from, to) = trim_bounds(v.as_slice());
            let trimmed = raw.as_str().substring_char(from, to);
            if from == to {
                let mut note = owned(env_name);
                note.append(" is empty/whitespace, fallback to default '");
                note.append(default_path);
                note.append("'");
                (owned(default_path), Some(note))
            } else if v[from] == '/' {
                assert(trim(raw@)[0] == v@[from as int]);
                (owned(trimmed), None)
            } else {
                assert(trim(raw@)[0] == v@[from as int]);
                let mut normalized = owned("/");
                normalized.append(trimmed);
                let mut note = owned(env_name);
                note.append(" is missing leading '/': '");
                note.append(trimmed);
                note.append("', normalized to '");
                note.append(normalized.as_str());
                note.append("'");
                (normalized, Some(note))
            }
        },
        EnvValue::NotUnicode(lossy) => {
            let mut note = owned(env_name);
            note.append(" contains non-UTF-8 value '");
            note.append(lossy.as_str());
            note.append("', fallback to default '");
            note.append(default_path);
            note.append("'");
            (owned(default_path), Some(note))
        },
    }
}

/// The timeout that an optional variable configures: the fallback where it
/// is unset, and `clamped_timeout` of its text where it is set.
pub open spec fn optional_clamped_timeout(
    raw: Option<Seq<char>>,
    fallback_ms: u64,
    min_ms: u64,
    max_ms: u64,
) -> u64 {
    match raw {
        Some(raw) => clamped_timeout(raw, fallback_ms, min_ms, max_ms),
        None => fallback_ms,
    }
}

/// The line that goes with `optional_clamped_timeout`, where there is one.
pub open spec fn optional_clamped_timeout_note(
    raw: Option<Seq<char>>,
    env_name: Seq<char>,
    fallback_ms: u64,
    min_ms: u64,
    max_ms: u64,
) -> Option<Seq<char>> {
    match raw {
        Some(raw) => clamped_timeout_note(raw, env_name, fallback_ms, min_ms, max_ms),
        None => None,
    }
}

/// Reads a clamped timeout from a variable that may be unset.
pub fn parse_optional_timeout_env(
    raw: Option<&str>,
    env_name: &str,
    fallback_ms: u64,
    min_ms: u64,
    max_ms: u64,
) -> (outcome: (u64, Option<String>))
    ensures
        outcome.0 == optional_clamped_timeout(opt_str_view(raw), fallback_ms, min_ms, max_ms),
        opt_view(outcome.1) == optional_clamped_timeout_note(
            opt_str_view(raw),
            env_name@,
            fallback_ms,
            min_ms,
            max_ms,
        ),
{
    match raw {
        Some(raw) => parse_clamped_timeout_env(raw, env_name, fallback_ms, min_ms, max_ms),
        None => (fallback_ms, None),
    }
}

/// One timeout setting: the text of its variable, the variable's name, and
/// the fallback and bounds in milliseconds.
pub struct TimeoutSetting<'a> {
    pub raw: Option<&'a str>,
    pub env_name: &'a str,
    pub fallback_ms: u64,
    pub min_ms: u64,
    pub max_ms: u64,
}

impl<'a> TimeoutSetting<'a> {
    /// The timeout that the setting configures.
    pub open spec fn value(self) -> u64 {
        optional_clamped_timeout(
            opt_str_view(self.raw),
            self.fallback_ms,
            self.min_ms,
            self.max_ms,
        )
    }

    /// The line to log for the setting, where there is one.
    pub open spec fn note(self) -> Option<Seq<char>> {
        optional_clamped_timeout_note(
            opt_str_view(self.raw),
            self.env_name@,
            self.fallback_ms,
            self.min_ms,
            self.max_ms,
        )
    }
}

/// Resolves what the readiness wait needs: the path to ask for, the timeout
/// of one probe and the pause between probes, in this order. The second
/// result holds the lines to log, in the order path, probe timeout, pause.
pub fn resolve_backend_readiness_config(
    path_value: &EnvValue,
    path_env_name: &str,
    default_path: &str,
    probe_timeout: TimeoutSetting,
    poll_interval: TimeoutSetting,
) -> (outcome: ((String, u64, u64), Vec<String>))
    ensures
        outcome.0.0@ == ready_http_path(*path_value, default_path@),
        outcome.0.1 == probe_timeout.value(),
        outcome.0.2 == poll_interval.value(),
        texts(outcome.1@) == note_list(
            ready_http_path_note(*path_value, path_env_name@, default_path@),
        ) + note_list(probe_timeout.note()) + note_list(poll_interval.note()),
{
    let mut notes: Vec<String> = Vec::new();
    assert(texts(notes@) =~= Seq::<Seq<char>>::empty());
    let (path, path_note) = resolve_backend_ready_http_path(path_value, path_env_name, default_path);
    push_optional(&mut notes, path_note);
    let (probe_timeout_ms, probe_note) = parse_optional_timeout_env(
        probe_timeout.raw,
        probe_timeout.env_name,
        probe_timeout.fallback_ms,
        probe_timeout.min_ms,
        probe_timeout.max_ms,
    );
    push_optional(&mut notes, probe_note);
    let (poll_interval_ms, poll_note) = parse_optional_timeout_env(
        poll_interval.raw,
        poll_interval.env_name,
        poll_interval.fallback_ms,
        poll_interval.min_ms,
        poll_interval.max_ms,
    );
    push_optional(&mut notes, poll_note);
    ((path, probe_timeout_ms, poll_interval_ms), notes)
}

/// The number that `raw` holds, where it is a decimal number of 64 bits.
pub open spec fn plain_number(raw: Option<Seq<char>>) -> Option<u64> {
    match raw {
        Some(raw) => match unsigned_value_up_to(trim(raw), 10, u64::MAX as nat) {
            Some(parsed) => Some(parsed as u64),
            None => None,
        },
        None => None,
    }
}

/// How long to wait for the backend, in milliseconds; `None` stands for no
/// limit. A configured number above zero is taken as it is. Without one, a
/// packaged backend gets the packaged fallback; a development backend gets
/// its default where nothing usable is configured, and no limit where zero
/// is.
pub open spec fn backend_timeout_ms(
    packaged_mode: bool,
    raw: Option<Seq<char>>,
    dev_default_timeout_ms: u64,
    packaged_timeout_fallback_ms: u64,
) -> Option<u64> {
    let configured = match plain_number(raw) {
        Some(parsed) => parsed,
        None => if packaged_mode {
            0
        } else {
            dev_default_timeout_ms
        },
    };
    if configured > 0 {
        Some(configured)
    } else if packaged_mode {
        Some(packaged_timeout_fallback_ms)
    } else {
        None
    }
}

/// Resolves how long to wait for the backend from the text of the timeout
/// variable, `None` where it is unset.
pub fn resolve_backend_timeout_ms(
    packaged_mode: bool,
    raw: Option<&str>,
    dev_default_timeout_ms: u64,
    packaged_timeout_fallback_ms: u64,
) -> (timeout_ms: Option<u64>)
    ensures
        timeout_ms == backend_timeout_ms(
            packaged_mode,
            opt_str_view(raw),
            dev_default_timeout_ms,
            packaged_timeout_fallback_ms,
        ),
{
    let default_timeout_ms: u64 = if packaged_mode {
        0
    } else {
        dev_default_timeout_ms
    };
    let parsed: Option<u128> = match raw {
        Some(raw) => {
            let v = chars_of(raw);
            let field = crate::text::trim_chars(v.as_slice());
            parse_unsigned(field, 10, u64::MAX as u128)
        },
        None => None,
    };
    let configured: u64 = match parsed {
        Some(parsed) => parsed as u64,
        None => default_timeout_ms,
    };
    if configured > 0 {
        Some(configured)
    } else if packaged_mode {
        Some(packaged_timeout_fallback_ms)
    } else {
        None
    }
}

} // verus!
