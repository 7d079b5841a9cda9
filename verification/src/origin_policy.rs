//! Whether a page belongs to the backend, so that the bridge to the desktop
//! may be offered to it.

use vstd::prelude::*;
use crate::text::str_equal;
use crate::urls::{url_host, url_port, url_scheme};

verus! {

/// Whether a page counts as a page of the backend.
#[derive(Debug, Clone, Copy, PartialEq, Eq, Structural)]
pub struct TrayOriginDecision {
    pub uses_backend_origin: bool,
}

/// Which of the two hosts are on this machine. The caller finds that out:
/// a host is on this machine where it is named `localhost` or is the text
/// of a loopback address, and telling an address from a name is the
/// business of the platform's address parser.
#[derive(Debug, Clone, Copy, PartialEq, Eq, Structural)]
pub struct LoopbackHosts {
    /// The host of the backend URL is `localhost` or a loopback address.
    pub backend: bool,
    /// The host of the page URL is `localhost` or a loopback address.
    pub window: bool,
}

/// Two URLs have the same origin: scheme, host and port are the same.
pub open spec fn same_origin_urls(left: url::Url, right: url::Url) -> bool {
    url_scheme(left) == url_scheme(right) && url_host(left) == url_host(right) && url_port(left)
        == url_port(right)
}

/// A scheme of the web.
pub open spec fn is_web_scheme(scheme: Seq<char>) -> bool {
    scheme == "http"@ || scheme == "https"@
}

/// A page counts as a page of the backend where it has the origin of the
/// backend, or where both are web pages on this machine with the same port.
pub open spec fn uses_backend_origin(
    backend_url: url::Url,
    window_url: url::Url,
    loopback: LoopbackHosts,
) -> bool {
    same_origin_urls(backend_url, window_url) || (is_web_scheme(url_scheme(backend_url))
        && is_web_scheme(url_scheme(window_url)) && loopback.backend && loopback.window
        && url_port(backend_url) == url_port(window_url))
}

/// Whether two hosts are the same.
fn same_host(left: Option<&str>, right: Option<&str>) -> (same: bool)
    ensures
        same == (crate::notes::opt_str_view(left) == crate::notes::opt_str_view(
            right,
        )),
{
    match (left, right) {
        (Some(left), Some(right)) => str_equal(left, right),
        (None, None) => true,
        _ => false,
    }
}

/// Whether two ports are the same.
fn same_port(left: Option<u16>, right: Option<u16>) -> (same: bool)
    ensures
        same == (left == right),
{
    match (left, right) {
        (Some(left), Some(right)) => left == right,
        (None, None) => true,
        _ => false,
    }
}

/// Whether a scheme is one of the web.
fn web_scheme(scheme: &str) -> (web: bool)
    ensures
        web == is_web_scheme(scheme@),
{
    str_equal(scheme, "http") || str_equal(scheme, "https")
}

/// Decides whether a page counts as a page of the backend. `loopback` says
/// of each of the two hosts whether it is on this machine.
pub fn tray_origin_decision(
    backend_url: &url::Url,
    window_url: &url::Url,
    loopback: LoopbackHosts,
) -> (decision: TrayOriginDecision)
    ensures
        decision.uses_backend_origin == uses_backend_origin(*backend_url, *window_url, loopback),
{
    let same = str_equal(backend_url.scheme(), window_url.scheme()) && same_host(
        backend_url.host_str(),
        window_url.host_str(),
    ) && same_port(backend_url.port_or_known_default(), window_url.port_or_known_default());
    if same {
        return TrayOriginDecision { uses_backend_origin: true };
    }
    if !web_scheme(backend_url.scheme()) || !web_scheme(window_url.scheme()) {
        return TrayOriginDecision { uses_backend_origin: false };
    }
    if !(loopback.backend && loopback.window) {
        return TrayOriginDecision { uses_backend_origin: false };
    }
    TrayOriginDecision {
        uses_backend_origin: same_port(
            backend_url.port_or_known_default(),
            window_url.port_or_known_default(),
        ),
    }
}

/// Whether the host of a URL is named `localhost`. Hosts that are loopback
/// addresses are recognised by the caller.
pub fn is_localhost(host: Option<&str>) -> (local: bool)
    ensures
        local == (crate::notes::opt_str_view(host) == Some("localhost"@)),
{
    match host {
        Some(host) => str_equal(host, "localhost"),
        None => false,
    }
}

} // verus!
