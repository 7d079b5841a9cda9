//! URLs, parsed by the `url` crate. A parsed URL is kept as the crate's own
//! value; each of its parts that the library reads has a name here.

use vstd::prelude::*;
use vstd::utf8::encode_utf8;

verus! {

/// `url::Url`, taken as it is: a parsed URL.
#[verifier::external_type_specification]
#[verifier::external_body]
pub struct ExUrl(url::Url);

/// The URL that a text parses to, where it is one.
pub uninterp spec fn parsed_url(input: Seq<char>) -> Option<url::Url>;

/// The URL that a reference resolves to against a base, where it does.
pub uninterp spec fn joined_url(base: url::Url, reference: Seq<char>) -> Option<url::Url>;

/// The scheme of a URL, in lower case and without the colon.
pub uninterp spec fn url_scheme(url: url::Url) -> Seq<char>;

/// The host of a URL as text, where it has one.
pub uninterp spec fn url_host(url: url::Url) -> Option<Seq<char>>;

/// The port of a URL: the one it names, else the default of its scheme,
/// where there is one.
pub uninterp spec fn url_port(url: url::Url) -> Option<u16>;

/// The path of a URL.
pub uninterp spec fn url_path(url: url::Url) -> Seq<char>;

/// The query of a URL without the question mark, where it has one.
pub uninterp spec fn url_query(url: url::Url) -> Option<Seq<char>>;

/// A URL written out.
pub uninterp spec fn url_text(url: url::Url) -> Seq<char>;

/// A URL with its path replaced.
pub uninterp spec fn url_with_path(url: url::Url, path: Seq<char>) -> url::Url;

/// `url::Url::parse`: the URL that the text holds, or nothing where the
/// text is no absolute URL. The contract gives the result the name
/// `parsed_url`.
#[verifier::external_body]
pub(crate) fn url_parse(input: &str) -> (url: Option<url::Url>)
    ensures
        url == parsed_url(input@),
{
    match url::Url::parse(input) {
        Ok(url) => Some(url),
        Err(_) => None,
    }
}

/// `url::Url::join`: the reference resolved against the base, or nothing
/// where the result would be no URL. The contract gives the result the name
/// `joined_url`.
#[verifier::external_body]
pub(crate) fn url_join(base: &url::Url, reference: &str) -> (url: Option<url::Url>)
    ensures
        url == joined_url(*base, reference@),
{
    match base.join(reference) {
        Ok(url) => Some(url),
        Err(_) => None,
    }
}

/// `url::Url::scheme`: the scheme of the URL. The contract gives the result
/// the name `url_scheme` and claims nothing else of it.
pub assume_specification<'a>[ url::Url::scheme ](url: &'a url::Url) -> (scheme: &'a str)
    ensures
        scheme@ == url_scheme(*url),
;

/// `url::Url::host_str`: the host of the URL as text, where it has one. The
/// contract gives the result the name `url_host`.
pub assume_specification<'a>[ url::Url::host_str ](url: &'a url::Url) -> (host: Option<&'a str>)
    ensures
        match host {
            Some(host) => url_host(*url) == Some(host@),
            None => url_host(*url) is None,
        },
;

/// `url::Url::port_or_known_default`: the port that the URL names, else the
/// default port of its scheme where the crate knows one. The contract gives
/// the result the name `url_port`.
pub assume_specification[ url::Url::port_or_known_default ](url: &url::Url) -> (port: Option<u16>)
    ensures
        port == url_port(*url),
;

/// `url::Url::path`: the path of the URL. The contract gives the result the
/// name `url_path`.
pub assume_specification<'a>[ url::Url::path ](url: &'a url::Url) -> (path: &'a str)
    ensures
        path@ == url_path(*url),
;

/// `url::Url::query`: the query of the URL, where it has one. The contract
/// gives the result the name `url_query`.
pub assume_specification<'a>[ url::Url::query ](url: &'a url::Url) -> (query: Option<&'a str>)
    ensures
        match query {
            Some(query) => url_query(*url) == Some(query@),
            None => url_query(*url) is None,
        },
;

/// `url::Url::as_str`: the URL written out. The contract gives the result
/// the name `url_text`.
pub assume_specification<'a>[ url::Url::as_str ](url: &'a url::Url) -> (text: &'a str)
    ensures
        text@ == url_text(*url),
;

/// `url::Url::set_path`: replaces the path of the URL. The contract gives
/// the URL that results the name `url_with_path`. The call keeps its
/// positions in 32 bits and panics where the URL with the new path does not
/// fit, so the contract asks that the URL as it is written out, with three
/// bytes for each byte of the new path and three more, stays within
/// 32 bits.
pub assume_specification[ url::Url::set_path ](url: &mut url::Url, path: &str)
    requires
        encode_utf8(url_text(*old(url))).len() + 3 * encode_utf8(path@).len() + 3 <= u32::MAX,
    ensures
        *final(url) == url_with_path(*old(url), path@),
;

} // verus!
