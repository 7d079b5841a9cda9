//! The client side of the conversation with the backend: when a response
//! has arrived in full, how the bytes read so far are kept, and which token
//! may go into a request.

use vstd::prelude::*;
use vstd::slice::slice_subrange;
use vstd::string::StringExecFns;
use vstd::utf8::{encode_utf8, is_ascii_chars_encode_utf8};
use crate::backend_runtime::DEFAULT_BACKEND_URL;
use crate::http_response::{
    body_bytes, header_len, header_text, parse_http_response_parts,
};
use crate::lines::{find_line_with_prefix, first_with_prefix, split_lines};
use crate::notes::opt_str_view;
use crate::numbers::{parse_unsigned, unsigned_value_up_to};
use crate::numbers::{decimal_string, decimal_text};
use crate::search::{chars_contain, chars_contain_char, contains, find_bytes};
use crate::text::{owned, str_equal, trim_str};
use crate::text::{
    chars_of, is_whitespace, lemma_trim_is_tight, lemma_trim_start_shape, lemma_trim_end_shape,
    lower_chars, lowered, trim, trim_bounds, trim_chars, trim_end, trim_start,
};
use crate::urls::{
    joined_url, parsed_url, url_host, url_join, url_parse, url_path, url_port, url_query,
    url_scheme, url_text, url_with_path,
};

verus! {

/// The chunk of size zero that ends a chunked body, with the empty line
/// behind it.
pub open spec fn final_chunk() -> Seq<u8> {
    seq![48u8, 13u8, 10u8, 13u8, 10u8]
}

/// The length that a header, given in lower case, declares for the body:
/// the number behind `content-length:` in the first line that starts so.
pub open spec fn declared_content_length(folded_header: Seq<char>) -> Option<nat> {
    match first_with_prefix(split_lines(folded_header), "content-length:"@) {
        Some(value) => unsigned_value_up_to(trim(value), 10, usize::MAX as nat),
        None => None,
    }
}

/// Whether a response with this header has arrived in full once `body` has.
/// A header that declares `transfer-encoding: chunked` asks for the final
/// chunk somewhere in the body; otherwise a declared length asks for so
/// many bytes; a header that declares neither is never complete.
pub open spec fn response_complete(header: Seq<char>, body: Seq<u8>) -> bool {
    let folded = lowered(header);
    if contains(folded, "transfer-encoding: chunked"@) {
        contains(body, final_chunk())
    } else {
        match declared_content_length(folded) {
            Some(length) => body.len() >= length,
            None => false,
        }
    }
}

/// Whether the bytes read so far are a response that has arrived in full.
pub open spec fn is_complete_response(raw: Seq<u8>) -> bool {
    match header_text(raw) {
        Some(header) => response_complete(header, body_bytes(raw).unwrap()),
        None => false,
    }
}

/// Decides, from the header text and the body received so far, whether the
/// response has arrived in full.
pub fn response_is_complete(header: &str, body: &[u8]) -> (complete: bool)
    ensures
        complete == response_complete(header@, body@),
{
    let text = chars_of(header);
    let folded = lower_chars(text.as_slice());
    let chunked = chars_of("transfer-encoding: chunked");
    if chars_contain(folded.as_slice(), chunked.as_slice()) {
        let marker: Vec<u8> = vec![48u8, 13u8, 10u8, 13u8, 10u8];
        assert(marker@ =~= final_chunk());
        return find_bytes(body, marker.as_slice()).is_some();
    }
    let key = chars_of("content-length:");
    let (from, to) = match find_line_with_prefix(folded.as_slice(), key.as_slice()) {
        Some(bounds) => bounds,
        None => {
            return false;
        },
    };
    let value = trim_chars(slice_subrange(folded.as_slice(), from, to));
    match parse_unsigned(value, 10, usize::MAX as u128) {
        Some(length) => body.len() as u128 >= length,
        None => false,
    }
}

/// Whether the bytes read so far are a response that has arrived in full:
/// the header has ended, and the body is as long as the header asks.
pub fn is_complete_http_response(raw: &[u8]) -> (complete: bool)
    ensures
        complete == is_complete_response(raw@),
{
    match parse_http_response_parts(raw) {
        Some((header, body)) => response_is_complete(header.as_str(), body),
        None => false,
    }
}

/// A response whose header declares a length and no chunked body is
/// complete exactly when its body has reached that length: not before, and
/// from then on whatever else arrives.
pub proof fn lemma_content_length_decides(raw: Seq<u8>, more: Seq<u8>, length: nat)
    requires
        header_text(raw) is Some,
        !contains(lowered(header_text(raw).unwrap()), "transfer-encoding: chunked"@),
        declared_content_length(lowered(header_text(raw).unwrap())) == Some(length),
    ensures
        is_complete_response(raw) <==> raw.len() - header_len(raw).unwrap() >= length,
        header_text(raw + more) == header_text(raw),
        is_complete_response(raw) ==> is_complete_response(raw + more),
{
    crate::http_response::lemma_header_is_stable(raw, more);
    let len = header_len(raw).unwrap();
    assert((raw + more).skip(len) =~= raw.skip(len) + more);
}

/// What may stand behind `Bearer` in a request: the token without the
/// whitespace around it. A token that holds a carriage return or a line
/// feed, or nothing but whitespace, may not.
pub open spec fn sanitized_token(token: Seq<char>) -> Option<Seq<char>> {
    if token.contains('\r') || token.contains('\n') || trim(token).len() == 0 {
        None
    } else {
        Some(trim(token))
    }
}

/// Checks a token before it goes into a request header.
pub fn sanitize_authorization_token(token: &str) -> (clean: Option<&str>)
    ensures
        opt_str_view(clean) == sanitized_token(token@),
{
    let v = chars_of(token);
    if chars_contain_char(v.as_slice(), '\r') || chars_contain_char(v.as_slice(), '\n') {
        return None;
    }
    let (from, to) = trim_bounds(v.as_slice());
    if from == to {
        return None;
    }
    Some(token.substring_char(from, to))
}

/// A token that holds a line break is rejected, and so is one that is
/// blank. A token that is accepted is the given one, trimmed: it is not
/// empty, has no whitespace at either end and no line break anywhere, and
/// checking it again changes nothing.
pub proof fn lemma_sanitized_token(token: Seq<char>)
    ensures
        token.contains('\r') || token.contains('\n') ==> sanitized_token(token) is None,
        (forall|i: int| 0 <= i < token.len() ==> is_whitespace(token[i])) ==> sanitized_token(token)
            is None,
        sanitized_token(token) is Some ==> {
            let clean = sanitized_token(token).unwrap();
            &&& clean == trim(token)
            &&& clean.len() > 0
            &&& !is_whitespace(clean[0])
            &&& !is_whitespace(clean.last())
            &&& !clean.contains('\r')
            &&& !clean.contains('\n')
            &&& sanitized_token(clean) == Some(clean)
        },
{
    lemma_trim_is_tight(token);
    if sanitized_token(token) is Some {
        let clean = trim(token);
        lemma_trim_start_shape(token);
        lemma_trim_end_shape(trim_start(token));
        let inner = trim_start(token);
        assert forall|c: char| clean.contains(c) implies token.contains(c) by {
            let i = choose|i: int| 0 <= i < clean.len() && clean[i] == c;
            assert(clean[i] == inner[i]);
            assert(inner[i] == token[i + (token.len() - inner.len())]);
        }
        assert(trim_start(clean) == clean);
        assert(trim_end(clean) == clean);
    }
}

/// What one attempt to read from the connection brought.
#[derive(Debug)]
pub enum ReadEvent {
    /// So many bytes arrived. No bytes at all stand for the end of the
    /// stream.
    Data(Vec<u8>),
    /// The attempt ran into the read timeout.
    TimedOut,
    /// The attempt failed in another way.
    Failed,
}

/// What to do after an attempt to read.
#[derive(Debug, Clone, Copy, PartialEq, Eq, Structural)]
pub enum ReadStep {
    /// Read again.
    Continue,
    /// Stop; the bytes kept so far are the response.
    Done,
    /// Stop; there is no response.
    Abort,
}

/// The bytes kept after an event: what was there, and what arrived.
pub open spec fn bytes_after(buffer: Seq<u8>, event: ReadEvent) -> Seq<u8> {
    match event {
        ReadEvent::Data(bytes) => buffer + bytes@,
        _ => buffer,
    }
}

/// The step that follows an event. The end of the stream ends the reading,
/// and so does a response that has arrived in full. A timeout ends it with
/// what has arrived so far, where anything has; with nothing kept, the end
/// of the stream and a timeout give no response, and another failure never
/// does.
pub open spec fn read_step(buffer: Seq<u8>, event: ReadEvent) -> ReadStep {
    match event {
        ReadEvent::Data(bytes) => if bytes@.len() == 0 {
            if buffer.len() == 0 {
                ReadStep::Abort
            } else {
                ReadStep::Done
            }
        } else if is_complete_response(buffer + bytes@) {
            ReadStep::Done
        } else {
            ReadStep::Continue
        },
        ReadEvent::TimedOut => if buffer.len() == 0 {
            ReadStep::Abort
        } else {
            ReadStep::Done
        },
        ReadEvent::Failed => ReadStep::Abort,
    }
}

/// Takes in what one attempt to read brought and decides how to go on.
pub fn accept_read(response: &mut Vec<u8>, event: &ReadEvent) -> (step: ReadStep)
    ensures
        final(response)@ == bytes_after(old(response)@, *event),
        step == read_step(old(response)@, *event),
{
    match event {
        ReadEvent::Data(bytes) => {
            if bytes.len() == 0 {
                assert(response@ + bytes@ =~= response@);
                if response.len() == 0 {
                    ReadStep::Abort
                } else {
                    ReadStep::Done
                }
            } else {
                response.extend_from_slice(bytes.as_slice());
                if is_complete_http_response(response.as_slice()) {
                    ReadStep::Done
                } else {
                    ReadStep::Continue
                }
            }
        },
        ReadEvent::TimedOut => {
            if response.len() == 0 {
                ReadStep::Abort
            } else {
                ReadStep::Done
            }
        },
        ReadEvent::Failed => ReadStep::Abort,
    }
}

/// The response that a run of attempts to read gives, starting with
/// `buffer` kept: the bytes kept when the reading stops, and none where it
/// is aborted. A run that ends before the reading stops counts as a stream
/// that ended there.
pub open spec fn response_of_reads(buffer: Seq<u8>, events: Seq<ReadEvent>) -> Option<Seq<u8>>
    decreases events.len(),
{
    if events.len() == 0 {
        if buffer.len() == 0 {
            None
        } else {
            Some(buffer)
        }
    } else {
        match read_step(buffer, events[0]) {
            ReadStep::Continue => response_of_reads(
                bytes_after(buffer, events[0]),
                events.drop_first(),
            ),
            ReadStep::Done => Some(bytes_after(buffer, events[0])),
            ReadStep::Abort => None,
        }
    }
}

/// Reads a response from a run of attempts to read, taken in order until
/// the reading stops.
pub fn read_http_response_bytes(events: &[ReadEvent]) -> (response: Option<Vec<u8>>)
    ensures
        response.is_some() == response_of_reads(Seq::empty(), events@).is_some(),
        response.is_some() ==> response.unwrap()@ == response_of_reads(
            Seq::empty(),
            events@,
        ).unwrap(),
{
    let mut response: Vec<u8> = Vec::new();
    let mut i: usize = 0;
    assert(events@.skip(0) =~= events@);
    while i < events.len()
        invariant
            i <= events.len(),
            response_of_reads(Seq::empty(), events@) == response_of_reads(
                response@,
                events@.skip(i as int),
            ),
        decreases events.len() - i,
    {
        proof {
            assert(events@.skip(i as int)[0] == events@[i as int]);
            assert(events@.skip(i as int).drop_first() =~= events@.skip(i + 1));
        }
        match accept_read(&mut response, &events[i]) {
            ReadStep::Continue => {},
            ReadStep::Done => {
                return Some(response);
            },
            ReadStep::Abort => {
                return None;
            },
        }
        i += 1;
    }
    if response.len() == 0 {
        None
    } else {
        Some(response)
    }
}

/// A response is never empty, and a failure that is no timeout gives none
/// whatever has arrived before it.
pub proof fn lemma_response_is_never_empty(buffer: Seq<u8>, events: Seq<ReadEvent>)
    ensures
        response_of_reads(buffer, events) is Some ==> response_of_reads(buffer, events).unwrap().len()
            > 0,
        events.len() > 0 && events[0] is Failed ==> response_of_reads(buffer, events) is None,
        events.len() > 0 && events[0] is TimedOut ==> response_of_reads(buffer, events) == (
        if buffer.len() == 0 {
            None
        } else {
            Some(buffer)
        }),
    decreases events.len(),
{
    if events.len() > 0 {
        match read_step(buffer, events[0]) {
            ReadStep::Continue => {
                lemma_response_is_never_empty(bytes_after(buffer, events[0]), events.drop_first());
            },
            ReadStep::Done => {},
            ReadStep::Abort => {},
        }
    }
}

/// The shortest timeout that a connection is made with.
pub const MIN_CONNECT_TIMEOUT_MS: u64 = 50;

/// The timeout that a connection is made with: the one asked for, and at
/// least 50 ms.
pub open spec fn connect_timeout(timeout_ms: u64) -> u64 {
    if timeout_ms < MIN_CONNECT_TIMEOUT_MS {
        MIN_CONNECT_TIMEOUT_MS
    } else {
        timeout_ms
    }
}

/// Where to connect to, and how long an attempt may take.
#[derive(Debug)]
pub struct ConnectTarget {
    pub host: String,
    pub port: u16,
    /// The timeout of connecting, of reading and of writing, in
    /// milliseconds.
    pub timeout_ms: u64,
}

/// The port to connect to: the port of the URL, and 80 where it has none.
pub open spec fn port_or_80(url: url::Url) -> u16 {
    match url_port(url) {
        Some(port) => port,
        None => 80,
    }
}

/// Whether a reachability check of the backend has anywhere to connect to:
/// the backend URL parses and has a host.
pub open spec fn has_ping_target(backend_url: Seq<char>) -> bool {
    parsed_url(backend_url) is Some && url_host(parsed_url(backend_url).unwrap()) is Some
}

/// Where a reachability check of the backend connects to. `None` where the
/// backend URL does not parse or has no host: the backend then counts as
/// unreachable.
pub fn ping_target(backend_url: &str, timeout_ms: u64) -> (target: Option<ConnectTarget>)
    ensures
        target.is_some() == has_ping_target(backend_url@),
        target.is_some() ==> {
            let url = parsed_url(backend_url@).unwrap();
            &&& Some(target.unwrap().host@) == url_host(url)
            &&& target.unwrap().port == port_or_80(url)
            &&& target.unwrap().timeout_ms == connect_timeout(timeout_ms)
        },
{
    let parsed = match url_parse(backend_url) {
        Some(url) => url,
        None => {
            return None;
        },
    };
    let host = match parsed.host_str() {
        Some(host) => owned(host),
        None => {
            return None;
        },
    };
    let port = match parsed.port_or_known_default() {
        Some(port) => port,
        None => 80,
    };
    Some(ConnectTarget { host, port, timeout_ms: if timeout_ms < 50 {
        50
    } else {
        timeout_ms
    } })
}

/// What stands behind the method in the request line: the path, then `?`
/// and the query where there is one; `/` where that is empty.
pub open spec fn request_target(url: url::Url) -> Seq<char> {
    let target = match url_query(url) {
        Some(query) => url_path(url) + "?"@ + query,
        None => url_path(url),
    };
    if target.len() == 0 {
        "/"@
    } else {
        target
    }
}

/// The header line that carries the token, where there is a token that may
/// go into a request, and nothing otherwise.
pub open spec fn authorization_header(auth_token: Option<Seq<char>>) -> Seq<char> {
    match auth_token {
        Some(token) => match sanitized_token(token) {
            Some(clean) => "Authorization: Bearer "@ + clean + "\r\n"@,
            None => Seq::empty(),
        },
        None => Seq::empty(),
    }
}

/// No token can add a line to a request: the header line that carries a
/// token is empty, or it is one line that ends in CR LF and holds no other
/// carriage return or line feed.
pub proof fn lemma_authorization_header_is_one_line(auth_token: Option<Seq<char>>)
    ensures
        ({
            let header = authorization_header(auth_token);
            header.len() == 0 || (header.len() >= 2 && header[header.len() - 2] == '\r'
                && header[header.len() - 1] == '\n' && forall|i: int|
                0 <= i < header.len() - 2 ==> header[i] != '\r' && header[i] != '\n')
        }),
{
    reveal_strlit("Authorization: Bearer ");
    reveal_strlit("\r\n");
    let header = authorization_header(auth_token);
    if auth_token is Some && sanitized_token(auth_token.unwrap()) is Some {
        let clean = sanitized_token(auth_token.unwrap()).unwrap();
        lemma_sanitized_token(auth_token.unwrap());
        let prefix = "Authorization: Bearer "@;
        assert(prefix.len() == 22);
        assert forall|i: int| 0 <= i < header.len() - 2 implies header[i] != '\r' && header[i]
            != '\n' by {
            if i >= prefix.len() {
                assert(header[i] == clean[i - prefix.len()]);
                assert(clean.contains(clean[i - prefix.len()]));
            } else {
                assert(header[i] == prefix[i]);
            }
        }
    }
}

/// The request as it goes over the wire. `payload_len` is the length of the
/// payload in bytes.
pub open spec fn request_text(
    method: Seq<char>,
    target: Seq<char>,
    host: Seq<char>,
    authorization: Seq<char>,
    payload_len: nat,
    payload: Seq<char>,
) -> Seq<char> {
    method + " "@ + target + " HTTP/1.1\r\nHost: "@ + host
        + "\r\nAccept: application/json\r\nAccept-Encoding: identity\r\nConnection: close\r\n"@
        + authorization + "Content-Type: application/json\r\nContent-Length: "@ + decimal_text(
        payload_len,
    ) + "\r\n\r\n"@ + payload
}

/// The payload of a request: the body, or nothing where none is given.
pub open spec fn payload_of(body: Option<Seq<char>>) -> Seq<char> {
    match body {
        Some(body) => body,
        None => Seq::empty(),
    }
}

/// The URL that a request goes to: the path resolved against the backend
/// URL, where both parse, the result is an `http` URL and has a host.
pub open spec fn request_url(backend_url: Seq<char>, api_path: Seq<char>) -> Option<url::Url> {
    match parsed_url(backend_url) {
        Some(base) => match joined_url(base, api_path) {
            Some(url) => if url_scheme(url) == "http"@ && url_host(url) is Some {
                Some(url)
            } else {
                None
            },
            None => None,
        },
        None => None,
    }
}

/// One request to the backend: where to connect to, and what to send.
#[derive(Debug)]
pub struct BackendRequest {
    pub target: ConnectTarget,
    pub text: String,
}

/// Builds a request to the backend. `None` where the backend URL or the
/// path does not parse, the scheme is not `http`, or the URL has no host;
/// nothing is sent then. The token goes into the request only where
/// `sanitized_token` accepts it.
pub fn build_backend_request(
    backend_url: &str,
    method: &str,
    api_path: &str,
    timeout_ms: u64,
    body: Option<&str>,
    auth_token: Option<&str>,
) -> (request: Option<BackendRequest>)
    ensures
        request.is_some() == request_url(backend_url@, api_path@).is_some(),
        request.is_some() ==> {
            let url = request_url(backend_url@, api_path@).unwrap();
            let request = request.unwrap();
            &&& Some(request.target.host@) == url_host(url)
            &&& request.target.port == port_or_80(url)
            &&& request.target.timeout_ms == connect_timeout(timeout_ms)
            &&& request.text@ == request_text(
                method@,
                request_target(url),
                url_host(url).unwrap(),
                authorization_header(opt_str_view(auth_token)),
                encode_utf8(payload_of(opt_str_view(body))).len(),
                payload_of(opt_str_view(body)),
            )
        },
{
    let base = match url_parse(backend_url) {
        Some(base) => base,
        None => {
            return None;
        },
    };
    let url = match url_join(&base, api_path) {
        Some(url) => url,
        None => {
            return None;
        },
    };
    if !str_equal(url.scheme(), "http") {
        return None;
    }
    let host = match url.host_str() {
        Some(host) => host,
        None => {
            return None;
        },
    };
    let port = match url.port_or_known_default() {
        Some(port) => port,
        None => 80,
    };
    let mut target = owned(url.path());
    match url.query() {
        Some(query) => {
            target.append("?");
            target.append(query);
        },
        None => {},
    }
    if target.as_str().is_empty() {
        target = owned("/");
    }
    let payload: &str = match body {
        Some(body) => body,
        None => "",
    };
    proof {
        reveal_strlit("");
        assert(""@ =~= Seq::<char>::empty());
    }
    let mut authorization = String::new();
    match auth_token {
        Some(token) => match sanitize_authorization_token(token) {
            Some(clean) => {
                authorization.append("Authorization: Bearer ");
                authorization.append(clean);
                authorization.append("\r\n");
                assert(authorization@ =~= "Authorization: Bearer "@ + clean@ + "\r\n"@);
            },
            None => {},
        },
        None => {},
    }
    let mut text = owned(method);
    text.append(" ");
    text.append(target.as_str());
    text.append(" HTTP/1.1\r\nHost: ");
    text.append(host);
    text.append(
        "\r\nAccept: application/json\r\nAccept-Encoding: identity\r\nConnection: close\r\n",
    );
    text.append(authorization.as_str());
    text.append("Content-Type: application/json\r\nContent-Length: ");
    let payload_len: usize = payload.as_bytes().len();
    text.append(decimal_string(payload_len as u64).as_str());
    text.append("\r\n\r\n");
    text.append(payload);
    Some(
        BackendRequest {
            target: ConnectTarget { host: owned(host), port, timeout_ms: if timeout_ms < 50 {
                50
            } else {
                timeout_ms
            } },
            text,
        },
    )
}

/// The longest URL, in bytes, that is given a path.
pub const MAX_URL_BYTES_FOR_PATH: usize = 0xffff_fff0;

/// The backend URL that the supervisor works with: the trimmed text as the
/// `url` crate writes it out, with `/` as its path where it has none, and
/// the default where the text is blank or no URL. A URL without a path that
/// is too long to be given one is answered with the default as well.
pub open spec fn normalized_backend_url(raw: Seq<char>) -> Seq<char> {
    let text = trim(raw);
    if text.len() == 0 {
        DEFAULT_BACKEND_URL@
    } else {
        match parsed_url(text) {
            Some(url) => if url_path(url).len() != 0 {
                url_text(url)
            } else if encode_utf8(url_text(url)).len() <= MAX_URL_BYTES_FOR_PATH {
                url_text(url_with_path(url, "/"@))
            } else {
                DEFAULT_BACKEND_URL@
            },
            None => DEFAULT_BACKEND_URL@,
        }
    }
}

/// Brings the configured backend URL into the form the supervisor works
/// with.
pub fn normalize_backend_url(raw: &str) -> (url: String)
    ensures
        url@ == normalized_backend_url(raw@),
{
    let trimmed = trim_str(raw);
    if trimmed.is_empty() {
        return owned(DEFAULT_BACKEND_URL);
    }
    match url_parse(trimmed) {
        Some(parsed) => {
            let mut parsed = parsed;
            if parsed.path().is_empty() {
                if parsed.as_str().as_bytes().len() > MAX_URL_BYTES_FOR_PATH {
                    return owned(DEFAULT_BACKEND_URL);
                }
                proof {
                    reveal_strlit("/");
                    is_ascii_chars_encode_utf8("/"@);
                }
                parsed.set_path("/");
            }
            owned(parsed.as_str())
        },
        None => owned(DEFAULT_BACKEND_URL),
    }
}

} // verus!
