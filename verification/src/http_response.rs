//! Reading an HTTP/1.1 response: the split into header and body, the status
//! code of the status line, and the decoding of a chunked body.

use vstd::prelude::*;
use vstd::slice::slice_subrange;
use vstd::utf8::{decode_utf8, valid_utf8};
use crate::encoding::{decode_text, lossy_text, utf8_lossy};
use crate::json::{
    json_document, json_from_slice, json_get, json_member, json_signed, json_text, json_unsigned,
};
use crate::lines::{first_line, line_at, nth_token, split_lines, token_bounds};
use crate::numbers::{parse_unsigned, unsigned_value_up_to};
use crate::search::{
    chars_contain, chars_start_with, contains, find, find_bytes, lemma_find_from_is_first,
    occurs_at, position_from, position_of, starts_with,
};
use crate::text::{chars_of, lower_chars, lowered, str_equal, trim, trim_chars};

verus! {

/// Carriage return and line feed.
pub open spec fn crlf() -> Seq<u8> {
    seq![13u8, 10u8]
}

/// The empty line that ends the header.
pub open spec fn header_terminator() -> Seq<u8> {
    seq![13u8, 10u8, 13u8, 10u8]
}

/// Carriage return and line feed, as bytes to search for.
pub(crate) fn crlf_bytes() -> (bytes: Vec<u8>)
    ensures
        bytes@ == crlf(),
{
    let bytes: Vec<u8> = vec![13u8, 10u8];
    assert(bytes@ =~= crlf());
    bytes
}

/// The empty line that ends the header, as bytes to search for.
pub(crate) fn header_terminator_bytes() -> (bytes: Vec<u8>)
    ensures
        bytes@ == header_terminator(),
{
    let bytes: Vec<u8> = vec![13u8, 10u8, 13u8, 10u8];
    assert(bytes@ =~= header_terminator());
    bytes
}

/// How many bytes the header takes, its terminator included, where the
/// response has a complete header.
pub open spec fn header_len(raw: Seq<u8>) -> Option<int> {
    match find(raw, header_terminator()) {
        Some(at) => Some(at + 4),
        None => None,
    }
}

/// The header of a response as text.
pub open spec fn header_text(raw: Seq<u8>) -> Option<Seq<char>> {
    match header_len(raw) {
        Some(len) => Some(lossy_text(raw.take(len))),
        None => None,
    }
}

/// What follows the header of a response.
pub open spec fn body_bytes(raw: Seq<u8>) -> Option<Seq<u8>> {
    match header_len(raw) {
        Some(len) => Some(raw.skip(len)),
        None => None,
    }
}

/// Splits a response behind the first empty line into the header, as text,
/// and the body. `None` where there is no empty line.
pub fn parse_http_response_parts(raw: &[u8]) -> (parts: Option<(String, &[u8])>)
    ensures
        parts.is_some() == header_len(raw@).is_some(),
        parts.is_some() ==> parts.unwrap().0@ == header_text(raw@).unwrap() && parts.unwrap().1@
            == body_bytes(raw@).unwrap(),
{
    let terminator = header_terminator_bytes();
    let at = match find_bytes(raw, terminator.as_slice()) {
        Some(at) => at,
        None => {
            return None;
        },
    };
    proof {
        lemma_find_from_is_first(raw@, header_terminator(), 0);
        assert(header_terminator().len() == 4);
        assert(occurs_at(raw@, header_terminator(), at as int));
    }
    let total = raw.len();
    let header = slice_subrange(raw, 0, at + 4);
    let body = slice_subrange(raw, at + 4, total);
    assert(header@ =~= raw@.take(at + 4));
    assert(body@ =~= raw@.skip(at + 4));
    Some((utf8_lossy(header), body))
}

/// Bytes that arrive behind a complete header leave the header as it is.
pub proof fn lemma_header_is_stable(raw: Seq<u8>, more: Seq<u8>)
    requires
        header_len(raw) is Some,
    ensures
        4 <= header_len(raw).unwrap() <= raw.len(),
        header_len(raw + more) == header_len(raw),
        header_text(raw + more) == header_text(raw),
{
    let at = find(raw, header_terminator()).unwrap();
    lemma_find_from_is_first(raw, header_terminator(), 0);
    assert(header_terminator().len() == 4);
    assert(occurs_at(raw, header_terminator(), at));
    let longer = raw + more;
    assert(longer.subrange(at, at + 4) =~= raw.subrange(at, at + 4));
    assert forall|j: int| 0 <= j < at implies !occurs_at(longer, header_terminator(), j) by {
        assert(!occurs_at(raw, header_terminator(), j));
        assert(longer.subrange(j, j + 4) =~= raw.subrange(j, j + 4));
    }
    crate::search::lemma_first_occurrence_is_found(longer, header_terminator(), at);
    assert(longer.take(at + 4) =~= raw.take(at + 4));
}

/// The status code that a header text states: the second
/// whitespace-delimited token of its first line, read as a decimal number
/// of sixteen bits.
pub open spec fn status_code_of(header: Seq<char>) -> Option<u16> {
    match first_line(header) {
        Some(line) => match nth_token(line, 1) {
            Some(token) => match unsigned_value_up_to(token, 10, 0xffff) {
                Some(code) => Some(code as u16),
                None => None,
            },
            None => None,
        },
        None => None,
    }
}

/// The status code of a response, where it has a complete header that
/// states one.
pub open spec fn http_status_code(raw: Seq<u8>) -> Option<u16> {
    match header_text(raw) {
        Some(header) => status_code_of(header),
        None => None,
    }
}

/// Reads the status code from the header text of a response.
pub fn parse_http_status_code_from_headers(header_text: &str) -> (code: Option<u16>)
    ensures
        code == status_code_of(header_text@),
{
    let v = chars_of(header_text);
    if v.len() == 0 {
        return None;
    }
    let (end, next) = line_at(v.as_slice(), 0);
    let line = slice_subrange(v.as_slice(), 0, end);
    proof {
        assert(v@.skip(0) =~= v@);
        let rest = split_lines(v@.skip(next as int));
        assert((seq![line@] + rest)[0] == line@);
    }
    let (from, to) = match token_bounds(line, 1) {
        Some(bounds) => bounds,
        None => {
            return None;
        },
    };
    let token = slice_subrange(line, from, to);
    match parse_unsigned(token, 10, 0xffff) {
        Some(code) => Some(code as u16),
        None => None,
    }
}

/// Reads the status code of a response.
pub fn parse_http_status_code(raw: &[u8]) -> (code: Option<u16>)
    ensures
        code == http_status_code(raw@),
{
    match parse_http_response_parts(raw) {
        Some((header, _)) => parse_http_status_code_from_headers(header.as_str()),
        None => None,
    }
}

/// The size that the first line of a chunk states: the text before the
/// first `;`, trimmed, read as a hexadecimal number. `None` where the line
/// is no UTF-8, the text no number, or the number too large for an index.
pub open spec fn chunk_size(line: Seq<u8>) -> Option<nat> {
    if valid_utf8(line) {
        let text = decode_utf8(line);
        unsigned_value_up_to(trim(text.take(position_of(text, ';'))), 16, usize::MAX as nat)
    } else {
        None
    }
}

/// `head` put before a decoded rest, where there is one.
pub open spec fn prepend(head: Seq<u8>, rest: Option<Seq<u8>>) -> Option<Seq<u8>> {
    match rest {
        Some(rest) => Some(head + rest),
        None => None,
    }
}

/// The payload of a chunked body. Each chunk is a size line that ends in
/// CR LF, as many bytes as the line states, and CR LF; a chunk of size zero
/// ends the body, and what follows it is not looked at. `None` where a size
/// line is missing or malformed, fewer bytes follow than it states, or the
/// bytes of a chunk are not followed by CR LF.
pub open spec fn decode_chunked(input: Seq<u8>) -> Option<Seq<u8>>
    decreases input.len(),
{
    match find(input, crlf()) {
        Some(line_end) => match chunk_size(input.take(line_end)) {
            Some(size) => {
                let rest = input.skip(line_end + 2);
                if size == 0 {
                    Some(Seq::empty())
                } else if 0 <= line_end <= input.len() - 2 && rest.len() >= size + 2 && rest.subrange(
                    size as int,
                    size as int + 2,
                ) == crlf() {
                    prepend(rest.take(size as int), decode_chunked(rest.skip(size as int + 2)))
                } else {
                    None
                }
            },
            None => None,
        },
        None => None,
    }
}

/// Reads the size that the first line of a chunk states.
fn parse_chunk_size(line: &[u8]) -> (size: Option<usize>)
    ensures
        size.is_some() == chunk_size(line@).is_some(),
        size.is_some() ==> size.unwrap() as nat == chunk_size(line@).unwrap(),
{
    let text = match decode_text(line) {
        Some(text) => text,
        None => {
            return None;
        },
    };
    let v = chars_of(text);
    let end = position_from(v.as_slice(), ';', 0);
    let field = trim_chars(slice_subrange(v.as_slice(), 0, end));
    proof {
        assert(v@.skip(0) =~= v@);
        assert(v@.subrange(0, end as int) =~= v@.take(end as int));
    }
    match parse_unsigned(field, 16, usize::MAX as u128) {
        Some(size) => Some(size as usize),
        None => None,
    }
}

/// Decodes a chunked body. `None` where the framing is malformed.
pub fn decode_chunked_body(input: &[u8]) -> (output: Option<Vec<u8>>)
    ensures
        output.is_some() == decode_chunked(input@).is_some(),
        output.is_some() ==> output.unwrap()@ == decode_chunked(input@).unwrap(),
{
    let separator = crlf_bytes();
    let mut output: Vec<u8> = Vec::new();
    let mut rest: &[u8] = input;
    assert(Seq::<u8>::empty() + decode_chunked(input@).unwrap() =~= decode_chunked(
        input@,
    ).unwrap());
    loop
        invariant
            separator@ == crlf(),
            decode_chunked(input@) == prepend(output@, decode_chunked(rest@)),
        decreases rest.len(),
    {
        let total = rest.len();
        let line_end = match find_bytes(rest, separator.as_slice()) {
            Some(line_end) => line_end,
            None => {
                return None;
            },
        };
        proof {
            lemma_find_from_is_first(rest@, crlf(), 0);
            assert(crlf().len() == 2);
            assert(occurs_at(rest@, crlf(), line_end as int));
        }
        let line = slice_subrange(rest, 0, line_end);
        assert(line@ =~= rest@.take(line_end as int));
        let size = match parse_chunk_size(line) {
            Some(size) => size,
            None => {
                return None;
            },
        };
        let after = slice_subrange(rest, line_end + 2, total);
        assert(after@ =~= rest@.skip(line_end + 2));
        if size == 0 {
            assert(output@ + Seq::<u8>::empty() =~= output@);
            return Some(output);
        }
        if after.len() < 2 || size > after.len() - 2 {
            return None;
        }
        if after[size] != 13 || after[size + 1] != 10 {
            assert(after@.subrange(size as int, size + 2)[0] == after@[size as int]);
            assert(after@.subrange(size as int, size + 2)[1] == after@[size + 1]);
            return None;
        }
        assert(after@.subrange(size as int, size + 2) =~= crlf());
        let payload = slice_subrange(after, 0, size);
        assert(payload@ =~= after@.take(size as int));
        let ghost before = output@;
        output.extend_from_slice(payload);
        let next = slice_subrange(after, size + 2, after.len());
        proof {
            assert(next@ =~= after@.skip(size + 2));
            let tail = decode_chunked(next@);
            if tail is Some {
                assert(before + (payload@ + tail.unwrap()) =~= (before + payload@) + tail.unwrap());
            }
        }
        rest = next;
    }
}

/// One chunk as it goes over the wire: the size line, CR LF, the bytes of
/// the chunk, CR LF.
pub open spec fn chunk_frame(size_line: Seq<u8>, payload: Seq<u8>) -> Seq<u8> {
    size_line + crlf() + payload + crlf()
}

/// A size line and the bytes that go with it: the line holds no CR LF and
/// states the number of the bytes, of which there is at least one.
pub open spec fn well_formed_chunk(size_line: Seq<u8>, payload: Seq<u8>) -> bool {
    &&& !contains(size_line, crlf())
    &&& payload.len() > 0
    &&& chunk_size(size_line) == Some(payload.len())
}

/// A size line that ends the body: it holds no CR LF and states zero.
pub open spec fn final_size_line(size_line: Seq<u8>) -> bool {
    &&& !contains(size_line, crlf())
    &&& chunk_size(size_line) == Some(0nat)
}

/// A chunked body on the wire: the chunks in order, each a size line with
/// its bytes, then the final size line, CR LF, and whatever follows.
pub open spec fn chunked_body(
    chunks: Seq<(Seq<u8>, Seq<u8>)>,
    last_line: Seq<u8>,
    trailer: Seq<u8>,
) -> Seq<u8>
    decreases chunks.len(),
{
    if chunks.len() == 0 {
        last_line + crlf() + trailer
    } else {
        chunk_frame(chunks[0].0, chunks[0].1) + chunked_body(
            chunks.drop_first(),
            last_line,
            trailer,
        )
    }
}

/// The bytes of all chunks, one after the other.
pub open spec fn chunk_payloads(chunks: Seq<(Seq<u8>, Seq<u8>)>) -> Seq<u8>
    decreases chunks.len(),
{
    if chunks.len() == 0 {
        Seq::empty()
    } else {
        chunks[0].1 + chunk_payloads(chunks.drop_first())
    }
}

/// Behind a line without CR LF, the first CR LF is the one that ends it.
pub proof fn lemma_size_line_ends_at_first_crlf(size_line: Seq<u8>, rest: Seq<u8>)
    requires
        !contains(size_line, crlf()),
    ensures
        find(size_line + crlf() + rest, crlf()) == Some(size_line.len() as int),
        (size_line + crlf() + rest).take(size_line.len() as int) == size_line,
        (size_line + crlf() + rest).skip(size_line.len() as int + 2) == rest,
{
    let whole = size_line + crlf() + rest;
    let end = size_line.len() as int;
    assert(crlf().len() == 2);
    assert(whole.subrange(end, end + 2) =~= crlf());
    crate::search::lemma_contains_iff_occurs(size_line, crlf());
    assert forall|j: int| 0 <= j < end implies !occurs_at(whole, crlf(), j) by {
        if j + 2 <= end {
            assert(!occurs_at(size_line, crlf(), j));
            assert(whole.subrange(j, j + 2) =~= size_line.subrange(j, j + 2));
        } else {
            assert(whole.subrange(j, j + 2)[1] == whole[j + 1]);
            assert(whole[j + 1] == 13u8);
            assert(crlf()[1] == 10u8);
        }
    }
    crate::search::lemma_first_occurrence_is_found(whole, crlf(), end);
    assert(whole.take(end) =~= size_line);
    assert(whole.skip(end + 2) =~= rest);
}

/// A well-formed chunk at the head of a body is decoded to its bytes,
/// followed by what the rest of the body decodes to; where the rest is
/// malformed, so is the whole.
pub proof fn lemma_chunk_is_decoded(size_line: Seq<u8>, payload: Seq<u8>, rest: Seq<u8>)
    requires
        well_formed_chunk(size_line, payload),
    ensures
        decode_chunked(chunk_frame(size_line, payload) + rest) == prepend(
            payload,
            decode_chunked(rest),
        ),
{
    let after = payload + crlf() + rest;
    let whole = chunk_frame(size_line, payload) + rest;
    assert(whole =~= size_line + crlf() + after);
    lemma_size_line_ends_at_first_crlf(size_line, after);
    let size = payload.len() as int;
    assert(after.subrange(size, size + 2) =~= crlf());
    assert(after.take(size) =~= payload);
    assert(after.skip(size + 2) =~= rest);
}

/// A final size line ends the body, whatever follows it.
pub proof fn lemma_final_chunk_ends_body(size_line: Seq<u8>, trailer: Seq<u8>)
    requires
        final_size_line(size_line),
    ensures
        decode_chunked(size_line + crlf() + trailer) == Some(Seq::<u8>::empty()),
{
    lemma_size_line_ends_at_first_crlf(size_line, trailer);
}

/// A body of well-formed chunks that a final size line ends decodes to the
/// bytes of its chunks, one after the other.
pub proof fn lemma_valid_chunked_body_decodes(
    chunks: Seq<(Seq<u8>, Seq<u8>)>,
    last_line: Seq<u8>,
    trailer: Seq<u8>,
)
    requires
        forall|i: int| 0 <= i < chunks.len() ==> well_formed_chunk(chunks[i].0, chunks[i].1),
        final_size_line(last_line),
    ensures
        decode_chunked(chunked_body(chunks, last_line, trailer)) == Some(chunk_payloads(chunks)),
    decreases chunks.len(),
{
    if chunks.len() == 0 {
        lemma_final_chunk_ends_body(last_line, trailer);
    } else {
        let tail = chunks.drop_first();
        assert forall|i: int| 0 <= i < tail.len() implies well_formed_chunk(
            tail[i].0,
            tail[i].1,
        ) by {
            assert(tail[i] == chunks[i + 1]);
        }
        lemma_valid_chunked_body_decodes(tail, last_line, trailer);
        lemma_chunk_is_decoded(chunks[0].0, chunks[0].1, chunked_body(tail, last_line, trailer));
    }
}

/// A chunk that states more bytes than follow it, or whose bytes are not
/// followed by CR LF, makes the decoding fail.
pub proof fn lemma_malformed_chunk_fails(size_line: Seq<u8>, rest: Seq<u8>, size: nat)
    requires
        !contains(size_line, crlf()),
        chunk_size(size_line) == Some(size),
        size > 0,
        rest.len() < size + 2 || rest.subrange(size as int, size as int + 2) != crlf(),
    ensures
        decode_chunked(size_line + crlf() + rest) is None,
{
    lemma_size_line_ends_at_first_crlf(size_line, rest);
}

/// A body without any CR LF has no size line and decodes to nothing, and
/// so does one whose first line states no size.
pub proof fn lemma_missing_size_line_fails(input: Seq<u8>, size_line: Seq<u8>, rest: Seq<u8>)
    requires
        !contains(size_line, crlf()),
        chunk_size(size_line) is None,
    ensures
        !contains(input, crlf()) ==> decode_chunked(input) is None,
        decode_chunked(size_line + crlf() + rest) is None,
{
    lemma_size_line_ends_at_first_crlf(size_line, rest);
}

/// Well-formed chunks before a malformed one do not save the body: the
/// decoding fails as a whole and gives no part of it.
pub proof fn lemma_malformed_chunk_fails_anywhere(
    chunks: Seq<(Seq<u8>, Seq<u8>)>,
    size_line: Seq<u8>,
    rest: Seq<u8>,
    size: nat,
)
    requires
        forall|i: int| 0 <= i < chunks.len() ==> well_formed_chunk(chunks[i].0, chunks[i].1),
        !contains(size_line, crlf()),
        chunk_size(size_line) == Some(size),
        size > 0,
        rest.len() < size + 2 || rest.subrange(size as int, size as int + 2) != crlf(),
    ensures
        decode_chunked(chunked_body(chunks, size_line, rest)) is None,
    decreases chunks.len(),
{
    if chunks.len() == 0 {
        lemma_malformed_chunk_fails(size_line, rest, size);
    } else {
        let tail = chunks.drop_first();
        assert forall|i: int| 0 <= i < tail.len() implies well_formed_chunk(
            tail[i].0,
            tail[i].1,
        ) by {
            assert(tail[i] == chunks[i + 1]);
        }
        lemma_malformed_chunk_fails_anywhere(tail, size_line, rest, size);
        lemma_chunk_is_decoded(chunks[0].0, chunks[0].1, chunked_body(tail, size_line, rest));
    }
}

/// A header line that declares a chunked body: once trimmed and put in
/// lower case, it starts with `transfer-encoding:` and holds `chunked`.
pub open spec fn is_chunked_line(line: Seq<char>) -> bool {
    let folded = lowered(trim(line));
    starts_with(folded, "transfer-encoding:"@) && contains(folded, "chunked"@)
}

/// Some line of the header declares a chunked body.
pub open spec fn declares_chunked(header: Seq<char>) -> bool {
    exists|i: int| 0 <= i < split_lines(header).len() && is_chunked_line(#[trigger] split_lines(header)[i])
}

/// Whether some line of the header declares a chunked body.
pub fn header_declares_chunked(header: &str) -> (chunked: bool)
    ensures
        chunked == declares_chunked(header@),
{
    let v = chars_of(header);
    let key = chars_of("transfer-encoding:");
    let word = chars_of("chunked");
    let mut start: usize = 0;
    let ghost mut seen: Seq<Seq<char>> = Seq::empty();
    assert(v@.skip(0) =~= v@);
    assert(seen + split_lines(v@) =~= split_lines(v@));
    while start < v.len()
        invariant
            start <= v.len(),
            key@ == "transfer-encoding:"@,
            word@ == "chunked"@,
            v@ == header@,
            split_lines(v@) == seen + split_lines(v@.skip(start as int)),
            forall|i: int| 0 <= i < seen.len() ==> !is_chunked_line(#[trigger] seen[i]),
        decreases v.len() - start,
    {
        let (end, next) = line_at(v.as_slice(), start);
        let line = slice_subrange(v.as_slice(), start, end);
        let folded = lower_chars(trim_chars(line));
        let ghost rest = split_lines(v@.skip(next as int));
        proof {
            assert(seen + (seq![line@] + rest) =~= seen.push(line@) + rest);
        }
        if chars_start_with(folded.as_slice(), key.as_slice()) && chars_contain(
            folded.as_slice(),
            word.as_slice(),
        ) {
            proof {
                assert(split_lines(v@)[seen.len() as int] == line@);
            }
            return true;
        }
        proof {
            seen = seen.push(line@);
        }
        start = next;
    }
    proof {
        assert(v@.skip(v.len() as int) =~= Seq::<char>::empty());
        assert(split_lines(v@) =~= seen);
    }
    false
}

/// The bytes that a successful response carries as its JSON payload: the
/// body as it stands, or decoded where the header declares it chunked.
/// `None` where the header is incomplete, the status is not one of
/// 200..=299, or the chunked framing is malformed.
pub open spec fn json_payload(raw: Seq<u8>) -> Option<Seq<u8>> {
    match header_text(raw) {
        Some(header) => match status_code_of(header) {
            Some(code) => if 200 <= code < 300 {
                if declares_chunked(header) {
                    decode_chunked(raw.skip(header_len(raw).unwrap()))
                } else {
                    Some(raw.skip(header_len(raw).unwrap()))
                }
            } else {
                None
            },
            None => None,
        },
        None => None,
    }
}

/// Takes the JSON payload out of a response.
pub fn http_json_payload(raw: &[u8]) -> (payload: Option<Vec<u8>>)
    ensures
        payload.is_some() == json_payload(raw@).is_some(),
        payload.is_some() ==> payload.unwrap()@ == json_payload(raw@).unwrap(),
{
    let (header, body) = match parse_http_response_parts(raw) {
        Some(parts) => parts,
        None => {
            return None;
        },
    };
    let code = match parse_http_status_code_from_headers(header.as_str()) {
        Some(code) => code,
        None => {
            return None;
        },
    };
    if code < 200 || code >= 300 {
        return None;
    }
    if header_declares_chunked(header.as_str()) {
        decode_chunked_body(body)
    } else {
        Some(vstd::slice::slice_to_vec(body))
    }
}

/// The document that a response carries: the JSON payload, parsed.
pub open spec fn http_json_document(raw: Seq<u8>) -> Option<serde_json::Value> {
    match json_payload(raw) {
        Some(payload) => json_document(payload),
        None => None,
    }
}

/// Reads the JSON document of a successful response. `None` where the
/// response has no JSON payload or the payload is no JSON document.
pub fn parse_http_json_response(raw: &[u8]) -> (document: Option<serde_json::Value>)
    ensures
        document == http_json_document(raw@),
{
    match http_json_payload(raw) {
        Some(payload) => match json_from_slice(payload.as_slice()) {
            Ok(document) => Some(document),
            Err(_) => None,
        },
        None => None,
    }
}

/// The start time among the two readings of a number: the signed one where
/// there is one, else the unsigned one where it fits.
pub open spec fn start_time_reading(signed: Option<i64>, unsigned: Option<u64>) -> Option<i64> {
    match signed {
        Some(value) => Some(value),
        None => match unsigned {
            Some(value) => if value <= i64::MAX as u64 {
                Some(value as i64)
            } else {
                None
            },
            None => None,
        },
    }
}

/// Picks the start time among the two readings of a number.
pub fn start_time_from_readings(signed: Option<i64>, unsigned: Option<u64>) -> (start_time: Option<
    i64,
>)
    ensures
        start_time == start_time_reading(signed, unsigned),
{
    match signed {
        Some(value) => Some(value),
        None => match unsigned {
            Some(value) => if value <= 0x7fff_ffff_ffff_ffffu64 {
                Some(value as i64)
            } else {
                None
            },
            None => None,
        },
    }
}

/// The start time that a status document reports: the member `start_time`
/// of its member `data`, where the member `status` is the text `ok`.
pub open spec fn backend_start_time(payload: serde_json::Value) -> Option<i64> {
    if json_member(payload, "status"@) is Some && json_text(
        json_member(payload, "status"@).unwrap(),
    ) == Some("ok"@) {
        match json_member(payload, "data"@) {
            Some(data) => match json_member(data, "start_time"@) {
                Some(number) => start_time_reading(json_signed(number), json_unsigned(number)),
                None => None,
            },
            None => None,
        }
    } else {
        None
    }
}

/// Reads the start time that a status document reports.
pub fn parse_backend_start_time(payload: &serde_json::Value) -> (start_time: Option<i64>)
    ensures
        start_time == backend_start_time(*payload),
{
    let status = match json_get(payload, "status") {
        Some(status) => status.as_str(),
        None => None,
    };
    let ok = match status {
        Some(status) => str_equal(status, "ok"),
        None => false,
    };
    if !ok {
        return None;
    }
    let data = match json_get(payload, "data") {
        Some(data) => data,
        None => {
            return None;
        },
    };
    let number = match json_get(data, "start_time") {
        Some(number) => number,
        None => {
            return None;
        },
    };
    start_time_from_readings(number.as_i64(), number.as_u64())
}

} // verus!
