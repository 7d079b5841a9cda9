use backend_supervisor::backend_http::{
    accept_read, is_complete_http_response, read_http_response_bytes, response_is_complete,
    sanitize_authorization_token, ReadEvent, ReadStep,
};
use backend_supervisor::http_response::{
    decode_chunked_body, header_declares_chunked, http_json_payload, parse_backend_start_time,
    parse_http_json_response, parse_http_response_parts, parse_http_status_code,
    parse_http_status_code_from_headers, start_time_from_readings,
};

#[test]
fn parse_http_status_code_extracts_status_line() {
    let raw = b"HTTP/1.1 204 No Content\r\nConnection: close\r\n\r\n";
    assert_eq!(parse_http_status_code(raw), Some(204));
}

#[test]
fn parse_http_json_response_reads_plain_json_body() {
    let raw = b"HTTP/1.1 200 OK\r\nContent-Type: application/json\r\n\r\n{\"ok\":true}";
    let parsed = parse_http_json_response(raw).expect("expected json payload");
    assert_eq!(parsed["ok"], serde_json::Value::Bool(true));
}

#[test]
fn parse_http_json_response_reads_chunked_json_body() {
    let raw =
        b"HTTP/1.1 200 OK\r\nTransfer-Encoding: chunked\r\n\r\nb\r\n{\"ok\":true}\r\n0\r\n\r\n";
    let parsed = parse_http_json_response(raw).expect("expected chunked json payload");
    assert_eq!(parsed["ok"], serde_json::Value::Bool(true));
}

#[test]
fn parse_http_json_response_rejects_non_success_status() {
    let raw = b"HTTP/1.1 500 Internal Server Error\r\nContent-Type: application/json\r\n\r\n{\"ok\":true}";
    assert!(parse_http_json_response(raw).is_none());
}

#[test]
fn parse_http_json_response_rejects_invalid_chunk_payload() {
    let raw = b"HTTP/1.1 200 OK\r\nTransfer-Encoding: chunked\r\n\r\n5\r\nabcde";
    assert!(parse_http_json_response(raw).is_none());
}

fn json(text: &str) -> serde_json::Value {
    serde_json::from_str(text).expect("test document")
}

#[test]
fn parse_backend_start_time_accepts_i64_or_u64() {
    let signed = json(r#"{"status":"ok","data":{"start_time":-123}}"#);
    assert_eq!(parse_backend_start_time(&signed), Some(-123));

    let unsigned = json(r#"{"status":"ok","data":{"start_time":123}}"#);
    assert_eq!(parse_backend_start_time(&unsigned), Some(123));
}

#[test]
fn parse_backend_start_time_rejects_non_ok_status() {
    let payload = json(r#"{"status":"error","data":{"start_time":123}}"#);
    assert_eq!(parse_backend_start_time(&payload), None);
}

#[test]
fn parse_backend_start_time_needs_every_member() {
    assert_eq!(parse_backend_start_time(&json(r#"{"data":{"start_time":1}}"#)), None);
    assert_eq!(parse_backend_start_time(&json(r#"{"status":1,"data":{"start_time":1}}"#)), None);
    assert_eq!(parse_backend_start_time(&json(r#"{"status":"ok"}"#)), None);
    assert_eq!(parse_backend_start_time(&json(r#"{"status":"ok","data":{}}"#)), None);
    assert_eq!(parse_backend_start_time(&json(r#"{"status":"ok","data":[1]}"#)), None);
    assert_eq!(
        parse_backend_start_time(&json(r#"{"status":"ok","data":{"start_time":"7"}}"#)),
        None
    );
    assert_eq!(
        parse_backend_start_time(&json(r#"{"status":"ok","data":{"start_time":1.5}}"#)),
        None
    );
    assert_eq!(
        parse_backend_start_time(&json(r#"{"status":"ok","data":{"start_time":9223372036854775807}}"#)),
        Some(i64::MAX)
    );
    assert_eq!(
        parse_backend_start_time(&json(r#"{"status":"ok","data":{"start_time":9223372036854775808}}"#)),
        None
    );
    assert_eq!(parse_backend_start_time(&json("[]")), None);
}

#[test]
fn start_time_prefers_signed_reading() {
    assert_eq!(start_time_from_readings(Some(-5), None), Some(-5));
    assert_eq!(start_time_from_readings(Some(4), Some(9)), Some(4));
    assert_eq!(start_time_from_readings(None, Some(9)), Some(9));
    assert_eq!(start_time_from_readings(None, Some(i64::MAX as u64)), Some(i64::MAX));
    assert_eq!(start_time_from_readings(None, Some(i64::MAX as u64 + 1)), None);
    assert_eq!(start_time_from_readings(None, None), None);
}

#[test]
fn response_parts_split_behind_first_empty_line() {
    let (header, body) = parse_http_response_parts(b"A: b\r\n\r\nxy\r\n\r\nz").expect("parts");
    assert_eq!(header, "A: b\r\n\r\n");
    assert_eq!(body, b"xy\r\n\r\nz");
    assert!(parse_http_response_parts(b"HTTP/1.1 200 OK\r\n").is_none());
    assert!(parse_http_response_parts(b"").is_none());
    let (header, body) = parse_http_response_parts(b"\r\n\r\n").expect("parts");
    assert_eq!((header.as_str(), body.len()), ("\r\n\r\n", 0));
    // Bytes that are no UTF-8 are replaced in the header and kept in the body.
    let (header, body) = parse_http_response_parts(b"X: \xff\r\n\r\n\xff").expect("parts");
    assert_eq!(header, "X: \u{fffd}\r\n\r\n");
    assert_eq!(body, b"\xff");
}

#[test]
fn status_code_is_second_token_of_first_line() {
    assert_eq!(parse_http_status_code_from_headers("HTTP/1.1 200 OK\r\n\r\n"), Some(200));
    assert_eq!(parse_http_status_code_from_headers("HTTP/1.1\t \u{a0}301\r\n"), Some(301));
    assert_eq!(parse_http_status_code_from_headers("HTTP/1.1 +200 OK"), Some(200));
    assert_eq!(parse_http_status_code_from_headers("HTTP/1.1 65535"), Some(65535));
    assert_eq!(parse_http_status_code_from_headers("HTTP/1.1 65536"), None);
    assert_eq!(parse_http_status_code_from_headers("HTTP/1.1 2x0 OK"), None);
    assert_eq!(parse_http_status_code_from_headers("HTTP/1.1"), None);
    assert_eq!(parse_http_status_code_from_headers("\r\nHTTP/1.1 200 OK"), None);
    assert_eq!(parse_http_status_code_from_headers(""), None);
    assert_eq!(parse_http_status_code_from_headers("a\n b 404"), None);
    assert_eq!(parse_http_status_code(b"HTTP/1.1 200 OK\r\n"), None);
}

#[test]
fn chunked_bodies_are_decoded() {
    assert_eq!(decode_chunked_body(b"0\r\n\r\n"), Some(vec![]));
    assert_eq!(decode_chunked_body(b"0\r\n"), Some(vec![]));
    assert_eq!(
        decode_chunked_body(b"5\r\nhello\r\n6\r\n world\r\n0\r\n\r\n"),
        Some(b"hello world".to_vec())
    );
    assert_eq!(
        decode_chunked_body(b" A ;ext=1\r\n0123456789\r\n0\r\nignored"),
        Some(b"0123456789".to_vec())
    );
    assert_eq!(decode_chunked_body(b"+2\r\n\r\n\r\n0\r\n"), Some(b"\r\n".to_vec()));
    assert_eq!(decode_chunked_body(b"1f\r\n0123456789012345678901234567890\r\n0\r\n"),
        Some(b"0123456789012345678901234567890".to_vec()));
}

#[test]
fn malformed_chunks_are_rejected() {
    assert_eq!(decode_chunked_body(b""), None);
    assert_eq!(decode_chunked_body(b"5\r\nabcde"), None);
    assert_eq!(decode_chunked_body(b"5\r\nabcde\r"), None);
    assert_eq!(decode_chunked_body(b"5\r\nabcdeXY0\r\n\r\n"), None);
    assert_eq!(decode_chunked_body(b"6\r\nabcde\r\n0\r\n\r\n"), None);
    assert_eq!(decode_chunked_body(b"5\r\nabcde\r\n"), None);
    assert_eq!(decode_chunked_body(b"zz\r\nabcde\r\n0\r\n\r\n"), None);
    assert_eq!(decode_chunked_body(b"\r\n"), None);
    assert_eq!(decode_chunked_body(b"-1\r\n"), None);
    assert_eq!(decode_chunked_body(b"\xff\r\n"), None);
    assert_eq!(decode_chunked_body(b"0;\xff\r\n"), None);
    assert_eq!(decode_chunked_body(b"ffffffffffffffffffffffff\r\nab\r\n0\r\n\r\n"), None);
    assert_eq!(decode_chunked_body(b"ffffffffffffffff\r\nab\r\n0\r\n\r\n"), None);
    assert_eq!(decode_chunked_body(b"5\nabcde\n0\n\n"), None);
}

#[test]
fn chunked_header_is_recognised_per_line() {
    assert!(header_declares_chunked("HTTP/1.1 200 OK\r\nTransfer-Encoding: chunked\r\n\r\n"));
    assert!(header_declares_chunked("  TRANSFER-ENCODING:gzip, Chunked  \n"));
    assert!(!header_declares_chunked("X-Transfer-Encoding: chunked\r\n\r\n"));
    assert!(!header_declares_chunked("Transfer-Encoding: gzip\r\nX: chunked\r\n\r\n"));
    assert!(!header_declares_chunked(""));
}

#[test]
fn json_payload_is_body_or_decoded_chunks() {
    assert_eq!(
        http_json_payload(b"HTTP/1.1 299 X\r\n\r\n{}"),
        Some(b"{}".to_vec())
    );
    assert_eq!(http_json_payload(b"HTTP/1.1 300 X\r\n\r\n{}"), None);
    assert_eq!(http_json_payload(b"HTTP/1.1 199 X\r\n\r\n{}"), None);
    assert_eq!(
        http_json_payload(b"HTTP/1.1 200 OK\r\ntransfer-encoding: chunked\r\n\r\n2\r\n{}\r\n0\r\n\r\n"),
        Some(b"{}".to_vec())
    );
    assert!(parse_http_json_response(b"HTTP/1.1 200 OK\r\n\r\nnot json").is_none());
    assert!(parse_http_json_response(b"HTTP/1.1 200 OK\r\n\r\n").is_none());
}

#[test]
fn is_complete_http_response_respects_content_length() {
    let full = b"HTTP/1.1 200 OK\r\nContent-Length: 2\r\n\r\nOK";
    assert!(is_complete_http_response(full));

    let partial = b"HTTP/1.1 200 OK\r\nContent-Length: 2\r\n\r\nO";
    assert!(!is_complete_http_response(partial));
}

#[test]
fn completeness_follows_header_declarations() {
    assert!(!is_complete_http_response(b""));
    assert!(!is_complete_http_response(b"HTTP/1.1 200 OK\r\nContent-Length: 0\r\n"));
    assert!(is_complete_http_response(b"HTTP/1.1 200 OK\r\nContent-Length: 0\r\n\r\n"));
    assert!(is_complete_http_response(b"HTTP/1.1 200 OK\r\nCONTENT-LENGTH:\t 3 \r\n\r\nabcd"));
    assert!(!is_complete_http_response(b"HTTP/1.1 200 OK\r\n\r\nabcd"));
    assert!(!is_complete_http_response(b"HTTP/1.1 200 OK\r\nContent-Length: x\r\n\r\nabcd"));
    // Only the first content-length line counts.
    assert!(!is_complete_http_response(
        b"HTTP/1.1 200 OK\r\nContent-Length: x\r\nContent-Length: 1\r\n\r\nabcd"
    ));
    assert!(!is_complete_http_response(b"HTTP/1.1 200 OK\r\n Content-Length: 1\r\n\r\nabcd"));
    assert!(!is_complete_http_response(
        b"HTTP/1.1 200 OK\r\nTransfer-Encoding: chunked\r\n\r\n5\r\nhello\r\n"
    ));
    assert!(is_complete_http_response(
        b"HTTP/1.1 200 OK\r\nTransfer-Encoding: chunked\r\n\r\n5\r\nhello\r\n0\r\n\r\n"
    ));
    // A chunked declaration wins over a declared length.
    assert!(!is_complete_http_response(
        b"HTTP/1.1 200 OK\r\nContent-Length: 1\r\nTransfer-Encoding: chunked\r\n\r\nabc"
    ));
    assert!(response_is_complete("content-length: 2\r\n\r\n", b"ab"));
    assert!(!response_is_complete("content-length: 3\r\n\r\n", b"ab"));
}

#[test]
fn read_http_response_bytes_keeps_partial_data_on_timeout() {
    let events = vec![
        ReadEvent::Data(
            b"HTTP/1.1 200 OK\r\nContent-Length: 0\r\nConnection: keep-alive\r\n\r\n".to_vec(),
        ),
        ReadEvent::TimedOut,
        ReadEvent::Data(Vec::new()),
    ];

    let raw = read_http_response_bytes(&events).expect("response should be preserved");
    assert!(raw.starts_with(b"HTTP/1.1 200 OK\r\n"));
}

#[test]
fn reading_stops_on_completion_timeout_close_or_failure() {
    assert_eq!(read_http_response_bytes(&[]), None);
    assert_eq!(read_http_response_bytes(&[ReadEvent::TimedOut]), None);
    assert_eq!(read_http_response_bytes(&[ReadEvent::Data(vec![])]), None);
    assert_eq!(read_http_response_bytes(&[ReadEvent::Failed]), None);
    assert_eq!(
        read_http_response_bytes(&[ReadEvent::Data(b"HTTP/1.1 2".to_vec()), ReadEvent::TimedOut]),
        Some(b"HTTP/1.1 2".to_vec())
    );
    assert_eq!(
        read_http_response_bytes(&[ReadEvent::Data(b"HTTP/1.1 2".to_vec()), ReadEvent::Failed]),
        None
    );
    assert_eq!(
        read_http_response_bytes(&[
            ReadEvent::Data(b"HTTP/1.1 200 OK\r\nContent-".to_vec()),
            ReadEvent::Data(b"Length: 2\r\n\r\nO".to_vec()),
            ReadEvent::Data(b"K".to_vec()),
            ReadEvent::Data(b"ignored".to_vec()),
        ]),
        Some(b"HTTP/1.1 200 OK\r\nContent-Length: 2\r\n\r\nOK".to_vec())
    );
    assert_eq!(
        read_http_response_bytes(&[ReadEvent::Data(b"abc".to_vec()), ReadEvent::Data(vec![])]),
        Some(b"abc".to_vec())
    );

    let mut kept = Vec::new();
    assert_eq!(accept_read(&mut kept, &ReadEvent::Data(b"ab".to_vec())), ReadStep::Continue);
    assert_eq!(accept_read(&mut kept, &ReadEvent::TimedOut), ReadStep::Done);
    assert_eq!(kept, b"ab");
}

#[test]
fn sanitize_authorization_token_rejects_crlf() {
    assert_eq!(sanitize_authorization_token("abc\r\ndef"), None);
    assert_eq!(sanitize_authorization_token("abc\ndef"), None);
}

#[test]
fn sanitize_authorization_token_trims_and_accepts_normal_token() {
    assert_eq!(
        sanitize_authorization_token("  token-abc  "),
        Some("token-abc")
    );
}

#[test]
fn sanitize_authorization_token_rejects_blank_and_trailing_breaks() {
    assert_eq!(sanitize_authorization_token(""), None);
    assert_eq!(sanitize_authorization_token(" \t\u{3000}"), None);
    assert_eq!(sanitize_authorization_token("abc\r"), None);
    assert_eq!(sanitize_authorization_token("\nabc"), None);
    assert_eq!(sanitize_authorization_token("a b"), Some("a b"));
    assert_eq!(sanitize_authorization_token("\u{a0}tök\u{2003}"), Some("tök"));
}
