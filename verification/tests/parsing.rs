//! Request parsing and response encoding, held to exact wire bytes.
use litten::http::request::{Method, Request, RequestError};
use litten::http::response::{index_path, FsEntry, ReadOutcome, Response, ResponseCode};

fn parse(s: &str) -> Result<Request, RequestError> {
    Request::try_from(s.as_bytes())
}

#[test]
fn request_without_terminator_is_incomplete() {
    assert_eq!(
        parse("GET / HTTP/1.1").unwrap_err(),
        RequestError::IncompleteRequest
    );
    assert_eq!(
        parse("GET / HTTP/1.1\r\nHost: x\r\n").unwrap_err(),
        RequestError::IncompleteRequest
    );
    assert_eq!(parse("").unwrap_err(), RequestError::IncompleteRequest);
}

#[test]
fn simple_get_parses() {
    let req = parse("GET / HTTP/1.1\r\nHost: x\r\n\r\n").unwrap();
    assert_eq!(req.method, Method::Get);
    assert_eq!(req.path, "/");
    assert_eq!(req.headers.get(b"Host").unwrap().as_slice(), b"x");
    assert!(req.headers.get(b"Other").is_none());
}

#[test]
fn request_without_headers_parses() {
    let req = parse("GET /abc HTTP/1.0\r\n\r\n").unwrap();
    assert_eq!(req.method, Method::Get);
    assert_eq!(req.path, "/abc");
    assert_eq!(req.headers.len(), 0);
}

#[test]
fn all_nine_methods_are_recognized() {
    let cases = [
        ("GET", Method::Get),
        ("HEAD", Method::Head),
        ("POST", Method::Post),
        ("PUT", Method::Put),
        ("DELETE", Method::Delete),
        ("CONNECT", Method::Connect),
        ("OPTIONS", Method::Options),
        ("TRACE", Method::Trace),
        ("PATCH", Method::Patch),
    ];
    for (tok, want) in cases {
        let req = parse(&format!("{} / HTTP/1.1\r\n\r\n", tok)).unwrap();
        assert_eq!(req.method, want);
    }
}

#[test]
fn methods_are_case_sensitive() {
    assert_eq!(
        parse("get / HTTP/1.1\r\n\r\n").unwrap_err(),
        RequestError::UnsupportedMethod
    );
    assert_eq!(
        parse("BREW / HTTP/1.1\r\n\r\n").unwrap_err(),
        RequestError::UnsupportedMethod
    );
}

#[test]
fn short_request_line_is_malformed() {
    assert_eq!(
        parse("GET /\r\n\r\n").unwrap_err(),
        RequestError::MalformedRequestLine
    );
    assert_eq!(
        parse("\r\n\r\n").unwrap_err(),
        RequestError::MalformedRequestLine
    );
}

#[test]
fn http2_version_is_unsupported() {
    assert_eq!(
        parse("GET /a/b/c HTTP/2.0\r\n\r\n").unwrap_err(),
        RequestError::UnsupportedVersion
    );
    assert_eq!(
        parse("GET / HTTP/0.9\r\n\r\n").unwrap_err(),
        RequestError::UnsupportedVersion
    );
}

#[test]
fn both_accepted_versions_parse() {
    assert!(parse("GET / HTTP/1.0\r\n\r\n").is_ok());
    assert!(parse("GET / HTTP/1.1\r\n\r\n").is_ok());
}

#[test]
fn path_is_percent_decoded() {
    let req = parse("GET /a%20b HTTP/1.1\r\n\r\n").unwrap();
    assert_eq!(req.path, "/a b");
}

#[test]
fn undecodable_path_is_malformed() {
    assert_eq!(
        parse("GET /%FF HTTP/1.1\r\n\r\n").unwrap_err(),
        RequestError::MalformedPath
    );
}

#[test]
fn header_line_without_separator_is_malformed() {
    assert_eq!(
        parse("GET / HTTP/1.1\r\nNoColon\r\n\r\n").unwrap_err(),
        RequestError::MalformedHeader
    );
}

#[test]
fn repeated_header_name_keeps_last_value() {
    let req = parse("GET / HTTP/1.1\r\nA: 1\r\nB: 2\r\nA: 3\r\n\r\n").unwrap();
    assert_eq!(req.headers.len(), 2);
    assert_eq!(req.headers.get(b"A").unwrap().as_slice(), b"3");
    assert_eq!(req.headers.get(b"B").unwrap().as_slice(), b"2");
    // The overwritten name keeps its original position.
    assert_eq!(req.headers.key_at(0).as_slice(), b"A");
    assert_eq!(req.headers.key_at(1).as_slice(), b"B");
}

#[test]
fn header_value_keeps_later_colons() {
    let req = parse("GET / HTTP/1.1\r\nHost: a: b\r\n\r\n").unwrap();
    assert_eq!(req.headers.get(b"Host").unwrap().as_slice(), b"a: b");
}

/// A request whose header block is exactly `n` bytes long.
fn request_with_block_of(n: usize) -> String {
    let fixed = "GET / HTTP/1.1\r\nH: ";
    let padding = n - fixed.len();
    format!("{}{}\r\n\r\n", fixed, "x".repeat(padding))
}

#[test]
fn block_of_exactly_4096_bytes_is_accepted() {
    let s = request_with_block_of(4096);
    let req = Request::try_from(s.as_bytes()).unwrap();
    assert_eq!(req.headers.get(b"H").unwrap().len(), 4096 - 19);
}

#[test]
fn block_of_4097_bytes_is_too_large() {
    let s = request_with_block_of(4097);
    assert_eq!(
        Request::try_from(s.as_bytes()).unwrap_err(),
        RequestError::HeaderTooLarge
    );
}

#[test]
fn encode_is_exact_for_bad_request() {
    let bytes = Response::bad_request().encode();
    assert_eq!(
        bytes.as_slice(),
        b"HTTP/1.0 400 Bad Request\r\n\r\n400 Bad Request\r\n".as_slice()
    );
}

#[test]
fn encode_is_exact_for_not_found() {
    let bytes = Response::not_found().encode();
    assert_eq!(
        bytes.as_slice(),
        b"HTTP/1.0 404 Not Found\r\n\r\n404 Not Found\r\n".as_slice()
    );
}

#[test]
fn encode_without_body_has_no_trailing_line() {
    let resp = Response {
        code: ResponseCode::InternalServerError,
        body: None,
    };
    assert_eq!(
        resp.encode().as_slice(),
        b"HTTP/1.0 500 Internal Server Error\r\n\r\n".as_slice()
    );
}

#[test]
fn encode_then_parse_round_trips_status_and_body() {
    let body = b"hello world".to_vec();
    let resp = Response {
        code: ResponseCode::Okay,
        body: Some(body.clone()),
    };
    let parsed = Response::parse(&resp.encode()).unwrap();
    assert_eq!(parsed.code, ResponseCode::Okay);
    assert_eq!(parsed.body.unwrap(), body);
}

#[test]
fn round_trip_survives_terminator_bytes_in_body() {
    let body = b"a\r\n\r\nb\r\n".to_vec();
    let resp = Response {
        code: ResponseCode::Okay,
        body: Some(body.clone()),
    };
    let parsed = Response::parse(&resp.encode()).unwrap();
    assert_eq!(parsed.code, ResponseCode::Okay);
    assert_eq!(parsed.body.unwrap(), body);
}

#[test]
fn round_trip_keeps_empty_body_distinct_from_none() {
    let with_empty = Response {
        code: ResponseCode::Okay,
        body: Some(Vec::new()),
    };
    let parsed = Response::parse(&with_empty.encode()).unwrap();
    assert_eq!(parsed.body, Some(Vec::new()));

    let without = Response {
        code: ResponseCode::Okay,
        body: None,
    };
    let parsed = Response::parse(&without.encode()).unwrap();
    assert_eq!(parsed.body, None);
}

#[test]
fn parse_rejects_streams_without_terminator() {
    assert!(Response::parse(b"HTTP/1.0 200 OK").is_none());
}

#[test]
fn static_file_contents_become_ok_response() {
    let resp = Response::file(ReadOutcome::Content(b"data".to_vec()));
    assert_eq!(resp.code, ResponseCode::Okay);
    assert_eq!(resp.body.unwrap().as_slice(), b"data");
}

#[test]
fn failed_file_read_becomes_bare_500() {
    let resp = Response::file(ReadOutcome::Failed);
    assert_eq!(resp.code, ResponseCode::InternalServerError);
    assert_eq!(resp.body, None);
}

#[test]
fn directory_serves_its_index_read() {
    let resp = Response::dir(ReadOutcome::Content(b"<html>".to_vec()));
    assert_eq!(resp.code, ResponseCode::Okay);
    assert_eq!(resp.body.unwrap().as_slice(), b"<html>");
}

#[test]
fn missing_path_becomes_404() {
    let resp = Response::path(FsEntry::Missing);
    assert_eq!(resp.code, ResponseCode::NotFound);
    assert_eq!(resp.body.unwrap().as_slice(), b"404 Not Found");
}

#[test]
fn special_entries_become_bare_500() {
    for entry in [FsEntry::ProbeError, FsEntry::Other] {
        let resp = Response::path(entry);
        assert_eq!(resp.code, ResponseCode::InternalServerError);
        assert_eq!(resp.body, None);
    }
}

#[test]
fn index_path_appends_index_html() {
    assert_eq!(index_path(&"/srv/www".to_string()), "/srv/www/index.html");
}

#[test]
fn upstream_reply_is_relayed_with_its_status() {
    let raw = b"HTTP/1.1 204 No Content\r\nX: y\r\n\r\n".to_vec();
    let resp = Response::from_upstream(raw.clone());
    assert_eq!(resp.code, ResponseCode::Relayed(b"204 No Content".to_vec()));
    assert_eq!(resp.body.unwrap(), raw);
}

#[test]
fn upstream_reply_with_known_status_uses_the_named_code() {
    let raw = b"HTTP/1.0 200 OK\r\n\r\nhi".to_vec();
    let resp = Response::from_upstream(raw.clone());
    assert_eq!(resp.code, ResponseCode::Okay);
    assert_eq!(resp.body.unwrap(), raw);
}

#[test]
fn unreadable_upstream_reply_becomes_502() {
    let resp = Response::from_upstream(b"garbage".to_vec());
    assert_eq!(resp.code, ResponseCode::BadGateway);
    assert_eq!(resp.body.unwrap().as_slice(), b"502 Bad Gateway");
}
