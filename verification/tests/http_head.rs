use misskey_client::http::requests::HeaderField;
use misskey_client::http::{
    parse_head, read_field, read_status, read_version, HttpError, HttpVersion, ResponseHead,
};

fn fields(head: &ResponseHead) -> Vec<(String, String)> {
    head.headers
        .iter()
        .map(|f| (String::from_utf8(f.name.clone()).unwrap(), String::from_utf8(f.value.clone()).unwrap()))
        .collect()
}

fn pair(name: &str, value: &str) -> (String, String) {
    (name.to_string(), value.to_string())
}

#[test]
fn plain_head() {
    let head = parse_head(b"HTTP/1.1 200 OK\r\nContent-Length: 27\r\nContent-Type: application/json\r\n\r\n").unwrap();
    assert_eq!(head.version, HttpVersion::Http11);
    assert_eq!(head.status, 200);
    assert_eq!(head.reason, b"OK".to_vec());
    assert_eq!(fields(&head), vec![pair("content-length", "27"), pair("content-type", "application/json")]);
    assert_eq!(head.content_length(), 27);
}

#[test]
fn reason_phrase_keeps_its_spaces() {
    let head = parse_head(b"HTTP/1.1 400 Bad Request\r\n\r\n").unwrap();
    assert_eq!(head.status, 400);
    assert_eq!(head.reason, b"Bad Request".to_vec());
    let head = parse_head(b"HTTP/1.1 404 Not  Found  At All\r\n\r\n").unwrap();
    assert_eq!(head.reason, b"Not  Found  At All".to_vec());
}

#[test]
fn reason_phrase_may_be_missing() {
    let head = parse_head(b"HTTP/1.1 204\r\n\r\n").unwrap();
    assert_eq!(head.status, 204);
    assert_eq!(head.reason, Vec::<u8>::new());
    assert_eq!(fields(&head), vec![]);
    assert_eq!(head.content_length(), 0);
}

#[test]
fn every_known_version_is_read() {
    for (token, version) in [
        ("HTTP/0.9", HttpVersion::Http09),
        ("HTTP/1.0", HttpVersion::Http10),
        ("HTTP/1.1", HttpVersion::Http11),
        ("HTTP/2", HttpVersion::Http2),
        ("HTTP/3", HttpVersion::Http3),
    ] {
        assert_eq!(read_version(token.as_bytes()), Some(version));
        assert_eq!(version.as_str(), token);
        let head = parse_head(format!("{} 200 OK\r\n\r\n", token).as_bytes()).unwrap();
        assert_eq!(head.version, version);
    }
}

#[test]
fn unknown_version_is_refused() {
    for token in ["HTTP/1.2", "http/1.1", "HTTP/1.1x", "HTTP/", "", "SPDY/3", "HTTP/2.0"] {
        assert_eq!(read_version(token.as_bytes()), None, "token {:?}", token);
    }
    assert_eq!(parse_head(b"HTTP/1.2 200 OK\r\n\r\n").err(), Some(HttpError::UnsupportedVersion));
    assert_eq!(parse_head(b"ICY 200 OK\r\n\r\n").err(), Some(HttpError::UnsupportedVersion));
    // The status line is trimmed before it is cut: its first token is the code.
    assert_eq!(parse_head(b" 200 OK\r\n\r\n").err(), Some(HttpError::UnsupportedVersion));
}

#[test]
fn status_line_without_code_is_malformed() {
    assert_eq!(parse_head(b"HTTP/1.1\r\n\r\n").err(), Some(HttpError::MalformedStatusLine));
    assert_eq!(parse_head(b"\r\n\r\n").err(), Some(HttpError::MalformedStatusLine));
    assert_eq!(parse_head(b"garbage\r\n\r\n").err(), Some(HttpError::MalformedStatusLine));
    assert_eq!(parse_head(b"").err(), Some(HttpError::MalformedStatusLine));
}

#[test]
fn missing_tokens_come_before_the_version() {
    // One token only: malformed, whatever the token is.
    assert_eq!(parse_head(b"HTTP/9.9\r\n\r\n").err(), Some(HttpError::MalformedStatusLine));
    // Two tokens: the version is looked at before the code.
    assert_eq!(parse_head(b"HTTP/9.9 abc\r\n\r\n").err(), Some(HttpError::UnsupportedVersion));
}

#[test]
fn status_code_is_three_digits_from_100_to_999() {
    assert_eq!(read_status(b"100"), Some(100));
    assert_eq!(read_status(b"204"), Some(204));
    assert_eq!(read_status(b"999"), Some(999));
    for token in ["099", "000", "20", "2000", "2x0", "+20", "", "20 ", "-20"] {
        assert_eq!(read_status(token.as_bytes()), None, "token {:?}", token);
    }
    assert_eq!(parse_head(b"HTTP/1.1 20 OK\r\n\r\n").err(), Some(HttpError::InvalidStatusCode));
    assert_eq!(parse_head(b"HTTP/1.1 abc OK\r\n\r\n").err(), Some(HttpError::InvalidStatusCode));
    // Two spaces after the version make the second token empty.
    assert_eq!(parse_head(b"HTTP/1.1  200 OK\r\n\r\n").err(), Some(HttpError::InvalidStatusCode));
}

#[test]
fn errors_say_what_went_wrong() {
    assert_eq!(HttpError::MalformedStatusLine.message(), "The status line is malformed.");
    assert_eq!(HttpError::UnsupportedVersion.message(), "The HTTP version is not supported.");
    assert_eq!(HttpError::InvalidStatusCode.message(), "The status code is invalid.");
    assert_eq!(HttpError::InvalidRequest.message(), "The request cannot be framed.");
    assert_eq!(HttpError::UnexpectedEnd.message(), "The response ended before it was complete.");
}

#[test]
fn names_are_folded_and_trimmed_values_are_trimmed() {
    let head = parse_head(b"HTTP/1.1 200 OK\r\n  X-Mixed-CASE \t:   some Value  \r\n\r\n").unwrap();
    assert_eq!(fields(&head), vec![pair("x-mixed-case", "some Value")]);
}

#[test]
fn line_is_cut_at_its_first_colon() {
    let head = parse_head(b"HTTP/1.1 200 OK\r\nLocation: http://example.com:8080/a\r\n\r\n").unwrap();
    assert_eq!(fields(&head), vec![pair("location", "http://example.com:8080/a")]);
    let field: HeaderField = read_field(b"a:b:c");
    assert_eq!((field.name, field.value), (b"a".to_vec(), b"b:c".to_vec()));
    let field = read_field(b":v");
    assert_eq!((field.name, field.value), (b"".to_vec(), b"v".to_vec()));
    let field = read_field(b"K:");
    assert_eq!((field.name, field.value), (b"k".to_vec(), b"".to_vec()));
}

#[test]
fn line_without_colon_is_a_name_alone() {
    let head = parse_head(b"HTTP/1.1 200 OK\r\nJust Words\r\n\r\n").unwrap();
    assert_eq!(fields(&head), vec![pair("just words", "")]);
}

#[test]
fn blank_lines_hold_no_field() {
    let head = parse_head(b"HTTP/1.1 200 OK\r\n \t \r\nContent-Length: 5\r\n\r\n").unwrap();
    assert_eq!(fields(&head), vec![pair("content-length", "5")]);
    assert_eq!(head.content_length(), 5);
}

#[test]
fn lines_end_at_the_line_feed_alone_too() {
    let head = parse_head(b"HTTP/1.1 200 OK\nA: 1\nB: 2\n\n").unwrap();
    assert_eq!(head.status, 200);
    assert_eq!(fields(&head), vec![pair("a", "1"), pair("b", "2")]);
}

#[test]
fn content_length_is_found_under_any_case() {
    for name in ["Content-Length", "content-length", "CONTENT-LENGTH", " Content-length "] {
        let head = parse_head(format!("HTTP/1.1 200 OK\r\n{}: 12\r\n\r\n", name).as_bytes()).unwrap();
        assert_eq!(head.content_length(), 12, "name {:?}", name);
    }
}

#[test]
fn content_length_that_is_no_numeral_counts_as_zero() {
    for value in ["", "abc", "12abc", "-1", "1 2", "0x10", "99999999999999999999999999"] {
        let head = parse_head(format!("HTTP/1.1 200 OK\r\nContent-Length: {}\r\n\r\n", value).as_bytes()).unwrap();
        assert_eq!(head.content_length(), 0, "value {:?}", value);
    }
}

#[test]
fn content_length_prefix_names_do_not_count() {
    let head = parse_head(b"HTTP/1.1 200 OK\r\nContent-Length-Hint: 9\r\n\r\n").unwrap();
    assert_eq!(head.content_length(), 0);
}

#[test]
fn last_content_length_wins() {
    let head = parse_head(b"HTTP/1.1 200 OK\r\nContent-Length: 3\r\nContent-Length: 8\r\n\r\n").unwrap();
    assert_eq!(head.content_length(), 8);
    let head = parse_head(b"HTTP/1.1 200 OK\r\nContent-Length: 3\r\nContent-Length: x\r\n\r\n").unwrap();
    assert_eq!(head.content_length(), 0);
}

#[test]
fn header_lookup_gives_the_last_value() {
    let head = parse_head(b"HTTP/1.1 200 OK\r\nSet-Cookie: a\r\nX: y\r\nSet-Cookie: b\r\n\r\n").unwrap();
    assert_eq!(head.header(b"set-cookie"), Some(&b"b".to_vec()));
    assert_eq!(head.header(b"x"), Some(&b"y".to_vec()));
    assert_eq!(head.header(b"missing"), None);
    // Names are compared as they stand.
    assert_eq!(head.header(b"Set-Cookie"), None);
}
