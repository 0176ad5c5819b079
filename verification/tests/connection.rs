use misskey_client::connection::{
    body_text, check_field_value, check_target, encode_request, gen_failure, reconcile, Reconciled,
    NO_CONTENT,
};
use misskey_client::errors::{MisskeyConnectionError, ServerError, ServerErrorResponse};
use misskey_client::http::reader::{ResponseReader, Wanted};
use misskey_client::http::{HttpError, ResponseHead};
use misskey_client::traits::MisskeyClientRequest;
use misskey_client::MisskeyHttpClient;

/// A call that creates a note.
struct Create {
    text: String,
    empty_ok: bool,
}

impl MisskeyClientRequest for Create {
    fn endpoint(&self) -> String {
        "/notes/create".to_string()
    }

    fn content_type(&self) -> Option<String> {
        Some("application/json".to_string())
    }

    fn body(&self, token: Option<&str>) -> String {
        match token {
            Some(t) => format!("{{\"i\":\"{}\",\"text\":\"{}\"}}", t, self.text),
            None => format!("{{\"text\":\"{}\"}}", self.text),
        }
    }

    fn can_be_empty(&self) -> bool {
        self.empty_ok
    }
}

/// A call whose path or content type is as given.
struct Odd {
    path: String,
    content_type: Option<String>,
}

impl MisskeyClientRequest for Odd {
    fn endpoint(&self) -> String {
        self.path.clone()
    }

    fn content_type(&self) -> Option<String> {
        self.content_type.clone()
    }

    fn body(&self, _: Option<&str>) -> String {
        String::new()
    }

    fn can_be_empty(&self) -> bool {
        false
    }
}

/// The answer that a note creation expects: the identifier of the note.
fn decode_created_note(text: &str) -> Result<String, serde_json::Error> {
    let value: serde_json::Value = serde_json::from_str(text)?;
    match value.get("createdNote").and_then(|n| n.get("id")).and_then(|i| i.as_str()) {
        Some(id) => Ok(id.to_string()),
        None => Err(<serde_json::Error as serde::de::Error>::custom("missing field `createdNote`")),
    }
}

/// The server's error report.
fn decode_report(text: &str) -> Result<ServerError, serde_json::Error> {
    let value: serde_json::Value = serde_json::from_str(text)?;
    let field = |name: &str| -> Result<String, serde_json::Error> {
        value
            .get("error")
            .and_then(|e| e.get(name))
            .and_then(|v| v.as_str())
            .map(|s| s.to_string())
            .ok_or_else(|| <serde_json::Error as serde::de::Error>::custom(format!("missing field `{}`", name)))
    };
    Ok(ServerError::new(field("message")?, field("code")?, field("id")?, field("kind")?))
}

/// One exchange over a connection that delivers `response`: what the client
/// wrote, and what it made of the answer.
fn exchange(
    client: &MisskeyHttpClient<()>,
    request: &Create,
    response: &[u8],
) -> (Vec<u8>, Result<(ResponseHead, Option<String>), MisskeyConnectionError>) {
    let written = client.gen_request(request).unwrap();
    let mut reader = ResponseReader::new();
    let mut at = 0;
    loop {
        let n = match reader.wants() {
            Wanted::Nothing => break,
            Wanted::Head => 1,
            Wanted::Body(n) => n,
        };
        assert!(at + n <= response.len(), "the response ended early");
        reader = reader.feed(&response[at..at + n]);
        at += n;
    }
    let response = match reader.finish().unwrap() {
        Ok(r) => r,
        Err(e) => return (written, Err(MisskeyConnectionError::HttpError(e))),
    };
    let text = match body_text(response.body) {
        Ok(t) => t,
        Err(e) => return (written, Err(e)),
    };
    let outcome = match client.gen_result(request, response.head, decode_created_note(&text)) {
        Reconciled::Success(r) => Ok((r.head, r.body)),
        Reconciled::Refused { parent_error } => Err(gen_failure(parent_error, decode_report(&text), text)),
    };
    (written, outcome)
}

fn client() -> MisskeyHttpClient<()> {
    MisskeyHttpClient::new((), "example.com").unwrap()
}

fn head(status: u16) -> ResponseHead {
    misskey_client::http::parse_head(format!("HTTP/1.1 {} X\r\n\r\n", status).as_bytes()).unwrap()
}

fn eof_error() -> serde_json::Error {
    serde_json::from_str::<serde_json::Value>("").unwrap_err()
}

fn syntax_error() -> serde_json::Error {
    serde_json::from_str::<serde_json::Value>("nope").unwrap_err()
}

#[test]
fn encode_request_writes_the_six_headers() {
    let bytes = encode_request(b"example.com", b"/i", Some(b"application/json"), b"{}".to_vec()).unwrap();
    assert_eq!(
        String::from_utf8(bytes).unwrap(),
        "POST /api/i HTTP/1.1\r\nAccept-Charset: UTF-8\r\nAccept-Encoding: identity\r\nConnection: keep-alive\r\nContent-Length: 2\r\nHost: example.com\r\nContent-Type: application/json; Charset=UTF-8\r\n\r\n{}"
    );
}

#[test]
fn encode_request_without_content_type_writes_five() {
    let bytes = encode_request(b"example.com", b"/miauth/x/check", None, Vec::new()).unwrap();
    assert_eq!(
        String::from_utf8(bytes).unwrap(),
        "POST /api/miauth/x/check HTTP/1.1\r\nAccept-Charset: UTF-8\r\nAccept-Encoding: identity\r\nConnection: keep-alive\r\nContent-Length: 0\r\nHost: example.com\r\n\r\n"
    );
}

#[test]
fn content_length_is_the_length_of_the_body_in_bytes() {
    for body in [b"".to_vec(), b"x".to_vec(), "ノート".as_bytes().to_vec(), vec![b'a'; 12345], (0u8..=255).collect()] {
        let bytes = encode_request(b"h", b"/e", None, body.clone()).unwrap();
        let end = bytes.windows(4).position(|w| w == b"\r\n\r\n").unwrap() + 4;
        let head = misskey_client::http::parse_head(&[b"HTTP/1.1 200 OK\r\n", &bytes[b"POST /api/e HTTP/1.1\r\n".len()..end]].concat()).unwrap();
        assert_eq!(head.content_length(), body.len());
        assert_eq!(&bytes[end..], &body[..]);
    }
}

#[test]
fn encode_request_refuses_paths_that_break_the_line() {
    for path in ["/a b", "/a\r\nX: y", "/a\n", "/\t", "/é", "/\x7f", "/\x00"] {
        assert_eq!(
            encode_request(b"example.com", path.as_bytes(), None, Vec::new()).err(),
            Some(HttpError::InvalidRequest),
            "path {:?}",
            path
        );
        assert!(!check_target(path.as_bytes()));
    }
    assert!(check_target(b"/notes/create"));
    assert!(check_target(b"/a?b=c&d=%20~"));
    assert!(check_target(b""));
}

#[test]
fn encode_request_refuses_content_types_with_controls() {
    for content_type in ["text/plain\r\nX: y", "a\nb", "a\x00", "a\x7f", "\x1f"] {
        assert_eq!(
            encode_request(b"example.com", b"/i", Some(content_type.as_bytes()), Vec::new()).err(),
            Some(HttpError::InvalidRequest),
            "content type {:?}",
            content_type
        );
        assert!(!check_field_value(content_type.as_bytes()));
    }
    assert!(check_field_value(b"application/json"));
    assert!(check_field_value(b"text/plain; a=\"b c\"\tx"));
    assert!(check_field_value("テキスト".as_bytes()));
}

#[test]
fn gen_request_reports_a_call_that_cannot_be_framed() {
    let odd = Odd { path: "/a b".to_string(), content_type: None };
    assert!(matches!(
        client().gen_request(&odd),
        Err(MisskeyConnectionError::HttpError(HttpError::InvalidRequest))
    ));
    let odd = Odd { path: "/ok".to_string(), content_type: Some("a\r\nb".to_string()) };
    assert!(matches!(
        client().gen_request(&odd),
        Err(MisskeyConnectionError::HttpError(HttpError::InvalidRequest))
    ));
    let fine = Odd { path: "/ok".to_string(), content_type: Some("text/plain".to_string()) };
    assert!(client().gen_request(&fine).is_ok());
}

#[test]
fn body_text_decodes_utf8() {
    assert_eq!(body_text(Vec::new()).unwrap(), "");
    assert_eq!(body_text(b"{\"ok\":true}".to_vec()).unwrap(), "{\"ok\":true}");
    assert_eq!(body_text(vec![0xe3, 0x83, 0x8e, 0xe3, 0x83, 0xbc, 0xe3, 0x83, 0x88]).unwrap(), "ノート");
    assert_eq!(body_text(vec![0xf0, 0x9f, 0x8d, 0xae]).unwrap().chars().count(), 1);
}

#[test]
fn body_text_refuses_what_is_no_utf8() {
    for bytes in [vec![0xff], vec![0xc3], vec![0xe3, 0x83], vec![0xc0, 0xaf], vec![0xed, 0xa0, 0x80], b"ok\x80".to_vec()] {
        assert!(matches!(body_text(bytes.clone()), Err(MisskeyConnectionError::NotUtf8Error(_))), "bytes {:?}", bytes);
    }
}

#[test]
fn decoded_answer_is_a_success_whatever_the_status() {
    for status in [200, 204, 400, 500] {
        for can_be_empty in [false, true] {
            for eof in [false, true] {
                match reconcile(can_be_empty, head(status), Ok::<u8, serde_json::Error>(7), eof) {
                    Reconciled::Success(r) => {
                        assert_eq!(r.head.status, status);
                        assert_eq!(r.body, Some(7));
                    }
                    Reconciled::Refused { .. } => panic!("refused a decoded answer"),
                }
            }
        }
    }
}

#[test]
fn early_end_is_an_empty_success_only_with_204_on_a_call_that_allows_it() {
    for status in [200u16, 204, 205, 404] {
        for can_be_empty in [false, true] {
            for eof in [false, true] {
                let outcome = reconcile(can_be_empty, head(status), Err::<u8, serde_json::Error>(eof_error()), eof);
                let expected_success = eof && can_be_empty && status == 204;
                match outcome {
                    Reconciled::Success(r) => {
                        assert!(expected_success, "status {} empty {} eof {}", status, can_be_empty, eof);
                        assert_eq!(r.head.status, 204);
                        assert_eq!(r.body, None);
                    }
                    Reconciled::Refused { parent_error } => {
                        assert!(!expected_success, "status {} empty {} eof {}", status, can_be_empty, eof);
                        assert!(parent_error.is_eof());
                    }
                }
            }
        }
    }
    assert_eq!(NO_CONTENT, 204);
}

#[test]
fn gen_result_asks_the_error_whether_the_text_ended_early() {
    let call = Create { text: String::new(), empty_ok: true };
    // Ended early: an empty success.
    match client().gen_result(&call, head(204), Err::<String, _>(eof_error())) {
        Reconciled::Success(r) => assert_eq!(r.body, None),
        Reconciled::Refused { .. } => panic!("refused an empty answer"),
    }
    // Malformed, not ended early: no success.
    match client().gen_result(&call, head(204), Err::<String, _>(syntax_error())) {
        Reconciled::Success(_) => panic!("took a malformed answer for an empty one"),
        Reconciled::Refused { parent_error } => assert!(parent_error.is_syntax()),
    }
}

#[test]
fn gen_failure_prefers_the_report() {
    let report = ServerError::new("m".to_string(), "C".to_string(), "i".to_string(), "client".to_string());
    match gen_failure(syntax_error(), Ok(report), "raw".to_string()) {
        MisskeyConnectionError::ServerResponseError(e) => {
            assert_eq!(e.message(), "m");
            assert_eq!(e.code(), "C");
            assert_eq!(e.id(), "i");
            assert_eq!(e.kind(), "client");
        }
        other => panic!("unexpected failure {:?}", other),
    }
}

#[test]
fn gen_failure_keeps_both_errors_and_the_body() {
    match gen_failure(eof_error(), Err(syntax_error()), "nope".to_string()) {
        MisskeyConnectionError::SerdeError { parent_error, error, raw_string } => {
            assert!(parent_error.is_eof());
            assert!(error.is_syntax());
            assert_eq!(raw_string, "nope");
        }
        other => panic!("unexpected failure {:?}", other),
    }
}

#[test]
fn errors_convert_into_the_connection_error() {
    let io = std::io::Error::new(std::io::ErrorKind::BrokenPipe, "gone");
    assert!(matches!(MisskeyConnectionError::from(io), MisskeyConnectionError::IoError(e) if e.kind() == std::io::ErrorKind::BrokenPipe));
    assert!(matches!(
        MisskeyConnectionError::from(HttpError::InvalidStatusCode),
        MisskeyConnectionError::HttpError(HttpError::InvalidStatusCode)
    ));
    let utf8 = String::from_utf8(vec![0xff]).unwrap_err();
    assert!(matches!(MisskeyConnectionError::from(utf8), MisskeyConnectionError::NotUtf8Error(e) if e.as_bytes() == [0xff]));
    let report = ServerError::new("m".to_string(), "C".to_string(), "i".to_string(), "k".to_string());
    assert!(matches!(MisskeyConnectionError::from(report), MisskeyConnectionError::ServerResponseError(e) if e.kind() == "k"));
    let report = ServerError::new("m".to_string(), "C".to_string(), "i".to_string(), "k".to_string());
    let envelope = ServerErrorResponse { error: report };
    assert!(matches!(MisskeyConnectionError::from(envelope), MisskeyConnectionError::ServerResponseError(e) if e.id() == "i"));
}

#[test]
fn empty_204_on_a_call_that_allows_it_is_an_empty_success() {
    let call = Create { text: "hello".to_string(), empty_ok: true };
    let (_, outcome) = exchange(&client(), &call, b"HTTP/1.1 204 No Content\r\nContent-Length: 0\r\n\r\n");
    let (head, body) = outcome.unwrap();
    assert_eq!(head.status, 204);
    assert_eq!(body, None);
}

#[test]
fn empty_204_on_a_call_that_forbids_it_is_a_dual_decode_failure() {
    let call = Create { text: "hello".to_string(), empty_ok: false };
    let (_, outcome) = exchange(&client(), &call, b"HTTP/1.1 204 No Content\r\nContent-Length: 0\r\n\r\n");
    match outcome {
        Err(MisskeyConnectionError::SerdeError { parent_error, error, raw_string }) => {
            assert!(parent_error.is_eof());
            assert!(error.is_eof());
            assert_eq!(raw_string, "");
        }
        other => panic!("unexpected outcome {:?}", other.map(|(h, b)| (h.status, b))),
    }
}

#[test]
fn empty_200_is_a_failure_even_where_empty_is_allowed() {
    let call = Create { text: "hello".to_string(), empty_ok: true };
    let (_, outcome) = exchange(&client(), &call, b"HTTP/1.1 200 OK\r\nContent-Length: 0\r\n\r\n");
    assert!(matches!(outcome, Err(MisskeyConnectionError::SerdeError { .. })));
}

#[test]
fn created_note_is_decoded() {
    let call = Create { text: "hello".to_string(), empty_ok: false };
    // The head announces one byte more than the object is long: the line
    // feed after it belongs to the body.
    let response = b"HTTP/1.1 200 OK\r\nContent-Length: 27\r\n\r\n{\"createdNote\":{\"id\":\"1\"}}\n";
    let (written, outcome) = exchange(&client(), &call, response);
    assert!(written.ends_with(b"\r\n\r\n{\"text\":\"hello\"}"));
    let (head, body) = outcome.unwrap();
    assert_eq!(head.status, 200);
    assert_eq!(body, Some("1".to_string()));
}

#[test]
fn head_that_announces_one_byte_more_waits_for_it() {
    let response = b"HTTP/1.1 200 OK\r\nContent-Length: 27\r\n\r\n{\"createdNote\":{\"id\":\"1\"}}";
    let reader = ResponseReader::new().feed(response);
    assert_eq!(reader.wants(), Wanted::Body(1));
    assert!(reader.finish().is_none());
}

#[test]
fn error_report_is_surfaced() {
    let call = Create { text: "hello".to_string(), empty_ok: false };
    let response = b"HTTP/1.1 400 Bad Request\r\nContent-Length: 61\r\n\r\n{\"error\":{\"message\":\"m\",\"code\":\"C\",\"id\":\"i\",\"kind\":\"client\"}}";
    let (_, outcome) = exchange(&client(), &call, response);
    match outcome {
        Err(MisskeyConnectionError::ServerResponseError(e)) => {
            assert_eq!(e.code(), "C");
            assert_eq!(e.message(), "m");
            assert_eq!(e.id(), "i");
            assert_eq!(e.kind(), "client");
        }
        other => panic!("unexpected outcome {:?}", other.map(|(h, b)| (h.status, b))),
    }
}

#[test]
fn body_that_is_neither_answer_nor_report_keeps_the_raw_text() {
    let call = Create { text: "hello".to_string(), empty_ok: false };
    let response = b"HTTP/1.1 502 Bad Gateway\r\nContent-Length: 15\r\n\r\n<html>502</html";
    let (_, outcome) = exchange(&client(), &call, response);
    match outcome {
        Err(MisskeyConnectionError::SerdeError { raw_string, .. }) => assert_eq!(raw_string, "<html>502</html"),
        other => panic!("unexpected outcome {:?}", other.map(|(h, b)| (h.status, b))),
    }
}

#[test]
fn body_that_is_no_utf8_fails_before_any_decoding() {
    let call = Create { text: "hello".to_string(), empty_ok: true };
    let (_, outcome) = exchange(&client(), &call, b"HTTP/1.1 204 No Content\r\nContent-Length: 2\r\n\r\n\xff\xfe");
    assert!(matches!(outcome, Err(MisskeyConnectionError::NotUtf8Error(_))));
}

#[test]
fn response_that_is_no_http_fails_with_the_framing_error() {
    let call = Create { text: "hello".to_string(), empty_ok: false };
    let (_, outcome) = exchange(&client(), &call, b"SSH-2.0-OpenSSH\r\n\r\n");
    assert!(matches!(outcome, Err(MisskeyConnectionError::HttpError(HttpError::MalformedStatusLine))));
}
