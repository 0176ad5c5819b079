use misskey_client::authority::{is_port, is_port_suffix, measure_host, Authority};
use misskey_client::errors::MisskeyConnectionError;
use misskey_client::traits::MisskeyClientRequest;
use misskey_client::MisskeyHttpClient;

/// A call with a JSON body that carries the token in the field `i`.
struct Echo {
    text: String,
}

impl MisskeyClientRequest for Echo {
    fn endpoint(&self) -> String {
        "/notes/create".to_string()
    }

    fn content_type(&self) -> Option<String> {
        Some("application/json".to_string())
    }

    fn body(&self, token: Option<&str>) -> String {
        match token {
            Some(t) => format!("{{\"i\":\"{}\",\"text\":\"{}\"}}", t, self.text),
            None => format!("{{\"text\":\"{}\"}}", self.text),
        }
    }

    fn can_be_empty(&self) -> bool {
        false
    }
}

fn sent(client: &MisskeyHttpClient<Vec<u8>>) -> Vec<u8> {
    client.gen_request(&Echo { text: "hello".to_string() }).unwrap()
}

#[test]
fn new_accepts_host_and_port() {
    let client = MisskeyHttpClient::new((), "example.com:8080").unwrap();
    assert_eq!(client.authority().as_str(), "example.com:8080");
    assert_eq!(client.authority().host(), b"example.com");
    assert!(!client.is_logged_in());
    assert_eq!(client.access_token(), None);
}

#[test]
fn new_accepts_many_hosts() {
    for (text, host) in [
        ("example.com", "example.com"),
        ("misskey.io:443", "misskey.io"),
        ("localhost:3000", "localhost"),
        ("192.168.0.1", "192.168.0.1"),
        ("192.168.0.1:65535", "192.168.0.1"),
        ("[::1]", "[::1]"),
        ("[2001:db8::ff00:42:8329]:8080", "[2001:db8::ff00:42:8329]"),
        ("a", "a"),
        ("xn--eckwd4c7c.xn--zckzah", "xn--eckwd4c7c.xn--zckzah"),
        ("host_name-1.test:0", "host_name-1.test"),
    ] {
        let authority = Authority::parse(text).unwrap();
        assert_eq!(authority.as_str(), text);
        assert_eq!(authority.host(), host.as_bytes(), "authority {:?}", text);
        assert_eq!(measure_host(text.as_bytes()), Some(host.len()));
    }
}

#[test]
fn new_refuses_malformed_authorities() {
    for text in [
        "",
        ":80",
        "example.com:",
        "example.com:http",
        "example.com:65536",
        "example.com:123456",
        "example.com:+80",
        "example.com:80:80",
        "example.com/path",
        "example.com?query",
        "user@example.com",
        "example .com",
        "example.com\r\n",
        "exämple.com",
        "[::1",
        "[]",
        "[::1]x",
        "[::g]",
        "[::1]:",
        "https://example.com",
    ] {
        let result = MisskeyHttpClient::new((), text);
        assert!(
            matches!(result.err(), Some(MisskeyConnectionError::InvalidAuthorityError)),
            "authority {:?}",
            text
        );
        assert_eq!(measure_host(text.as_bytes()), None, "authority {:?}", text);
    }
}

#[test]
fn ports_are_one_to_five_digits_up_to_65535() {
    for port in ["0", "80", "00080", "65535"] {
        assert!(is_port(port.as_bytes()), "port {:?}", port);
    }
    for port in ["", "65536", "99999", "000080", "8o", "+80", " 80"] {
        assert!(!is_port(port.as_bytes()), "port {:?}", port);
    }
    assert!(is_port_suffix(b""));
    assert!(is_port_suffix(b":443"));
    assert!(!is_port_suffix(b":"));
    assert!(!is_port_suffix(b"443"));
}

#[test]
fn login_sets_the_token() {
    let client = MisskeyHttpClient::new(Vec::<u8>::new(), "example.com").unwrap().login("tok");
    assert!(client.is_logged_in());
    assert_eq!(client.access_token(), Some("tok"));
    assert_eq!(client.authority().as_str(), "example.com");
}

#[test]
fn login_replaces_an_earlier_token() {
    let client = MisskeyHttpClient::new(Vec::<u8>::new(), "example.com").unwrap().login("one").login("two");
    assert_eq!(client.access_token(), Some("two"));
}

#[test]
fn logout_clears_the_token() {
    let client = MisskeyHttpClient::new(Vec::<u8>::new(), "example.com").unwrap().login("tok").logout();
    assert!(!client.is_logged_in());
    assert_eq!(client.access_token(), None);
}

#[test]
fn login_then_logout_is_as_never_logged_in() {
    let fresh = MisskeyHttpClient::new(b"stream".to_vec(), "example.com:8080").unwrap();
    let back = MisskeyHttpClient::new(b"stream".to_vec(), "example.com:8080").unwrap().login("tok").logout();
    assert_eq!(back.access_token(), fresh.access_token());
    assert_eq!(back.authority().as_str(), fresh.authority().as_str());
    assert_eq!(sent(&back), sent(&fresh));
    assert_eq!(back.into_stream(), fresh.into_stream());
}

#[test]
fn the_stream_moves_with_the_client() {
    let mut client = MisskeyHttpClient::new(vec![1u8, 2, 3], "example.com").unwrap();
    client.stream_mut().push(4);
    let client = client.login("tok");
    assert_eq!(client.into_stream(), vec![1, 2, 3, 4]);
}

#[test]
fn gen_request_frames_a_post() {
    let client = MisskeyHttpClient::new(Vec::new(), "example.com").unwrap();
    let expected = "POST /api/notes/create HTTP/1.1\r\n\
        Accept-Charset: UTF-8\r\n\
        Accept-Encoding: identity\r\n\
        Connection: keep-alive\r\n\
        Content-Length: 16\r\n\
        Host: example.com\r\n\
        Content-Type: application/json; Charset=UTF-8\r\n\
        \r\n\
        {\"text\":\"hello\"}";
    assert_eq!(String::from_utf8(sent(&client)).unwrap(), expected);
}

#[test]
fn gen_request_hands_the_token_to_the_call() {
    let client = MisskeyHttpClient::new(Vec::new(), "example.com:8080").unwrap().login("tok");
    let expected = "POST /api/notes/create HTTP/1.1\r\n\
        Accept-Charset: UTF-8\r\n\
        Accept-Encoding: identity\r\n\
        Connection: keep-alive\r\n\
        Content-Length: 26\r\n\
        Host: example.com\r\n\
        Content-Type: application/json; Charset=UTF-8\r\n\
        \r\n\
        {\"i\":\"tok\",\"text\":\"hello\"}";
    assert_eq!(String::from_utf8(sent(&client)).unwrap(), expected);
}

#[test]
fn gen_header_reads_head_and_length() {
    let client = MisskeyHttpClient::new((), "example.com").unwrap();
    let (head, length) = client.gen_header(b"HTTP/1.1 400 Bad Request\r\nContent-Length: 61\r\n\r\n").unwrap();
    assert_eq!(head.status, 400);
    assert_eq!(head.reason, b"Bad Request".to_vec());
    assert_eq!(length, 61);
    let (_, length) = client.gen_header(b"HTTP/1.1 204 No Content\r\n\r\n").unwrap();
    assert_eq!(length, 0);
}

#[test]
fn gen_header_reports_what_is_no_head() {
    let client = MisskeyHttpClient::new((), "example.com").unwrap();
    for (head, error) in [
        ("oops\r\n\r\n", misskey_client::http::HttpError::MalformedStatusLine),
        ("HTTP/4 200 OK\r\n\r\n", misskey_client::http::HttpError::UnsupportedVersion),
        ("HTTP/1.1 two OK\r\n\r\n", misskey_client::http::HttpError::InvalidStatusCode),
    ] {
        match client.gen_header(head.as_bytes()) {
            Err(MisskeyConnectionError::HttpError(e)) => assert_eq!(e, error),
            other => panic!("unexpected outcome for {:?}: {:?}", head, other.map(|(h, n)| (h.status, n))),
        }
    }
}
