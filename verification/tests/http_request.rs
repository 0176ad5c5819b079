use misskey_client::http::requests::{HttpRequest, Method};

fn text(request: &HttpRequest) -> String {
    String::from_utf8(request.to_bytes()).unwrap()
}

#[test]
fn method_tokens() {
    assert_eq!(Method::Delete.as_str(), "DELETE");
    assert_eq!(Method::Get.as_str(), "GET");
    assert_eq!(Method::Head.as_str(), "HEAD");
    assert_eq!(Method::Post.as_str(), "POST");
    assert_eq!(Method::Put.as_str(), "PUT");
    assert_eq!(Method::Trace.as_str(), "TRACE");
}

#[test]
fn request_without_headers_has_one_empty_line() {
    let request = HttpRequest::new(Method::Get, "/", "HTTP/1.1");
    assert_eq!(text(&request), "GET / HTTP/1.1\r\n\r\n");
}

#[test]
fn headers_go_out_in_the_order_they_came() {
    let request = HttpRequest::new(Method::Post, "/api/i", "HTTP/1.1")
        .header("Host", "example.com")
        .header("Accept-Charset", "UTF-8")
        .header("Content-Length", "2")
        .body(b"{}".to_vec());
    assert_eq!(
        text(&request),
        "POST /api/i HTTP/1.1\r\nHost: example.com\r\nAccept-Charset: UTF-8\r\nContent-Length: 2\r\n\r\n{}"
    );
}

#[test]
fn setting_a_header_again_replaces_its_value_in_place() {
    let request = HttpRequest::new(Method::Put, "/x", "HTTP/1.0")
        .header("A", "1")
        .header("B", "2")
        .header("A", "3");
    assert_eq!(text(&request), "PUT /x HTTP/1.0\r\nA: 3\r\nB: 2\r\n\r\n");
}

#[test]
fn header_names_differ_by_case() {
    let request = HttpRequest::new(Method::Head, "/x", "HTTP/1.1").header("a", "1").header("A", "2");
    assert_eq!(text(&request), "HEAD /x HTTP/1.1\r\na: 1\r\nA: 2\r\n\r\n");
}

#[test]
fn body_goes_out_verbatim() {
    let body = vec![0u8, 13, 10, 13, 10, 255, 128];
    let request = HttpRequest::new(Method::Post, "/bin", "HTTP/1.1").body(body.clone());
    let bytes = request.to_bytes();
    assert_eq!(&bytes[..b"POST /bin HTTP/1.1\r\n\r\n".len()], b"POST /bin HTTP/1.1\r\n\r\n");
    assert_eq!(&bytes[b"POST /bin HTTP/1.1\r\n\r\n".len()..], &body[..]);
}

#[test]
fn body_replaces_an_earlier_body() {
    let request = HttpRequest::new(Method::Post, "/x", "HTTP/1.1").body(b"one".to_vec()).body(b"two".to_vec());
    assert_eq!(text(&request), "POST /x HTTP/1.1\r\n\r\ntwo");
}

#[test]
fn raw_bytes_and_text_build_the_same_request() {
    let a = HttpRequest::new(Method::Trace, "/t", "HTTP/1.1").header("K", "v");
    let b = HttpRequest::new_bytes(Method::Trace, b"/t".to_vec(), b"HTTP/1.1".to_vec())
        .header_bytes(b"K".to_vec(), b"v".to_vec());
    assert_eq!(a.to_bytes(), b.to_bytes());
}

#[test]
fn text_outside_ascii_goes_out_as_utf8() {
    let request = HttpRequest::new(Method::Get, "/é", "HTTP/1.1").header("X-Name", "ノート");
    assert_eq!(request.to_bytes(), "GET /é HTTP/1.1\r\nX-Name: ノート\r\n\r\n".as_bytes().to_vec());
}
