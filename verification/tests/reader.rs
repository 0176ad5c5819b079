use misskey_client::http::reader::{ResponseReader, Wanted};
use misskey_client::http::requests::{HttpRequest, Method};
use misskey_client::http::{HttpError, HttpResponse, HttpVersion};

/// Feeds `stream` in chunks of `size` bytes, all of it.
fn feed_in_chunks(stream: &[u8], size: usize) -> ResponseReader {
    let mut reader = ResponseReader::new();
    for chunk in stream.chunks(size) {
        reader = reader.feed(chunk);
    }
    reader
}

/// Reads from `stream` as a careful owner of the connection does: one byte
/// at a time while the head is wanted, then exactly the body.
/// Returns the reader and how many bytes it took.
fn read_as_wanted(stream: &[u8]) -> (ResponseReader, usize) {
    let mut reader = ResponseReader::new();
    let mut at = 0;
    loop {
        match reader.wants() {
            Wanted::Nothing => return (reader, at),
            Wanted::Head => {
                if at == stream.len() {
                    return (reader, at);
                }
                reader = reader.feed(&stream[at..at + 1]);
                at += 1;
            }
            Wanted::Body(n) => {
                let end = (at + n).min(stream.len());
                if end == at {
                    return (reader, at);
                }
                reader = reader.feed(&stream[at..end]);
                at = end;
            }
        }
    }
}

fn digest(response: &HttpResponse<Vec<u8>>) -> (HttpVersion, u16, Vec<u8>, Vec<(Vec<u8>, Vec<u8>)>, Vec<u8>) {
    (
        response.head.version,
        response.head.status,
        response.head.reason.clone(),
        response.head.headers.iter().map(|f| (f.name.clone(), f.value.clone())).collect(),
        response.body.clone(),
    )
}

const NOTE: &[u8] = b"HTTP/1.1 200 OK\r\nContent-Type: application/json\r\nContent-Length: 26\r\n\r\n{\"createdNote\":{\"id\":\"1\"}}";

#[test]
fn new_reader_wants_the_head() {
    let reader = ResponseReader::new();
    assert_eq!(reader.wants(), Wanted::Head);
    assert!(reader.finish().is_none());
}

#[test]
fn whole_response_at_once() {
    let reader = ResponseReader::new().feed(NOTE);
    assert_eq!(reader.wants(), Wanted::Nothing);
    let response = reader.finish().unwrap().unwrap();
    assert_eq!(response.head.status, 200);
    assert_eq!(response.head.content_length(), 26);
    assert_eq!(response.body, b"{\"createdNote\":{\"id\":\"1\"}}".to_vec());
}

#[test]
fn chunk_size_does_not_matter() {
    let whole = digest(&feed_in_chunks(NOTE, NOTE.len()).finish().unwrap().unwrap());
    for size in 1..=NOTE.len() {
        let reader = feed_in_chunks(NOTE, size);
        assert_eq!(reader.wants(), Wanted::Nothing, "chunks of {}", size);
        assert_eq!(digest(&reader.finish().unwrap().unwrap()), whole, "chunks of {}", size);
    }
}

#[test]
fn wants_follow_the_stream_byte_by_byte() {
    let head_len = NOTE.len() - 26;
    let mut reader = ResponseReader::new();
    for (i, byte) in NOTE.iter().enumerate() {
        let expected = if i < head_len { Wanted::Head } else { Wanted::Body(NOTE.len() - i) };
        assert_eq!(reader.wants(), expected, "before byte {}", i);
        reader = reader.feed(&[*byte]);
    }
    assert_eq!(reader.wants(), Wanted::Nothing);
}

#[test]
fn careful_reading_takes_exactly_the_response() {
    let mut stream = NOTE.to_vec();
    stream.extend_from_slice(b"HTTP/1.1 500 Next Response\r\n\r\n");
    let (reader, taken) = read_as_wanted(&stream);
    assert_eq!(taken, NOTE.len());
    let response = reader.finish().unwrap().unwrap();
    assert_eq!(response.head.status, 200);
    assert_eq!(response.body.len(), 26);
}

#[test]
fn bytes_read_past_the_head_are_kept_for_the_body() {
    let head_len = NOTE.len() - 26;
    // The first read reaches ten bytes into the body.
    let reader = ResponseReader::new().feed(&NOTE[..head_len + 10]);
    assert_eq!(reader.wants(), Wanted::Body(16));
    let reader = reader.feed(&NOTE[head_len + 10..]);
    assert_eq!(reader.finish().unwrap().unwrap().body, NOTE[head_len..].to_vec());
}

#[test]
fn bytes_after_the_body_are_not_part_of_it() {
    let mut stream = NOTE.to_vec();
    stream.extend_from_slice(b"trailing bytes");
    let with_more = digest(&feed_in_chunks(&stream, 5).finish().unwrap().unwrap());
    let exact = digest(&feed_in_chunks(NOTE, 5).finish().unwrap().unwrap());
    assert_eq!(with_more, exact);
}

#[test]
fn incomplete_head_gives_nothing() {
    let reader = ResponseReader::new().feed(b"HTTP/1.1 200 OK\r\nContent-Length: 2\r\n\r");
    assert_eq!(reader.wants(), Wanted::Head);
    assert!(reader.finish().is_none());
}

#[test]
fn incomplete_body_gives_nothing() {
    let reader = ResponseReader::new().feed(b"HTTP/1.1 200 OK\r\nContent-Length: 2\r\n\r\n{");
    assert_eq!(reader.wants(), Wanted::Body(1));
    assert!(reader.finish().is_none());
}

#[test]
fn empty_chunks_change_nothing() {
    let reader = ResponseReader::new().feed(b"").feed(b"HTTP/1.1 204 No Content\r\n").feed(b"").feed(b"\r\n").feed(b"");
    assert_eq!(reader.wants(), Wanted::Nothing);
    let response = reader.finish().unwrap().unwrap();
    assert_eq!(response.head.status, 204);
    assert_eq!(response.body, Vec::<u8>::new());
}

#[test]
fn response_without_content_length_has_no_body() {
    let reader = ResponseReader::new().feed(b"HTTP/1.1 200 OK\r\n\r\nignored");
    assert_eq!(reader.wants(), Wanted::Nothing);
    assert_eq!(reader.finish().unwrap().unwrap().body, Vec::<u8>::new());
}

#[test]
fn head_ends_at_the_first_empty_line() {
    // The body itself holds an empty line.
    let stream = b"HTTP/1.1 200 OK\r\nContent-Length: 6\r\n\r\na\r\n\r\nb";
    for size in [1, 4, stream.len()] {
        let response = feed_in_chunks(stream, size).finish().unwrap().unwrap();
        assert_eq!(response.body, b"a\r\n\r\nb".to_vec());
    }
}

#[test]
fn body_may_hold_any_byte() {
    let body: Vec<u8> = (0u8..=255).collect();
    let mut stream = format!("HTTP/1.1 200 OK\r\nContent-Length: {}\r\n\r\n", body.len()).into_bytes();
    stream.extend_from_slice(&body);
    for size in [1, 3, 64, stream.len()] {
        assert_eq!(feed_in_chunks(&stream, size).finish().unwrap().unwrap().body, body);
    }
}

#[test]
fn refused_head_is_reported_and_nothing_more_is_wanted() {
    let reader = ResponseReader::new().feed(b"HTTP/7 200 OK\r\nContent-Length: 5\r\n\r\n");
    assert_eq!(reader.wants(), Wanted::Nothing);
    assert_eq!(reader.finish().unwrap().err(), Some(HttpError::UnsupportedVersion));
    let reader = feed_in_chunks(b"nonsense\r\n\r\nHTTP/1.1 200 OK\r\n\r\n", 1);
    assert_eq!(reader.finish().unwrap().err(), Some(HttpError::MalformedStatusLine));
    let reader = feed_in_chunks(b"HTTP/1.1 2000 OK\r\n\r\n", 2);
    assert_eq!(reader.finish().unwrap().err(), Some(HttpError::InvalidStatusCode));
}

#[test]
fn a_read_of_nothing_while_the_head_is_wanted_is_the_end() {
    assert_eq!(ResponseReader::new().on_read(b"").err(), Some(HttpError::UnexpectedEnd));
    let reader = ResponseReader::new().on_read(b"HTTP/1.1 200 OK\r\n").unwrap();
    assert_eq!(reader.wants(), Wanted::Head);
    assert_eq!(reader.on_read(b"").err(), Some(HttpError::UnexpectedEnd));
}

#[test]
fn a_read_of_nothing_while_the_body_is_wanted_is_the_end() {
    let reader = ResponseReader::new().on_read(b"HTTP/1.1 200 OK\r\nContent-Length: 3\r\n\r\nab").unwrap();
    assert_eq!(reader.wants(), Wanted::Body(1));
    assert_eq!(reader.on_read(b"").err(), Some(HttpError::UnexpectedEnd));
}

#[test]
fn a_read_of_nothing_once_nothing_is_wanted_changes_nothing() {
    let reader = ResponseReader::new().on_read(NOTE).unwrap();
    assert_eq!(reader.wants(), Wanted::Nothing);
    let reader = reader.on_read(b"").unwrap();
    assert_eq!(reader.finish().unwrap().unwrap().body, b"{\"createdNote\":{\"id\":\"1\"}}".to_vec());
    let refused = ResponseReader::new().on_read(b"nonsense\r\n\r\n").unwrap();
    let refused = refused.on_read(b"").unwrap();
    assert_eq!(refused.finish().unwrap().err(), Some(HttpError::MalformedStatusLine));
}

#[test]
fn reads_that_return_bytes_are_fed() {
    let whole = digest(&feed_in_chunks(NOTE, 7).finish().unwrap().unwrap());
    let mut reader = ResponseReader::new();
    for chunk in NOTE.chunks(7) {
        reader = reader.on_read(chunk).unwrap();
    }
    assert_eq!(digest(&reader.finish().unwrap().unwrap()), whole);
}

/// A peer that reads a request as any reader of messages does, and answers
/// with status 200 and the body it found.
fn echo_peer(request: &[u8]) -> Vec<u8> {
    let end = request.windows(4).position(|w| w == b"\r\n\r\n").unwrap() + 4;
    let head = String::from_utf8(request[..end].to_vec()).unwrap();
    let length: usize = head
        .lines()
        .filter_map(|line| line.split_once(':'))
        .filter(|(name, _)| name.trim().eq_ignore_ascii_case("content-length"))
        .map(|(_, value)| value.trim().parse().unwrap())
        .last()
        .unwrap();
    let body = &request[end..end + length];
    let mut response = format!("HTTP/1.1 200 OK\r\nContent-Length: {}\r\n\r\n", body.len()).into_bytes();
    response.extend_from_slice(body);
    response
}

#[test]
fn echoed_body_comes_back_byte_for_byte() {
    let bodies: Vec<Vec<u8>> = vec![
        vec![],
        b"{\"text\":\"hello\"}".to_vec(),
        b"\r\n\r\n".to_vec(),
        "{\"text\":\"ノート\"}".as_bytes().to_vec(),
        (0u8..=255).collect(),
        vec![b'x'; 10_000],
    ];
    for body in bodies {
        let request = HttpRequest::new(Method::Post, "/api/notes/create", "HTTP/1.1")
            .header("Host", "example.com")
            .header("Content-Length", &body.len().to_string())
            .body(body.clone())
            .to_bytes();
        let response = echo_peer(&request);
        for size in [1, 7, response.len().max(1)] {
            let decoded = feed_in_chunks(&response, size).finish().unwrap().unwrap();
            assert_eq!(decoded.head.status, 200);
            assert_eq!(decoded.body, body);
        }
    }
}
