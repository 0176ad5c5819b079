//! What goes over the connection for a call, and what a response means.

use crate::authority::is_visible;
use crate::errors::{MisskeyConnectionError, ServerError};
use crate::http::framing::{
    canonical, echo_response, framable, head_of, is_field_name, lemma_decimal_is_plain,
    lemma_echo_round_trip, lemma_message_framing, lemma_no_line_feed_concat, no_line_feed,
};
use crate::http::reader::{decode, head_end, Decoded};
use crate::http::requests::{lemma_put_fresh, request_line, HttpRequest, Method, RequestModel};
use crate::http::{
    content_length, content_length_name, fields_of, last_value, parse_head, parse_head_spec,
    HeadModel, HttpError, HttpResponse, ResponseHead,
};
use crate::text::{
    append_bytes, ascii, ascii_bytes, decimal, format_usize, lemma_parse_decimal, lower, split,
    LF, SP,
};
use crate::traits::{opt_string_text, opt_text, MisskeyClientRequest};
use crate::MisskeyHttpClient;
use vstd::prelude::*;
use vstd::slice::slice_to_vec;
use vstd::string::*;
use vstd::utf8::{decode_utf8, encode_utf8, valid_utf8};

verus! {

/// A byte that may stand in a header value: a tab, or anything from the
/// space upwards but the delete control.
pub open spec fn is_value_byte(b: u8) -> bool {
    b == 0x09 || (0x20 <= b && b != 0x7f)
}

/// A request target: visible ASCII throughout.
pub open spec fn is_target(path: Seq<u8>) -> bool {
    forall|i: int| 0 <= i < path.len() ==> is_visible(#[trigger] path[i])
}

/// A header value: no control byte but the tab.
pub open spec fn is_field_value(value: Seq<u8>) -> bool {
    forall|i: int| 0 <= i < value.len() ==> is_value_byte(#[trigger] value[i])
}

/// The call can be framed: its path is a request target, and its content
/// type, where it has one, is a header value.
pub open spec fn can_frame(endpoint: Seq<u8>, content_type: Option<Seq<u8>>) -> bool {
    is_target(endpoint) && match content_type {
        Some(ct) => is_field_value(ct),
        None => true,
    }
}

/// The headers of every request, in the order in which they are sent.
pub open spec fn request_fields(host: Seq<u8>, content_type: Option<Seq<u8>>, body_len: nat) -> Seq<
    (Seq<u8>, Seq<u8>),
> {
    let always = seq![
        (ascii("Accept-Charset"@), ascii("UTF-8"@)),
        (ascii("Accept-Encoding"@), ascii("identity"@)),
        (ascii("Connection"@), ascii("keep-alive"@)),
        (ascii("Content-Length"@), decimal(body_len)),
        (ascii("Host"@), host),
    ];
    match content_type {
        Some(ct) => always.push((ascii("Content-Type"@), ct + ascii("; Charset=UTF-8"@))),
        None => always,
    }
}

/// The request that carries a call: a POST to the path under `/api`.
pub open spec fn post_request(
    host: Seq<u8>,
    endpoint: Seq<u8>,
    content_type: Option<Seq<u8>>,
    body: Seq<u8>,
) -> RequestModel {
    RequestModel {
        method: Method::Post,
        uri: ascii("/api"@) + endpoint,
        version: ascii("HTTP/1.1"@),
        headers: request_fields(host, content_type, body.len()),
        body,
    }
}

/// The bytes of an optional text.
pub open spec fn opt_bytes(text: Option<Seq<char>>) -> Option<Seq<u8>> {
    match text {
        Some(t) => Some(encode_utf8(t)),
        None => None,
    }
}

/// Tells whether every byte of `path` is visible ASCII.
pub fn check_target(path: &[u8]) -> (res: bool)
    ensures
        res == is_target(path@),
{
    let mut i: usize = 0;
    while i < path.len()
        invariant
            0 <= i <= path@.len(),
            forall|k: int| 0 <= k < i ==> is_visible(#[trigger] path@[k]),
        decreases path@.len() - i,
    {
        let b: u8 = path[i];
        if !(0x21 <= b && b <= 0x7e) {
            return false;
        }
        i += 1;
    }
    true
}

/// Tells whether `value` holds no control byte but the tab.
pub fn check_field_value(value: &[u8]) -> (res: bool)
    ensures
        res == is_field_value(value@),
{
    let mut i: usize = 0;
    while i < value.len()
        invariant
            0 <= i <= value@.len(),
            forall|k: int| 0 <= k < i ==> is_value_byte(#[trigger] value@[k]),
        decreases value@.len() - i,
    {
        let b: u8 = value[i];
        if !(b == 0x09 || (0x20 <= b && b != 0x7f)) {
            return false;
        }
        i += 1;
    }
    true
}

/// Copies the bytes of a text into a fresh vector.
fn literal(text: &str) -> (res: Vec<u8>)
    ensures
        res@ == encode_utf8(text@),
        vstd::utf8::is_ascii_chars(text@) ==> res@ == ascii(text@),
{
    slice_to_vec(ascii_bytes(text))
}

/// Frames the request that carries a call to the server at `host`.
///
/// Fails, with `InvalidRequest`, exactly where the path or the content type
/// holds a byte that would break the framing.
pub fn encode_request(
    host: &[u8],
    endpoint: &[u8],
    content_type: Option<&[u8]>,
    body: Vec<u8>,
) -> (res: Result<Vec<u8>, HttpError>)
    ensures
        match res {
            Ok(bytes) => can_frame(endpoint@, opt_view(content_type)) && bytes@ == post_request(
                host@,
                endpoint@,
                opt_view(content_type),
                body@,
            ).wire(),
            Err(e) => e == HttpError::InvalidRequest && !can_frame(
                endpoint@,
                opt_view(content_type),
            ),
        },
{
    if !check_target(endpoint) {
        return Err(HttpError::InvalidRequest);
    }
    match content_type {
        Some(ct) => {
            if !check_field_value(ct) {
                return Err(HttpError::InvalidRequest);
            }
        },
        None => {},
    }
    proof {
        reveal_strlit("/api");
        reveal_strlit("HTTP/1.1");
        reveal_strlit("Accept-Charset");
        reveal_strlit("UTF-8");
        reveal_strlit("Accept-Encoding");
        reveal_strlit("identity");
        reveal_strlit("Connection");
        reveal_strlit("keep-alive");
        reveal_strlit("Content-Length");
        reveal_strlit("Host");
        reveal_strlit("Content-Type");
        reveal_strlit("; Charset=UTF-8");
    }
    let mut uri: Vec<u8> = literal("/api");
    append_bytes(&mut uri, endpoint);
    let version: Vec<u8> = literal("HTTP/1.1");
    let length: Vec<u8> = format_usize(body.len());
    let ghost f0 = Seq::<(Seq<u8>, Seq<u8>)>::empty();
    let ghost f1 = f0.push((ascii("Accept-Charset"@), ascii("UTF-8"@)));
    let ghost f2 = f1.push((ascii("Accept-Encoding"@), ascii("identity"@)));
    let ghost f3 = f2.push((ascii("Connection"@), ascii("keep-alive"@)));
    let ghost f4 = f3.push((ascii("Content-Length"@), decimal(body@.len())));
    let ghost f5 = f4.push((ascii("Host"@), host@));
    proof {
        assert(ascii("Accept-Charset"@).len() == 14);
        assert(ascii("Accept-Encoding"@).len() == 15);
        assert(ascii("Connection"@).len() == 10);
        assert(ascii("Content-Length"@).len() == 14);
        assert(ascii("Host"@).len() == 4);
        assert(ascii("Content-Type"@).len() == 12);
        assert(ascii("Accept-Charset"@)[0] == 0x41);
        assert(ascii("Content-Length"@)[0] == 0x43);
        lemma_put_fresh(f0, ascii("Accept-Charset"@), ascii("UTF-8"@));
        lemma_put_fresh(f1, ascii("Accept-Encoding"@), ascii("identity"@));
        lemma_put_fresh(f2, ascii("Connection"@), ascii("keep-alive"@));
        lemma_put_fresh(f3, ascii("Content-Length"@), decimal(body@.len()));
        lemma_put_fresh(f4, ascii("Host"@), host@);
    }
    let request = HttpRequest::new_bytes(Method::Post, uri, version)
        .header_bytes(literal("Accept-Charset"), literal("UTF-8"))
        .header_bytes(literal("Accept-Encoding"), literal("identity"))
        .header_bytes(literal("Connection"), literal("keep-alive"))
        .header_bytes(literal("Content-Length"), length)
        .header_bytes(literal("Host"), slice_to_vec(host));
    let request = match content_type {
        Some(ct) => {
            let mut value: Vec<u8> = slice_to_vec(ct);
            append_bytes(&mut value, ascii_bytes("; Charset=UTF-8"));
            proof {
                lemma_put_fresh(f5, ascii("Content-Type"@), value@);
            }
            request.header_bytes(literal("Content-Type"), value)
        },
        None => request,
    };
    let request = request.body(body);
    proof {
        assert(f5 =~= request_fields(host@, None, body@.len()));
        assert(request@.headers =~= request_fields(host@, opt_view(content_type), body@.len()));
    }
    Ok(request.to_bytes())
}

/// The bytes behind an optional slice.
pub open spec fn opt_view(s: Option<&[u8]>) -> Option<Seq<u8>> {
    match s {
        Some(t) => Some(t@),
        None => None,
    }
}

/// `res` is the outcome of framing a call: the bytes of its request where
/// the call can be framed, else the failure `InvalidRequest`.
pub open spec fn framed_as(
    res: Result<Vec<u8>, MisskeyConnectionError>,
    host: Seq<u8>,
    endpoint: Seq<u8>,
    content_type: Option<Seq<u8>>,
    body: Seq<u8>,
) -> bool {
    match res {
        Ok(bytes) => can_frame(endpoint, content_type) && bytes@ == post_request(
            host,
            endpoint,
            content_type,
            body,
        ).wire(),
        Err(e) => e matches MisskeyConnectionError::HttpError(h) && h == HttpError::InvalidRequest
            && !can_frame(endpoint, content_type),
    }
}

impl<T> MisskeyHttpClient<T> {
    /// The host to which the requests of this client are addressed.
    pub open spec fn host(&self) -> Seq<u8> {
        self@.host()
    }

    /// Frames `request` for this client: a POST to the call's path under
    /// `/api`, with the call's content type and with the body that the call
    /// gives for the client's token.
    ///
    /// Fails, with `InvalidRequest`, exactly where the path or the content
    /// type of the call holds a byte that would break the framing.
    pub fn gen_request<R: MisskeyClientRequest>(&self, request: &R) -> (res: Result<
        Vec<u8>,
        MisskeyConnectionError,
    >)
        ensures
            is_target(self.host()),
            exists|
                endpoint: String,
                content_type: Option<String>,
                token: Option<&str>,
                body: String,
            |
                {
                    &&& call_ensures(R::endpoint, (request,), endpoint)
                    &&& call_ensures(R::content_type, (request,), content_type)
                    &&& opt_text(token) == self@.token
                    &&& call_ensures(R::body, (request, token), body)
                    &&& framed_as(
                        res,
                        self.host(),
                        encode_utf8(endpoint@),
                        opt_bytes(opt_string_text(content_type)),
                        encode_utf8(body@),
                    )
                },
    {
        let token = match &self.access_token {
            Some(token) => Some(token.as_str()),
            None => None,
        };
        let body = request.body(token);
        let endpoint = request.endpoint();
        let content_type = request.content_type();
        let host = self.authority.host();
        proof {
            crate::authority::lemma_authority_is_visible(self.authority.bytes());
            assert(is_target(self.host())) by {
                assert forall|i: int| 0 <= i < self.host().len() implies is_visible(
                    #[trigger] self.host()[i],
                ) by {
                    assert(self.host()[i] == self.authority.bytes()[i]);
                }
            }
        }
        let framed = match &content_type {
            Some(ct) => encode_request(
                host,
                endpoint.as_str().as_bytes(),
                Some(ct.as_str().as_bytes()),
                body.as_str().as_bytes_vec(),
            ),
            None => encode_request(
                host,
                endpoint.as_str().as_bytes(),
                None,
                body.as_str().as_bytes_vec(),
            ),
        };
        let res = match framed {
            Ok(bytes) => Ok(bytes),
            Err(e) => Err(MisskeyConnectionError::HttpError(e)),
        };
        proof {
            assert(call_ensures(R::endpoint, (request,), endpoint));
            assert(call_ensures(R::content_type, (request,), content_type));
            assert(opt_text(token) == self@.token);
            assert(call_ensures(R::body, (request, token), body));
            assert(framed_as(
                res,
                self.host(),
                encode_utf8(endpoint@),
                opt_bytes(opt_string_text(content_type)),
                encode_utf8(body@),
            ));
        }
        res
    }

    /// Reads the head of a response, given the bytes up to and including its
    /// empty line, and says how many bytes of body follow.
    pub fn gen_header(&self, head: &[u8]) -> (res: Result<
        (ResponseHead, usize),
        MisskeyConnectionError,
    >)
        ensures
            match res {
                Ok((h, length)) => parse_head_spec(head@) == Ok::<HeadModel, HttpError>(h@)
                    && length == content_length(h@.headers),
                Err(e) => e matches MisskeyConnectionError::HttpError(h) && parse_head_spec(head@)
                    == Err::<HeadModel, HttpError>(h),
            },
    {
        match parse_head(head) {
            Ok(h) => {
                let length = h.content_length();
                Ok((h, length))
            },
            Err(e) => Err(MisskeyConnectionError::HttpError(e)),
        }
    }
}

/// The status of a response without content.
pub const NO_CONTENT: u16 = 204;

/// Decodes bytes as UTF-8 with `String::from_utf8`: it succeeds exactly on
/// valid UTF-8, and the string then holds the characters that the bytes
/// encode.
#[verifier::external_body]
fn string_from_utf8(bytes: Vec<u8>) -> (res: Result<String, std::string::FromUtf8Error>)
    ensures
        res is Ok <==> valid_utf8(bytes@),
        res matches Ok(s) ==> s@ == decode_utf8(bytes@),
{
    String::from_utf8(bytes)
}

/// Whether a decoding failed because the text ended before the value was
/// complete: what `serde_json::Error::is_eof` answers for the error. The
/// answer depends on the error alone.
pub uninterp spec fn ended_early(error: serde_json::Error) -> bool;

/// Asks `serde_json::Error::is_eof` whether a decoding failed because the
/// text ended too early. The answer is given a name, and nothing else is
/// claimed about it.
#[verifier::external_body]
fn json_error_is_eof(error: &serde_json::Error) -> (res: bool)
    ensures
        res == ended_early(*error),
{
    error.is_eof()
}

/// Reads the body of a response as text; fails where it is no UTF-8.
pub fn body_text(body: Vec<u8>) -> (res: Result<String, MisskeyConnectionError>)
    ensures
        match res {
            Ok(text) => valid_utf8(body@) && text@ == decode_utf8(body@),
            Err(e) => e is NotUtf8Error && !valid_utf8(body@),
        },
{
    match string_from_utf8(body) {
        Ok(text) => Ok(text),
        Err(e) => Err(MisskeyConnectionError::NotUtf8Error(e)),
    }
}

/// What a response amounts to once its body has been tried as the answer
/// that the call expects.
#[derive(Debug)]
pub enum Reconciled<R> {
    /// The call succeeded, with an answer or, where the call allows it,
    /// without content.
    Success(HttpResponse<Option<R>>),
    /// The body is not the expected answer. It has to be tried as the
    /// server's error report next.
    Refused {
        /// Why the body is not the expected answer.
        parent_error: serde_json::Error,
    },
}

/// The meaning of a response whose body decoded to `decoded`, where `eof`
/// says whether a failure was due to the text ending too early.
///
/// A decoded answer is a success. A failure is a success without content
/// where the text ended too early, the call allows an empty response and
/// the status is 204. Every other failure leaves the body to be tried as an
/// error report.
pub open spec fn reconcile_spec<R>(
    can_be_empty: bool,
    head: ResponseHead,
    decoded: Result<R, serde_json::Error>,
    eof: bool,
) -> Reconciled<R> {
    match decoded {
        Ok(answer) => Reconciled::Success(HttpResponse { head, body: Some(answer) }),
        Err(parent_error) => if eof && can_be_empty && head.status == NO_CONTENT {
            Reconciled::Success(HttpResponse { head, body: None })
        } else {
            Reconciled::Refused { parent_error }
        },
    }
}

/// Decides what a response means, given how its body decoded.
pub fn reconcile<R>(
    can_be_empty: bool,
    head: ResponseHead,
    decoded: Result<R, serde_json::Error>,
    eof: bool,
) -> (res: Reconciled<R>)
    ensures
        res == reconcile_spec(can_be_empty, head, decoded, eof),
{
    match decoded {
        Ok(answer) => Reconciled::Success(HttpResponse { head, body: Some(answer) }),
        Err(parent_error) => if eof && can_be_empty && head.status == NO_CONTENT {
            Reconciled::Success(HttpResponse { head, body: None })
        } else {
            Reconciled::Refused { parent_error }
        },
    }
}

/// The failure of a call whose body was not the expected answer, given how
/// the body decoded as an error report: the report where it is one, else
/// both decoding failures together with the body.
pub open spec fn failure_spec(
    parent_error: serde_json::Error,
    report: Result<ServerError, serde_json::Error>,
    raw_string: String,
) -> MisskeyConnectionError {
    match report {
        Ok(server_error) => MisskeyConnectionError::ServerResponseError(server_error),
        Err(error) => MisskeyConnectionError::SerdeError { parent_error, error, raw_string },
    }
}

/// Builds the failure of a call whose body was not the expected answer.
pub fn gen_failure(
    parent_error: serde_json::Error,
    report: Result<ServerError, serde_json::Error>,
    raw_string: String,
) -> (res: MisskeyConnectionError)
    ensures
        res == failure_spec(parent_error, report, raw_string),
{
    match report {
        Ok(server_error) => MisskeyConnectionError::ServerResponseError(server_error),
        Err(error) => MisskeyConnectionError::SerdeError { parent_error, error, raw_string },
    }
}

/// The empty-answer law. A response of status 204 whose body ended before
/// any value is a success without content on a call that allows an empty
/// answer. On a call that does not, it leaves the body to be tried as an
/// error report, and where the body is none either, the failure holds both
/// decoding errors and the body.
pub proof fn lemma_empty_answer<R>(
    head: ResponseHead,
    parent_error: serde_json::Error,
    error: serde_json::Error,
    raw_string: String,
)
    requires
        head.status == NO_CONTENT,
    ensures
        reconcile_spec::<R>(true, head, Err(parent_error), true) == Reconciled::<R>::Success(
            HttpResponse { head, body: None },
        ),
        reconcile_spec::<R>(false, head, Err(parent_error), true) == (Reconciled::<
            R,
        >::Refused { parent_error }),
        failure_spec(parent_error, Err(error), raw_string) == (
        MisskeyConnectionError::SerdeError { parent_error, error, raw_string }),
{
}

impl<T> MisskeyHttpClient<T> {
    /// Decides what the response to `request` means, given how its body
    /// decoded as the answer that the call expects.
    ///
    /// A decoded answer is a success. A failed decoding is a success without
    /// content where the text ended too early, the call allows an empty
    /// answer and the status is 204; every other failure leaves the body to
    /// be tried as an error report.
    pub fn gen_result<R: MisskeyClientRequest, A>(
        &self,
        request: &R,
        head: ResponseHead,
        decoded: Result<A, serde_json::Error>,
    ) -> (res: Reconciled<A>)
        ensures
            exists|can_be_empty: bool|
                call_ensures(R::can_be_empty, (request,), can_be_empty) && res == reconcile_spec(
                    can_be_empty,
                    head,
                    decoded,
                    decoded matches Err(e) && ended_early(e),
                ),
    {
        let can_be_empty = request.can_be_empty();
        let eof = match &decoded {
            Ok(_) => false,
            Err(e) => json_error_is_eof(e),
        };
        reconcile(can_be_empty, head, decoded, eof)
    }
}

/// The start line of a call's request holds no line feed.
proof fn lemma_request_line_is_plain(endpoint: Seq<u8>)
    requires
        is_target(endpoint),
    ensures
        no_line_feed(
            request_line(Method::Post, ascii("/api"@) + endpoint, ascii("HTTP/1.1"@)),
        ),
{
    reveal_strlit("/api");
    reveal_strlit("HTTP/1.1");
    reveal_strlit("POST");
    let method = ascii(Method::Post.text());
    let uri = ascii("/api"@) + endpoint;
    let version = ascii("HTTP/1.1"@);
    assert(no_line_feed(method));
    assert(no_line_feed(seq![SP]));
    assert(no_line_feed(ascii("/api"@)));
    assert(no_line_feed(endpoint)) by {
        assert forall|i: int| 0 <= i < endpoint.len() implies #[trigger] endpoint[i] != LF by {
            assert(is_visible(endpoint[i]));
        }
    }
    assert(no_line_feed(version));
    lemma_no_line_feed_concat(ascii("/api"@), endpoint);
    lemma_no_line_feed_concat(method, seq![SP]);
    lemma_no_line_feed_concat(method + seq![SP], uri);
    lemma_no_line_feed_concat(method + seq![SP] + uri, seq![SP]);
    lemma_no_line_feed_concat(method + seq![SP] + uri + seq![SP], version);
}

/// The headers of a call's request are framable, and a reader finds in them
/// the length of the body.
proof fn lemma_request_fields_are_plain(
    host: Seq<u8>,
    content_type: Option<Seq<u8>>,
    body_len: nat,
)
    requires
        is_target(host),
        content_type matches Some(ct) ==> is_field_value(ct),
        body_len <= usize::MAX,
    ensures
        framable(request_fields(host, content_type, body_len)),
        content_length(canonical(request_fields(host, content_type, body_len))) == body_len,
{
    reveal_strlit("Accept-Charset");
    reveal_strlit("UTF-8");
    reveal_strlit("Accept-Encoding");
    reveal_strlit("identity");
    reveal_strlit("Connection");
    reveal_strlit("keep-alive");
    reveal_strlit("Content-Length");
    reveal_strlit("Host");
    reveal_strlit("Content-Type");
    reveal_strlit("; Charset=UTF-8");
    reveal_strlit("content-length");
    let fields = request_fields(host, content_type, body_len);
    lemma_decimal_is_plain(body_len);
    assert(no_line_feed(host)) by {
        assert forall|i: int| 0 <= i < host.len() implies #[trigger] host[i] != LF by {
            assert(is_visible(host[i]));
        }
    }
    assert(is_field_name(ascii("Accept-Charset"@)));
    assert(is_field_name(ascii("Accept-Encoding"@)));
    assert(is_field_name(ascii("Connection"@)));
    assert(is_field_name(ascii("Content-Length"@)));
    assert(is_field_name(ascii("Host"@)));
    assert(is_field_name(ascii("Content-Type"@)));
    assert(no_line_feed(ascii("UTF-8"@)));
    assert(no_line_feed(ascii("identity"@)));
    assert(no_line_feed(ascii("keep-alive"@)));
    match content_type {
        Some(ct) => {
            assert(no_line_feed(ct)) by {
                assert forall|i: int| 0 <= i < ct.len() implies #[trigger] ct[i] != LF by {
                    assert(is_value_byte(ct[i]));
                }
            }
            assert(no_line_feed(ascii("; Charset=UTF-8"@)));
            lemma_no_line_feed_concat(ct, ascii("; Charset=UTF-8"@));
        },
        None => {},
    }
    assert(framable(fields)) by {
        assert forall|i: int| 0 <= i < fields.len() implies is_field_name((#[trigger] fields[i]).0)
            && no_line_feed(fields[i].1) by {
            if i == 0 {
            } else if i == 1 {
            } else if i == 2 {
            } else if i == 3 {
            } else if i == 4 {
            } else {
            }
        }
    }
    let name = content_length_name();
    let found = canonical(fields);
    let upto = found.take(4);
    assert(upto.last() == found[3]);
    assert(found[3].0 == lower(ascii("Content-Length"@)));
    assert(lower(ascii("Content-Length"@)) =~= ascii("content-length"@));
    assert(found[3].1 == decimal(body_len));
    lemma_parse_decimal(body_len as usize);
    assert(last_value(upto, name) == Some(decimal(body_len)));
    let with_host = found.take(5);
    assert(with_host.drop_last() =~= upto);
    assert(with_host.last() == found[4]);
    assert(found[4].0.len() == 4);
    assert(name.len() == 14);
    assert(last_value(with_host, name) == Some(decimal(body_len)));
    match content_type {
        Some(ct) => {
            assert(found.drop_last() =~= with_host);
            assert(found.last().0.len() == 12);
        },
        None => {
            assert(found =~= with_host);
        },
    }
}

/// The length law of requests. For every call that can be framed, a reader
/// of the bytes sent finds the end of the head just before the body, reads
/// in the head a content length equal to the length of the body, and so
/// takes exactly the body, whatever follows it.
pub proof fn lemma_request_framing(
    host: Seq<u8>,
    endpoint: Seq<u8>,
    content_type: Option<Seq<u8>>,
    body: Seq<u8>,
    more: Seq<u8>,
)
    requires
        is_target(host),
        can_frame(endpoint, content_type),
        body.len() <= usize::MAX,
    ensures
        ({
            let request = post_request(host, endpoint, content_type, body);
            let stream = request.wire() + more;
            let n = request.wire().len() - body.len();
            &&& head_end(stream) == Some(n)
            &&& content_length(fields_of(split(stream.take(n), LF).skip(1))) == body.len()
            &&& stream.subrange(n, n + body.len()) == body
        }),
{
    let request = post_request(host, endpoint, content_type, body);
    let start = request_line(request.method, request.uri, request.version);
    lemma_request_line_is_plain(endpoint);
    lemma_request_fields_are_plain(host, content_type, body.len());
    lemma_message_framing(start, request.headers, body, more);
    let stream = request.wire() + more;
    let head = head_of(start, request.headers);
    assert(request.wire() =~= head + body);
    let n = head.len() as int;
    assert(stream.subrange(n, n + body.len()) =~= body) by {
        assert(stream.skip(n) == body + more);
        assert forall|k: int| 0 <= k < body.len() implies stream.subrange(n, n + body.len())[k]
            == body[k] by {
            assert(stream.skip(n)[k] == stream[n + k]);
            assert((body + more)[k] == body[k]);
        }
    }
}

/// The round trip of a call's body: the peer that reads the request finds
/// the body that was sent, and the client that reads the peer's echo of it
/// finds that body again, byte for byte.
pub proof fn lemma_body_round_trip(
    host: Seq<u8>,
    endpoint: Seq<u8>,
    content_type: Option<Seq<u8>>,
    body: Seq<u8>,
)
    requires
        is_target(host),
        can_frame(endpoint, content_type),
        body.len() <= usize::MAX,
    ensures
        ({
            let sent = post_request(host, endpoint, content_type, body).wire();
            let n = head_end(sent)->0;
            let announced = content_length(fields_of(split(sent.take(n), LF).skip(1)));
            let seen_by_peer = sent.subrange(n, n + announced);
            &&& head_end(sent) is Some
            &&& seen_by_peer == body
            &&& decode(echo_response(seen_by_peer)) matches Decoded::Complete(response)
            &&& response.head.status == 200
            &&& response.body == body
        }),
{
    let empty = Seq::<u8>::empty();
    lemma_request_framing(host, endpoint, content_type, body, empty);
    let sent = post_request(host, endpoint, content_type, body).wire();
    assert(sent + empty =~= sent);
    lemma_echo_round_trip(body, empty);
    assert(echo_response(body) + empty =~= echo_response(body));
}

} // verus!
