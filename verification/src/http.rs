//! A minimal HTTP/1.1 wire codec over plain byte sequences: what a response
//! head says, and how a response is cut out of the bytes a peer sends.

use crate::http::requests::{pairs, HeaderField};
use crate::text::{
    ascii, ascii_bytes, bytes_eq, copy_range, find_byte, index_of, is_digit, join, join_bytes,
    lower, lower_bytes, parse_usize, parse_usize_spec, split, split_bytes, trim, trim_bytes,
    views, COLON, LF, SP, ZERO,
};
use vstd::prelude::*;
use vstd::slice::slice_subrange;

pub mod framing;
pub mod reader;
pub mod requests;

verus! {

/// Why the bytes of a peer are no HTTP response, or a call no request.
#[derive(Clone, Copy, Debug, PartialEq, Eq, Structural)]
pub enum HttpError {
    /// The status line holds no status code after the version.
    MalformedStatusLine,
    /// The version of the status line is none that this client reads.
    UnsupportedVersion,
    /// The status code is not a number from 100 to 999 in three digits.
    InvalidStatusCode,
    /// A request target or header value would break the framing of a request.
    InvalidRequest,
    /// The peer stopped sending before the response was complete.
    UnexpectedEnd,
}

impl HttpError {
    /// What went wrong, in words.
    pub fn message(&self) -> (res: &'static str)
        ensures
            res@ == self.text(),
    {
        match self {
            HttpError::MalformedStatusLine => "The status line is malformed.",
            HttpError::UnsupportedVersion => "The HTTP version is not supported.",
            HttpError::InvalidStatusCode => "The status code is invalid.",
            HttpError::InvalidRequest => "The request cannot be framed.",
            HttpError::UnexpectedEnd => "The response ended before it was complete.",
        }
    }

    pub open spec fn text(self) -> Seq<char> {
        match self {
            HttpError::MalformedStatusLine => "The status line is malformed."@,
            HttpError::UnsupportedVersion => "The HTTP version is not supported."@,
            HttpError::InvalidStatusCode => "The status code is invalid."@,
            HttpError::InvalidRequest => "The request cannot be framed."@,
            HttpError::UnexpectedEnd => "The response ended before it was complete."@,
        }
    }
}

/// The protocol versions whose status line this client reads.
#[derive(Clone, Copy, Debug, PartialEq, Eq, Structural)]
pub enum HttpVersion {
    Http09,
    Http10,
    Http11,
    Http2,
    Http3,
}

impl HttpVersion {
    /// The version's token on a start line.
    pub open spec fn text(self) -> Seq<char> {
        match self {
            HttpVersion::Http09 => "HTTP/0.9"@,
            HttpVersion::Http10 => "HTTP/1.0"@,
            HttpVersion::Http11 => "HTTP/1.1"@,
            HttpVersion::Http2 => "HTTP/2"@,
            HttpVersion::Http3 => "HTTP/3"@,
        }
    }

    /// Returns the version's token.
    pub fn as_str(&self) -> (res: &'static str)
        ensures
            res@ == self.text(),
    {
        match self {
            HttpVersion::Http09 => "HTTP/0.9",
            HttpVersion::Http10 => "HTTP/1.0",
            HttpVersion::Http11 => "HTTP/1.1",
            HttpVersion::Http2 => "HTTP/2",
            HttpVersion::Http3 => "HTTP/3",
        }
    }

    /// Reading the token of a version gives the version back.
    pub proof fn lemma_token_round_trip(self)
        ensures
            version_of(ascii(self.text())) == Some(self),
    {
        reveal_strlit("HTTP/0.9");
        reveal_strlit("HTTP/1.0");
        reveal_strlit("HTTP/1.1");
        reveal_strlit("HTTP/2");
        reveal_strlit("HTTP/3");
        assert(ascii("HTTP/0.9"@)[5] == 0x30);
        assert(ascii("HTTP/1.0"@)[5] == 0x31);
        assert(ascii("HTTP/1.0"@)[7] == 0x30);
        assert(ascii("HTTP/1.1"@)[7] == 0x31);
        assert(ascii("HTTP/2"@)[5] == 0x32);
        assert(ascii("HTTP/3"@)[5] == 0x33);
        assert(ascii("HTTP/1.1"@).len() == 8);
        assert(ascii("HTTP/2"@).len() == 6);
    }
}

/// The version that a token of the status line names, if it names one.
pub open spec fn version_of(token: Seq<u8>) -> Option<HttpVersion> {
    if token == ascii("HTTP/0.9"@) {
        Some(HttpVersion::Http09)
    } else if token == ascii("HTTP/1.0"@) {
        Some(HttpVersion::Http10)
    } else if token == ascii("HTTP/1.1"@) {
        Some(HttpVersion::Http11)
    } else if token == ascii("HTTP/2"@) {
        Some(HttpVersion::Http2)
    } else if token == ascii("HTTP/3"@) {
        Some(HttpVersion::Http3)
    } else {
        None
    }
}

/// The status code that a token names: exactly three digits, the first of
/// them not zero.
pub open spec fn status_of(token: Seq<u8>) -> Option<u16> {
    if token.len() == 3 && is_digit(token[0]) && token[0] != ZERO && is_digit(token[1])
        && is_digit(token[2]) {
        Some(((token[0] - 0x30) * 100 + (token[1] - 0x30) * 10 + (token[2] - 0x30)) as u16)
    } else {
        None
    }
}

/// The name under which the length of the body is looked up.
pub open spec fn content_length_name() -> Seq<u8> {
    ascii("content-length"@)
}

/// The field that a header line holds. The line is cut at its first colon:
/// what stands before is the name, trimmed and in lower case, what stands
/// after is the value, trimmed. A line without a colon is a name alone.
pub open spec fn field_of(line: Seq<u8>) -> (Seq<u8>, Seq<u8>) {
    let i = index_of(line, COLON);
    if 0 <= i < line.len() {
        (lower(trim(line.take(i))), trim(line.skip(i + 1)))
    } else {
        (lower(trim(line)), Seq::empty())
    }
}

/// The fields of the header lines, in order. Lines that are blank once
/// trimmed hold no field.
pub open spec fn fields_of(lines: Seq<Seq<u8>>) -> Seq<(Seq<u8>, Seq<u8>)>
    decreases lines.len(),
{
    if lines.len() == 0 {
        Seq::empty()
    } else {
        let front = fields_of(lines.drop_last());
        let line = trim(lines.last());
        if line.len() == 0 {
            front
        } else {
            front.push(field_of(line))
        }
    }
}

/// The value of the last field that carries `name`, if there is one.
pub open spec fn last_value(fields: Seq<(Seq<u8>, Seq<u8>)>, name: Seq<u8>) -> Option<Seq<u8>>
    decreases fields.len(),
{
    if fields.len() == 0 {
        None
    } else if fields.last().0 == name {
        Some(fields.last().1)
    } else {
        last_value(fields.drop_last(), name)
    }
}

/// The number of body bytes that the fields announce: the value of the last
/// `content-length` field where that is a numeral, zero where it is not or
/// where no such field exists.
pub open spec fn content_length(fields: Seq<(Seq<u8>, Seq<u8>)>) -> usize {
    match last_value(fields, content_length_name()) {
        Some(value) => match parse_usize_spec(value) {
            Some(n) => n,
            None => 0,
        },
        None => 0,
    }
}

/// What a response head says.
pub struct HeadModel {
    pub version: HttpVersion,
    pub status: u16,
    pub reason: Seq<u8>,
    pub headers: Seq<(Seq<u8>, Seq<u8>)>,
}

/// What a trimmed status line says: version, status code and reason phrase.
///
/// The line is cut at every space: its first piece names the version, its
/// second the status code, and the pieces after that, put together again with
/// single spaces, are the reason phrase.
pub open spec fn parse_status_line(line: Seq<u8>) -> Result<
    (HttpVersion, u16, Seq<u8>),
    HttpError,
> {
    let tokens = split(line, SP);
    if tokens.len() < 2 {
        Err(HttpError::MalformedStatusLine)
    } else {
        match version_of(tokens[0]) {
            None => Err(HttpError::UnsupportedVersion),
            Some(version) => match status_of(tokens[1]) {
                None => Err(HttpError::InvalidStatusCode),
                Some(status) => Ok((version, status, join(tokens.skip(2), seq![SP]))),
            },
        }
    }
}

/// The head that the bytes up to and including the empty line spell out.
///
/// The bytes are cut into lines at every line feed. The first line, trimmed,
/// is the status line; all other lines are header lines.
pub open spec fn parse_head_spec(head: Seq<u8>) -> Result<HeadModel, HttpError> {
    let lines = split(head, LF);
    match parse_status_line(trim(lines[0])) {
        Err(e) => Err(e),
        Ok((version, status, reason)) => Ok(
            HeadModel { version, status, reason, headers: fields_of(lines.skip(1)) },
        ),
    }
}

/// The head of a response: status line and header fields. Header names are
/// in lower case and trimmed, values are trimmed.
#[derive(Debug)]
pub struct ResponseHead {
    pub version: HttpVersion,
    pub status: u16,
    pub reason: Vec<u8>,
    pub headers: Vec<HeaderField>,
}

impl View for ResponseHead {
    type V = HeadModel;

    open spec fn view(&self) -> HeadModel {
        HeadModel {
            version: self.version,
            status: self.status,
            reason: self.reason@,
            headers: pairs(self.headers@),
        }
    }
}

impl ResponseHead {
    /// Returns the value of the last field named `name`, which is compared
    /// as it stands: give it in lower case.
    pub fn header(&self, name: &[u8]) -> (res: Option<&Vec<u8>>)
        ensures
            match res {
                Some(value) => last_value(self@.headers, name@) == Some(value@),
                None => last_value(self@.headers, name@) is None,
            },
    {
        let ghost all = pairs(self.headers@);
        let mut i: usize = self.headers.len();
        proof {
            assert(all.take(all.len() as int) =~= all);
        }
        while i > 0
            invariant
                0 <= i <= self.headers@.len(),
                all == pairs(self.headers@),
                last_value(all, name@) == last_value(all.take(i as int), name@),
            decreases i,
        {
            i -= 1;
            let ghost upto = all.take(i + 1);
            proof {
                assert(upto.last() == all[i as int]);
                assert(upto.drop_last() =~= all.take(i as int));
            }
            if bytes_eq(self.headers[i].name.as_slice(), name) {
                return Some(&self.headers[i].value);
            }
        }
        proof {
            assert(all.take(0).len() == 0);
        }
        None
    }

    /// Returns the number of body bytes that the head announces.
    pub fn content_length(&self) -> (res: usize)
        ensures
            res == content_length(self@.headers),
    {
        proof {
            reveal_strlit("content-length");
        }
        match self.header(ascii_bytes("content-length")) {
            Some(value) => match parse_usize(value.as_slice()) {
                Some(n) => n,
                None => 0,
            },
            None => 0,
        }
    }
}

/// A response: its head and its body.
#[derive(Debug)]
pub struct HttpResponse<B> {
    pub head: ResponseHead,
    pub body: B,
}

/// Reads the version token of a status line.
pub fn read_version(token: &[u8]) -> (res: Option<HttpVersion>)
    ensures
        res == version_of(token@),
{
    proof {
        reveal_strlit("HTTP/0.9");
        reveal_strlit("HTTP/1.0");
        reveal_strlit("HTTP/1.1");
        reveal_strlit("HTTP/2");
        reveal_strlit("HTTP/3");
    }
    if bytes_eq(token, ascii_bytes("HTTP/0.9")) {
        Some(HttpVersion::Http09)
    } else if bytes_eq(token, ascii_bytes("HTTP/1.0")) {
        Some(HttpVersion::Http10)
    } else if bytes_eq(token, ascii_bytes("HTTP/1.1")) {
        Some(HttpVersion::Http11)
    } else if bytes_eq(token, ascii_bytes("HTTP/2")) {
        Some(HttpVersion::Http2)
    } else if bytes_eq(token, ascii_bytes("HTTP/3")) {
        Some(HttpVersion::Http3)
    } else {
        None
    }
}

/// Reads the status code token of a status line.
pub fn read_status(token: &[u8]) -> (res: Option<u16>)
    ensures
        res == status_of(token@),
        res matches Some(code) ==> 100 <= code <= 999,
{
    if token.len() != 3 {
        return None;
    }
    let a: u8 = token[0];
    let b: u8 = token[1];
    let c: u8 = token[2];
    if 0x31 <= a && a <= 0x39 && 0x30 <= b && b <= 0x39 && 0x30 <= c && c <= 0x39 {
        let hundreds: u16 = (a - 0x30) as u16;
        let tens: u16 = (b - 0x30) as u16;
        let ones: u16 = (c - 0x30) as u16;
        Some(hundreds * 100 + tens * 10 + ones)
    } else {
        None
    }
}

/// Reads one trimmed, non-blank header line.
pub fn read_field(line: &[u8]) -> (res: HeaderField)
    ensures
        (res.name@, res.value@) == field_of(line@),
{
    let colon: usize = find_byte(line, 0, COLON);
    proof {
        assert(line@.skip(0) =~= line@);
    }
    if colon < line.len() {
        let name = lower_bytes(trim_bytes(slice_subrange(line, 0, colon)).as_slice());
        let value = trim_bytes(slice_subrange(line, colon + 1, line.len()));
        proof {
            assert(line@.subrange(0, colon as int) =~= line@.take(colon as int));
            assert(line@.subrange(colon + 1, line@.len() as int) =~= line@.skip(colon + 1));
        }
        HeaderField { name, value }
    } else {
        let name = lower_bytes(trim_bytes(line).as_slice());
        HeaderField { name, value: Vec::new() }
    }
}

/// Reads the header lines that follow the status line.
fn read_fields(lines: &Vec<Vec<u8>>) -> (res: Vec<HeaderField>)
    requires
        lines@.len() >= 1,
    ensures
        pairs(res@) == fields_of(views(lines@).skip(1)),
{
    let mut out: Vec<HeaderField> = Vec::new();
    let ghost rest = views(lines@).skip(1);
    let mut i: usize = 1;
    proof {
        assert(rest.take(0).len() == 0);
        assert(pairs(out@) =~= Seq::empty());
    }
    while i < lines.len()
        invariant
            1 <= i <= lines@.len(),
            rest == views(lines@).skip(1),
            pairs(out@) == fields_of(rest.take(i - 1)),
        decreases lines@.len() - i,
    {
        let line = trim_bytes(lines[i].as_slice());
        let ghost upto = rest.take(i as int);
        let ghost before = pairs(out@);
        proof {
            assert(upto.last() == lines@[i as int]@);
            assert(upto.drop_last() =~= rest.take(i - 1));
        }
        if line.len() > 0 {
            let field = read_field(line.as_slice());
            out.push(field);
            proof {
                assert(pairs(out@) =~= before.push(field_of(line@)));
            }
        }
        i += 1;
    }
    proof {
        assert(rest.take(rest.len() as int) =~= rest);
    }
    out
}

/// Reads a response head from the bytes up to and including its empty line.
pub fn parse_head(head: &[u8]) -> (res: Result<ResponseHead, HttpError>)
    ensures
        match res {
            Ok(h) => parse_head_spec(head@) == Ok::<HeadModel, HttpError>(h@),
            Err(e) => parse_head_spec(head@) == Err::<HeadModel, HttpError>(e),
        },
{
    let lines = split_bytes(head, LF);
    proof {
        crate::text::lemma_join_split(head@, LF);
    }
    let first = trim_bytes(lines[0].as_slice());
    let tokens = split_bytes(first.as_slice(), SP);
    if tokens.len() < 2 {
        return Err(HttpError::MalformedStatusLine);
    }
    let version = match read_version(tokens[0].as_slice()) {
        Some(v) => v,
        None => {
            return Err(HttpError::UnsupportedVersion);
        },
    };
    let status = match read_status(tokens[1].as_slice()) {
        Some(s) => s,
        None => {
            return Err(HttpError::InvalidStatusCode);
        },
    };
    let mut rest: Vec<Vec<u8>> = Vec::new();
    let mut i: usize = 2;
    proof {
        assert(views(rest@) =~= views(tokens@).skip(2).take(0));
    }
    while i < tokens.len()
        invariant
            2 <= i <= tokens@.len(),
            views(rest@) == views(tokens@).skip(2).take(i - 2),
        decreases tokens@.len() - i,
    {
        let piece = copy_range(tokens[i].as_slice(), 0, tokens[i].len());
        let ghost before = views(rest@);
        rest.push(piece);
        proof {
            assert(piece@ =~= tokens@[i as int]@);
            assert(views(rest@) =~= before.push(piece@));
            assert(views(rest@) =~= views(tokens@).skip(2).take(i - 1));
        }
        i += 1;
    }
    proof {
        let all = views(tokens@).skip(2);
        assert(all.take(all.len() as int) =~= all);
    }
    let space: [u8; 1] = [SP];
    assert(space@ =~= seq![SP]);
    let reason = join_bytes(&rest, space.as_slice());
    let headers = read_fields(&lines);
    Ok(ResponseHead { version, status, reason, headers })
}

} // verus!
