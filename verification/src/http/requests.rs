//! Logical HTTP requests and their wire form.

use crate::text::{append_bytes, ascii, ascii_bytes, bytes_eq, COLON, CR, LF, SP};
use vstd::prelude::*;
use vstd::string::*;

verus! {

/// The request methods this client can frame.
#[derive(Clone, Copy, Debug, PartialEq, Eq, Structural)]
pub enum Method {
    Delete,
    Get,
    Head,
    Post,
    Put,
    Trace,
}

impl Method {
    /// The method's token as it appears on the request line.
    pub open spec fn text(self) -> Seq<char> {
        match self {
            Method::Delete => "DELETE"@,
            Method::Get => "GET"@,
            Method::Head => "HEAD"@,
            Method::Post => "POST"@,
            Method::Put => "PUT"@,
            Method::Trace => "TRACE"@,
        }
    }

    /// Returns the method's token.
    pub fn as_str(&self) -> (res: &'static str)
        ensures
            res@ == self.text(),
    {
        match self {
            Method::Delete => "DELETE",
            Method::Get => "GET",
            Method::Head => "HEAD",
            Method::Post => "POST",
            Method::Put => "PUT",
            Method::Trace => "TRACE",
        }
    }

    /// Method tokens are capital ASCII letters: they hold no space, colon or
    /// line break.
    pub proof fn lemma_text_is_plain(self)
        ensures
            vstd::utf8::is_ascii_chars(self.text()),
            self.text().len() >= 3,
            forall|i: int|
                0 <= i < self.text().len() ==> 0x41 <= #[trigger] ascii(self.text())[i] <= 0x5a,
    {
        reveal_strlit("DELETE");
        reveal_strlit("GET");
        reveal_strlit("HEAD");
        reveal_strlit("POST");
        reveal_strlit("PUT");
        reveal_strlit("TRACE");
    }
}

/// One header line of a message: a name and a value, both as raw bytes.
#[derive(Debug)]
pub struct HeaderField {
    pub name: Vec<u8>,
    pub value: Vec<u8>,
}

/// The header list as a mathematical sequence of name and value pairs.
pub open spec fn pairs(fields: Seq<HeaderField>) -> Seq<(Seq<u8>, Seq<u8>)> {
    Seq::new(fields.len(), |i: int| (fields[i].name@, fields[i].value@))
}

/// Some field of the list carries `name`.
pub open spec fn has_name(fields: Seq<(Seq<u8>, Seq<u8>)>, name: Seq<u8>) -> bool {
    exists|i: int| 0 <= i < fields.len() && (#[trigger] fields[i]).0 == name
}

/// No two fields of the list carry the same name.
pub open spec fn distinct_names(fields: Seq<(Seq<u8>, Seq<u8>)>) -> bool {
    forall|i: int, j: int|
        0 <= i < j < fields.len() ==> (#[trigger] fields[i]).0 != (#[trigger] fields[j]).0
}

/// The list after setting `name` to `value`: the field that carries `name`
/// keeps its place and takes the new value; a new name goes to the end.
pub open spec fn put(fields: Seq<(Seq<u8>, Seq<u8>)>, name: Seq<u8>, value: Seq<u8>) -> Seq<
    (Seq<u8>, Seq<u8>),
> {
    if has_name(fields, name) {
        Seq::new(
            fields.len(),
            |i: int|
                if fields[i].0 == name {
                    (name, value)
                } else {
                    fields[i]
                },
        )
    } else {
        fields.push((name, value))
    }
}

/// One header on the wire: `Name: Value` and a line break.
pub open spec fn field_line(field: (Seq<u8>, Seq<u8>)) -> Seq<u8> {
    field.0 + seq![COLON, SP] + field.1 + seq![CR, LF]
}

/// The header lines in list order.
pub open spec fn header_block(fields: Seq<(Seq<u8>, Seq<u8>)>) -> Seq<u8>
    decreases fields.len(),
{
    if fields.len() == 0 {
        Seq::empty()
    } else {
        header_block(fields.drop_last()) + field_line(fields.last())
    }
}

/// A whole message on the wire: the start line, the header lines, an empty
/// line, and the body as it is.
pub open spec fn message(
    start_line: Seq<u8>,
    fields: Seq<(Seq<u8>, Seq<u8>)>,
    body: Seq<u8>,
) -> Seq<u8> {
    start_line + seq![CR, LF] + header_block(fields) + seq![CR, LF] + body
}

/// The start line of a request: method, target and version with one space
/// between neighbours.
pub open spec fn request_line(method: Method, uri: Seq<u8>, version: Seq<u8>) -> Seq<u8> {
    ascii(method.text()) + seq![SP] + uri + seq![SP] + version
}

/// What a request says, apart from how it is stored.
pub struct RequestModel {
    pub method: Method,
    pub uri: Seq<u8>,
    pub version: Seq<u8>,
    pub headers: Seq<(Seq<u8>, Seq<u8>)>,
    pub body: Seq<u8>,
}

impl RequestModel {
    /// The bytes that go to the peer for this request.
    pub open spec fn wire(self) -> Seq<u8> {
        message(request_line(self.method, self.uri, self.version), self.headers, self.body)
    }
}

/// A request under construction. Its headers form a map from name to value
/// that remembers the order in which the names first came.
#[derive(Debug)]
pub struct HttpRequest {
    version: Vec<u8>,
    uri: Vec<u8>,
    method: Method,
    headers: Vec<HeaderField>,
    body: Vec<u8>,
}

impl View for HttpRequest {
    type V = RequestModel;

    closed spec fn view(&self) -> RequestModel {
        RequestModel {
            method: self.method,
            uri: self.uri@,
            version: self.version@,
            headers: pairs(self.headers@),
            body: self.body@,
        }
    }
}

impl HttpRequest {
    #[verifier::type_invariant]
    spec fn names_are_distinct(&self) -> bool {
        distinct_names(pairs(self.headers@))
    }

    /// A request without headers and without a body.
    pub fn new(method: Method, uri: &str, version: &str) -> (res: Self)
        ensures
            res@ == (RequestModel {
                method,
                uri: uri.spec_bytes(),
                version: version.spec_bytes(),
                headers: Seq::empty(),
                body: Seq::empty(),
            }),
            distinct_names(res@.headers),
    {
        let res = HttpRequest {
            version: version.as_bytes_vec(),
            uri: uri.as_bytes_vec(),
            method,
            headers: Vec::new(),
            body: Vec::new(),
        };
        assert(pairs(res.headers@) =~= Seq::empty());
        res
    }

    /// A request without headers and without a body, its target and version
    /// given as raw bytes.
    pub fn new_bytes(method: Method, uri: Vec<u8>, version: Vec<u8>) -> (res: Self)
        ensures
            res@ == (RequestModel {
                method,
                uri: uri@,
                version: version@,
                headers: Seq::empty(),
                body: Seq::empty(),
            }),
            distinct_names(res@.headers),
    {
        let res = HttpRequest { version, uri, method, headers: Vec::new(), body: Vec::new() };
        assert(pairs(res.headers@) =~= Seq::empty());
        res
    }

    /// Sets the header `key` to `value`.
    pub fn header(self, key: &str, value: &str) -> (res: Self)
        ensures
            res@ == (RequestModel {
                headers: put(self@.headers, key.spec_bytes(), value.spec_bytes()),
                ..self@
            }),
            distinct_names(res@.headers),
    {
        self.header_bytes(key.as_bytes_vec(), value.as_bytes_vec())
    }

    /// Sets the header `name` to `value`, both given as raw bytes.
    #[verifier::loop_isolation(false)]
    pub fn header_bytes(self, name: Vec<u8>, value: Vec<u8>) -> (res: Self)
        ensures
            res@ == (RequestModel { headers: put(self@.headers, name@, value@), ..self@ }),
            distinct_names(res@.headers),
    {
        proof {
            use_type_invariant(&self);
        }
        let ghost before = pairs(self.headers@);
        let HttpRequest { version, uri, method, mut headers, body } = self;
        let mut i: usize = 0;
        while i < headers.len()
            invariant
                0 <= i <= headers@.len(),
                pairs(headers@) == before,
                forall|k: int| 0 <= k < i ==> (#[trigger] before[k]).0 != name@,
            decreases headers@.len() - i,
        {
            if bytes_eq(headers[i].name.as_slice(), name.as_slice()) {
                assert(before[i as int].0 == name@);
                let ghost name_seq = name@;
                let ghost value_seq = value@;
                headers.set(i, HeaderField { name, value });
                proof {
                    let after = pairs(headers@);
                    assert(after =~= put(before, name_seq, value_seq)) by {
                        assert forall|k: int| 0 <= k < before.len() implies #[trigger] after[k]
                            == put(before, name_seq, value_seq)[k] by {
                            if k != i {
                                assert(before[k].0 != before[i as int].0);
                            }
                        }
                    }
                    lemma_put_keeps_distinct(before, name_seq, value_seq);
                }
                return HttpRequest { version, uri, method, headers, body };
            }
            i += 1;
        }
        let ghost name_seq = name@;
        let ghost value_seq = value@;
        headers.push(HeaderField { name, value });
        proof {
            assert(!has_name(before, name_seq));
            assert(pairs(headers@) =~= put(before, name_seq, value_seq));
            lemma_put_keeps_distinct(before, name_seq, value_seq);
        }
        HttpRequest { version, uri, method, headers, body }
    }

    /// Replaces the body.
    pub fn body(self, body: Vec<u8>) -> (res: Self)
        ensures
            res@ == (RequestModel { body: body@, ..self@ }),
            distinct_names(res@.headers),
    {
        proof {
            use_type_invariant(&self);
        }
        let HttpRequest { version, uri, method, headers, body: _ } = self;
        HttpRequest { version, uri, method, headers, body }
    }

    /// Returns the bytes that go to the peer.
    pub fn to_bytes(&self) -> (res: Vec<u8>)
        ensures
            res@ == self@.wire(),
            distinct_names(self@.headers),
    {
        proof {
            use_type_invariant(self);
            self.method.lemma_text_is_plain();
        }
        let mut out: Vec<u8> = Vec::new();
        append_bytes(&mut out, ascii_bytes(self.method.as_str()));
        out.push(SP);
        append_bytes(&mut out, self.uri.as_slice());
        out.push(SP);
        append_bytes(&mut out, self.version.as_slice());
        out.push(CR);
        out.push(LF);
        assert(out@ =~= request_line(self.method, self.uri@, self.version@) + seq![CR, LF]);
        let ghost start = out@;
        let ghost all = pairs(self.headers@);
        let mut i: usize = 0;
        while i < self.headers.len()
            invariant
                0 <= i <= self.headers@.len(),
                all == pairs(self.headers@),
                out@ == start + header_block(all.take(i as int)),
            decreases self.headers@.len() - i,
        {
            let ghost before = out@;
            append_bytes(&mut out, self.headers[i].name.as_slice());
            out.push(COLON);
            out.push(SP);
            append_bytes(&mut out, self.headers[i].value.as_slice());
            out.push(CR);
            out.push(LF);
            proof {
                assert(out@ =~= before + field_line(all[i as int]));
                assert(all.take(i + 1).drop_last() =~= all.take(i as int));
                assert(all.take(i + 1).last() == all[i as int]);
                let block = header_block(all.take(i as int));
                assert(start + block + field_line(all[i as int]) =~= start + (block + field_line(
                    all[i as int],
                )));
            }
            i += 1;
        }
        assert(all.take(all.len() as int) =~= all);
        out.push(CR);
        out.push(LF);
        append_bytes(&mut out, self.body.as_slice());
        assert(out@ =~= self@.wire());
        out
    }
}

/// Setting a name that the list does not hold yet appends a field.
pub proof fn lemma_put_fresh(fields: Seq<(Seq<u8>, Seq<u8>)>, name: Seq<u8>, value: Seq<u8>)
    requires
        forall|i: int| 0 <= i < fields.len() ==> (#[trigger] fields[i]).0 != name,
    ensures
        put(fields, name, value) == fields.push((name, value)),
{
}

/// Setting a header keeps the names pairwise different.
pub proof fn lemma_put_keeps_distinct(
    fields: Seq<(Seq<u8>, Seq<u8>)>,
    name: Seq<u8>,
    value: Seq<u8>,
)
    requires
        distinct_names(fields),
    ensures
        distinct_names(put(fields, name, value)),
        has_name(put(fields, name, value), name),
{
    let after = put(fields, name, value);
    if has_name(fields, name) {
        let w = choose|i: int| 0 <= i < fields.len() && (#[trigger] fields[i]).0 == name;
        assert(after[w].0 == name);
        assert forall|i: int, j: int| 0 <= i < j < after.len() implies (#[trigger] after[i]).0 != (
        #[trigger] after[j]).0 by {
            assert(after[i].0 == fields[i].0);
            assert(after[j].0 == fields[j].0);
        }
    } else {
        assert(after[fields.len() as int].0 == name);
        assert forall|i: int, j: int| 0 <= i < j < after.len() implies (#[trigger] after[i]).0 != (
        #[trigger] after[j]).0 by {
            if j < fields.len() {
                assert(after[i] == fields[i]);
                assert(after[j] == fields[j]);
            } else {
                assert(after[i] == fields[i]);
            }
        }
    }
}

} // verus!
