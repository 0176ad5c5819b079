//! Cutting a response out of a stream that arrives in pieces.
//!
//! The reader performs no input itself. Whoever owns the connection asks it
//! what is wanted, reads, and feeds what came; the reader keeps every byte,
//! so that nothing read beyond the head is lost to the body.

use crate::http::{
    content_length, parse_head, parse_head_spec, HeadModel, HttpError, HttpResponse, ResponseHead,
};
use crate::text::{copy_range, CR, LF};
use vstd::prelude::*;
use vstd::slice::slice_subrange;

verus! {

/// The first `n` bytes of `s` end with the empty line that closes a head.
pub open spec fn ends_head(s: Seq<u8>, n: int) -> bool {
    4 <= n <= s.len() && s[n - 4] == CR && s[n - 3] == LF && s[n - 2] == CR && s[n - 1] == LF
}

/// The head of the message in `s` is `n` bytes long: no shorter prefix ends
/// with the empty line.
pub open spec fn is_head_len(s: Seq<u8>, n: int) -> bool {
    ends_head(s, n) && forall|m: int| m < n ==> !ends_head(s, m)
}

/// The length of the head of the message in `s`, once `s` holds all of it.
pub open spec fn head_end(s: Seq<u8>) -> Option<int> {
    if exists|n: int| is_head_len(s, n) {
        Some(choose|n: int| is_head_len(s, n))
    } else {
        None
    }
}

/// A response as a mathematical value.
pub struct ResponseModel {
    pub head: HeadModel,
    pub body: Seq<u8>,
}

/// What the bytes received so far amount to.
pub enum Decoded {
    /// More bytes are needed.
    Incomplete,
    /// The head is complete and is no response head.
    Failed(HttpError),
    /// The head and all of the body have arrived.
    Complete(ResponseModel),
}

/// What has to be read next.
#[derive(Clone, Copy, Debug, PartialEq, Eq, Structural)]
pub enum Wanted {
    /// The head is not complete: read on, best one byte at a time.
    Head,
    /// The head is complete: read exactly this many bytes of body.
    Body(usize),
    /// Nothing: the response is complete, or the head was refused.
    Nothing,
}

/// The response in `s`: the head ends with the first empty line, and the body
/// is made of as many of the bytes after it as the head announces.
pub open spec fn decode(s: Seq<u8>) -> Decoded {
    match head_end(s) {
        None => Decoded::Incomplete,
        Some(n) => match parse_head_spec(s.take(n)) {
            Err(e) => Decoded::Failed(e),
            Ok(head) => {
                let need = content_length(head.headers);
                if s.len() - n < need {
                    Decoded::Incomplete
                } else {
                    Decoded::Complete(ResponseModel { head, body: s.subrange(n, n + need) })
                }
            },
        },
    }
}

/// What is to be read after `s`.
pub open spec fn wanted(s: Seq<u8>) -> Wanted {
    match head_end(s) {
        None => Wanted::Head,
        Some(n) => match parse_head_spec(s.take(n)) {
            Err(e) => Wanted::Nothing,
            Ok(head) => {
                let need = content_length(head.headers);
                if s.len() - n < need {
                    Wanted::Body((need - (s.len() - n)) as usize)
                } else {
                    Wanted::Nothing
                }
            },
        },
    }
}

/// A head length that was found is the head length.
pub proof fn lemma_head_end_found(s: Seq<u8>, n: int)
    requires
        is_head_len(s, n),
    ensures
        head_end(s) == Some(n),
{
    let m = choose|m: int| is_head_len(s, m);
    if m < n {
        assert(!ends_head(s, m));
    } else if n < m {
        assert(!ends_head(s, n));
    }
}

/// Where no prefix ends with the empty line there is no head yet.
pub proof fn lemma_head_end_missing(s: Seq<u8>)
    requires
        forall|m: int| !ends_head(s, m),
    ensures
        head_end(s) is None,
{
}

/// Bytes that arrive later change nothing about where a prefix ends.
pub proof fn lemma_ends_head_prefix(s: Seq<u8>, more: Seq<u8>, n: int)
    requires
        n <= s.len(),
    ensures
        ends_head(s + more, n) == ends_head(s, n),
{
    if 4 <= n {
        assert((s + more)[n - 4] == s[n - 4]);
        assert((s + more)[n - 3] == s[n - 3]);
        assert((s + more)[n - 2] == s[n - 2]);
        assert((s + more)[n - 1] == s[n - 1]);
    }
}

/// Bytes that arrive later change nothing about where the head ends.
pub proof fn lemma_head_len_prefix(s: Seq<u8>, more: Seq<u8>, n: int)
    requires
        n <= s.len(),
    ensures
        is_head_len(s + more, n) == is_head_len(s, n),
{
    lemma_ends_head_prefix(s, more, n);
    if forall|m: int| m < n ==> !ends_head(s, m) {
        assert forall|m: int| m < n implies !ends_head(s + more, m) by {
            lemma_ends_head_prefix(s, more, m);
            assert(!ends_head(s, m));
        }
    }
    if forall|m: int| m < n ==> !ends_head(s + more, m) {
        assert forall|m: int| m < n implies !ends_head(s, m) by {
            lemma_ends_head_prefix(s, more, m);
            assert(!ends_head(s + more, m));
        }
    }
}

/// Once the head is complete, bytes that arrive later leave it as it is.
pub proof fn lemma_head_is_stable(s: Seq<u8>, more: Seq<u8>)
    requires
        head_end(s) is Some,
    ensures
        head_end(s + more) == head_end(s),
        (s + more).take(head_end(s)->0) == s.take(head_end(s)->0),
{
    let n = head_end(s)->0;
    assert(is_head_len(s, n));
    lemma_head_len_prefix(s, more, n);
    lemma_head_end_found(s + more, n);
    assert((s + more).take(n) =~= s.take(n));
}

/// Collects the bytes of one response.
#[derive(Debug)]
pub struct ResponseReader {
    buffer: Vec<u8>,
    head_len: Option<usize>,
    parsed: Option<Result<ResponseHead, HttpError>>,
}

impl ResponseReader {
    #[verifier::type_invariant]
    spec fn coherent(&self) -> bool {
        match self.head_len {
            None => self.parsed is None && forall|m: int| !ends_head(self.buffer@, m),
            Some(n) => is_head_len(self.buffer@, n as int) && match self.parsed {
                None => false,
                Some(Ok(head)) => parse_head_spec(self.buffer@.take(n as int)) == Ok::<
                    HeadModel,
                    HttpError,
                >(head@),
                Some(Err(e)) => parse_head_spec(self.buffer@.take(n as int)) == Err::<
                    HeadModel,
                    HttpError,
                >(e),
            },
        }
    }

    /// Every byte fed so far, in order.
    pub closed spec fn received(&self) -> Seq<u8> {
        self.buffer@
    }

    /// A reader that has received nothing.
    pub fn new() -> (res: Self)
        ensures
            res.received() == Seq::<u8>::empty(),
    {
        ResponseReader { buffer: Vec::new(), head_len: None, parsed: None }
    }

    /// Takes bytes of the stream, however many they are. Feeding nothing
    /// changes nothing; what a read that returned nothing means is said by
    /// `on_read`.
    pub fn feed(self, chunk: &[u8]) -> (res: Self)
        ensures
            res.received() == self.received() + chunk@,
    {
        proof {
            use_type_invariant(&self);
        }
        let ResponseReader { mut buffer, mut head_len, mut parsed } = self;
        let ghost start = buffer@;
        let mut i: usize = 0;
        while i < chunk.len()
            invariant
                0 <= i <= chunk@.len(),
                (ResponseReader { buffer, head_len, parsed }).coherent(),
                buffer@ == start + chunk@.take(i as int),
            decreases chunk@.len() - i,
        {
            let ghost before = buffer@;
            buffer.push(chunk[i]);
            proof {
                assert(buffer@ =~= before + seq![chunk@[i as int]]);
                assert(buffer@ =~= start + chunk@.take(i + 1));
            }
            match head_len {
                None => {
                    let n: usize = buffer.len();
                    if n >= 4 && buffer[n - 4] == CR && buffer[n - 3] == LF && buffer[n - 2] == CR
                        && buffer[n - 1] == LF {
                        let head = parse_head(slice_subrange(buffer.as_slice(), 0, n));
                        proof {
                            assert(buffer@.subrange(0, n as int) =~= buffer@.take(n as int));
                            assert forall|m: int| m < n implies !ends_head(buffer@, m) by {
                                lemma_ends_head_prefix(before, seq![chunk@[i as int]], m);
                                assert(!ends_head(before, m));
                            }
                        }
                        head_len = Some(n);
                        parsed = Some(head);
                    } else {
                        proof {
                            assert forall|m: int| true implies !ends_head(buffer@, m) by {
                                if m <= before.len() {
                                    lemma_ends_head_prefix(before, seq![chunk@[i as int]], m);
                                    assert(!ends_head(before, m));
                                }
                            }
                        }
                    }
                },
                Some(n) => {
                    proof {
                        lemma_head_len_prefix(before, seq![chunk@[i as int]], n as int);
                        assert(buffer@.take(n as int) =~= before.take(n as int));
                    }
                },
            }
            i += 1;
        }
        proof {
            assert(chunk@.take(chunk@.len() as int) =~= chunk@);
        }
        ResponseReader { buffer, head_len, parsed }
    }

    /// Takes what one read returned while bytes are wanted. A read that
    /// returns nothing then means that the peer has stopped sending: the
    /// response can no longer become complete, and the exchange fails with
    /// `UnexpectedEnd`. Every other read is fed to the reader.
    pub fn on_read(self, chunk: &[u8]) -> (res: Result<Self, HttpError>)
        ensures
            res is Err <==> chunk@.len() == 0 && wanted(self.received()) != Wanted::Nothing,
            match res {
                Ok(reader) => reader.received() == self.received() + chunk@,
                Err(e) => e == HttpError::UnexpectedEnd,
            },
    {
        if chunk.len() == 0 {
            match self.wants() {
                Wanted::Nothing => {},
                _ => {
                    return Err(HttpError::UnexpectedEnd);
                },
            }
        }
        Ok(self.feed(chunk))
    }

    /// Says what has to be read next.
    pub fn wants(&self) -> (res: Wanted)
        ensures
            res == wanted(self.received()),
    {
        proof {
            use_type_invariant(self);
        }
        match self.head_len {
            None => {
                proof {
                    lemma_head_end_missing(self.buffer@);
                }
                Wanted::Head
            },
            Some(n) => {
                proof {
                    lemma_head_end_found(self.buffer@, n as int);
                }
                match &self.parsed {
                    Some(Ok(head)) => {
                        let need: usize = head.content_length();
                        let have: usize = self.buffer.len() - n;
                        if have < need {
                            Wanted::Body(need - have)
                        } else {
                            Wanted::Nothing
                        }
                    },
                    _ => Wanted::Nothing,
                }
            },
        }
    }

    /// Hands out the response, `None` while it is incomplete.
    pub fn finish(self) -> (res: Option<Result<HttpResponse<Vec<u8>>, HttpError>>)
        ensures
            match res {
                None => decode(self.received()) is Incomplete,
                Some(Err(e)) => decode(self.received()) == Decoded::Failed(e),
                Some(Ok(response)) => decode(self.received()) == Decoded::Complete(
                    ResponseModel { head: response.head@, body: response.body@ },
                ),
            },
    {
        proof {
            use_type_invariant(&self);
        }
        let ResponseReader { buffer, head_len, parsed } = self;
        match head_len {
            None => {
                proof {
                    lemma_head_end_missing(buffer@);
                }
                None
            },
            Some(n) => {
                proof {
                    lemma_head_end_found(buffer@, n as int);
                }
                match parsed {
                    Some(Ok(head)) => {
                        let need: usize = head.content_length();
                        let have: usize = buffer.len() - n;
                        if have < need {
                            None
                        } else {
                            let body = copy_range(buffer.as_slice(), n, n + need);
                            Some(Ok(HttpResponse { head, body }))
                        }
                    },
                    Some(Err(e)) => Some(Err(e)),
                    None => None,
                }
            },
        }
    }
}

/// The bytes of the chunks in the order in which they came.
pub open spec fn concat(chunks: Seq<Seq<u8>>) -> Seq<u8>
    decreases chunks.len(),
{
    if chunks.len() == 0 {
        Seq::empty()
    } else {
        concat(chunks.drop_last()) + chunks.last()
    }
}

/// What a reader that had received `received` has received after it was fed
/// the chunks one by one.
pub open spec fn fed(received: Seq<u8>, chunks: Seq<Seq<u8>>) -> Seq<u8>
    decreases chunks.len(),
{
    if chunks.len() == 0 {
        received
    } else {
        fed(received, chunks.drop_last()) + chunks.last()
    }
}

/// Feeding chunk by chunk amounts to feeding all their bytes at once.
pub proof fn lemma_fed_is_concat(received: Seq<u8>, chunks: Seq<Seq<u8>>)
    ensures
        fed(received, chunks) == received + concat(chunks),
    decreases chunks.len(),
{
    if chunks.len() == 0 {
        assert(received + concat(chunks) =~= received);
    } else {
        lemma_fed_is_concat(received, chunks.drop_last());
        assert(received + concat(chunks.drop_last()) + chunks.last() =~= received + (concat(
            chunks.drop_last(),
        ) + chunks.last()));
    }
}

/// The chunking law. However the transport cuts the same bytes into chunks,
/// one byte at a time or all at once, a reader ends up holding the same
/// response and wanting the same next read.
pub proof fn lemma_chunking_is_irrelevant(a: Seq<Seq<u8>>, b: Seq<Seq<u8>>)
    requires
        concat(a) == concat(b),
    ensures
        fed(Seq::empty(), a) == fed(Seq::empty(), b),
        decode(fed(Seq::empty(), a)) == decode(fed(Seq::empty(), b)),
        wanted(fed(Seq::empty(), a)) == wanted(fed(Seq::empty(), b)),
{
    lemma_fed_is_concat(Seq::empty(), a);
    lemma_fed_is_concat(Seq::empty(), b);
}

/// The exact-length law. Once a response is complete, or its head refused,
/// bytes that arrive later change nothing: the body is made of the bytes that
/// the head announces and of no others.
pub proof fn lemma_decode_is_stable(s: Seq<u8>, more: Seq<u8>)
    requires
        !(decode(s) is Incomplete),
    ensures
        decode(s + more) == decode(s),
        wanted(s) == Wanted::Nothing,
        wanted(s + more) == Wanted::Nothing,
{
    lemma_head_is_stable(s, more);
    let n = head_end(s)->0;
    assert(is_head_len(s, n));
    match parse_head_spec(s.take(n)) {
        Err(e) => {},
        Ok(head) => {
            let need = content_length(head.headers);
            assert((s + more).subrange(n, n + need) =~= s.subrange(n, n + need));
        },
    }
}

/// While the body is incomplete, the reader wants exactly the bytes that
/// are missing, and is complete once it got them.
pub proof fn lemma_body_read(s: Seq<u8>, rest: Seq<u8>)
    requires
        wanted(s) matches Wanted::Body(missing) && rest.len() == missing,
    ensures
        decode(s + rest) is Complete,
        wanted(s + rest) == Wanted::Nothing,
{
    lemma_head_is_stable(s, rest);
}

/// The careful-reader law. Along a stream that starts with a response, what
/// the reader wants after the first `k` bytes is: the head, while the head
/// is incomplete; then exactly the bytes of the body that are still missing;
/// then nothing. So whoever reads as the reader wants takes the bytes of the
/// response and not one byte more.
pub proof fn lemma_wanted_along_the_stream(s: Seq<u8>, k: int)
    requires
        decode(s) is Complete,
        0 <= k <= s.len(),
    ensures
        ({
            let n = head_end(s)->0;
            let need = decode(s)->Complete_0.body.len();
            wanted(s.take(k)) == if k < n {
                Wanted::Head
            } else if k < n + need {
                Wanted::Body((n + need - k) as usize)
            } else {
                Wanted::Nothing
            }
        }),
{
    let n = head_end(s)->0;
    assert(is_head_len(s, n));
    let prefix = s.take(k);
    let rest = s.skip(k);
    assert(prefix + rest =~= s);
    if k < n {
        assert forall|m: int| !ends_head(prefix, m) by {
            if m <= k {
                lemma_ends_head_prefix(prefix, rest, m);
                assert(!ends_head(s, m));
            }
        }
        lemma_head_end_missing(prefix);
    } else {
        lemma_head_len_prefix(prefix, rest, n);
        lemma_head_end_found(prefix, n);
        assert(prefix.take(n) =~= s.take(n));
    }
}

} // verus!
