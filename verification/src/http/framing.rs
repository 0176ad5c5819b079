//! Laws that tie the wire form of a message to what a reader finds in it.

use crate::http::reader::{
    decode, ends_head, head_end, lemma_ends_head_prefix, lemma_head_end_found, Decoded,
    ResponseModel,
};
use crate::http::requests::{field_line, header_block, message};
use crate::http::{
    content_length, content_length_name, field_of, fields_of, last_value, parse_status_line,
    HeadModel, HttpError, HttpVersion,
};
use crate::text::{
    ascii, decimal, is_digit, is_space, lemma_decimal_value, lemma_index_of_unique,
    lemma_parse_decimal, lemma_trim_bounds, lemma_trim_is, lower, split, trim, COLON, CR, LF, SP,
};
use vstd::prelude::*;

verus! {

/// `s` holds no line feed.
pub open spec fn no_line_feed(s: Seq<u8>) -> bool {
    forall|i: int| 0 <= i < s.len() ==> #[trigger] s[i] != LF
}

/// `name` can stand before the colon of a header line: it is not empty and
/// holds neither white space nor a colon.
pub open spec fn is_field_name(name: Seq<u8>) -> bool {
    name.len() > 0 && forall|i: int|
        0 <= i < name.len() ==> !is_space(#[trigger] name[i]) && name[i] != COLON
}

/// Every field can be written on a line of its own: its name is a field
/// name and its value holds no line feed.
pub open spec fn framable(fields: Seq<(Seq<u8>, Seq<u8>)>) -> bool {
    forall|i: int|
        0 <= i < fields.len() ==> is_field_name((#[trigger] fields[i]).0) && no_line_feed(
            fields[i].1,
        )
}

/// The fields as a reader reports them: names in lower case, values trimmed.
pub open spec fn canonical(fields: Seq<(Seq<u8>, Seq<u8>)>) -> Seq<(Seq<u8>, Seq<u8>)> {
    Seq::new(fields.len(), |i: int| (lower(fields[i].0), trim(fields[i].1)))
}

/// The head of a message: everything before its body.
pub open spec fn head_of(start_line: Seq<u8>, fields: Seq<(Seq<u8>, Seq<u8>)>) -> Seq<u8> {
    message(start_line, fields, Seq::empty())
}

/// What stands on the line of a field, before the line break.
pub open spec fn field_text(field: (Seq<u8>, Seq<u8>)) -> Seq<u8> {
    field.0 + seq![COLON, SP] + field.1
}

/// The header lines as a reader cuts them: each still ends with the carriage
/// return.
pub open spec fn cut_lines(fields: Seq<(Seq<u8>, Seq<u8>)>) -> Seq<Seq<u8>> {
    Seq::new(fields.len(), |i: int| field_text(fields[i]) + seq![CR])
}

/// The header lines can be unrolled from the front as well.
proof fn lemma_header_block_front(fields: Seq<(Seq<u8>, Seq<u8>)>)
    requires
        fields.len() > 0,
    ensures
        header_block(fields) == field_line(fields[0]) + header_block(fields.skip(1)),
    decreases fields.len(),
{
    if fields.len() == 1 {
        assert(fields.drop_last() =~= Seq::empty());
        assert(fields.skip(1) =~= Seq::empty());
        assert(header_block(fields) =~= field_line(fields[0]) + header_block(fields.skip(1)));
    } else {
        let front = fields.drop_last();
        lemma_header_block_front(front);
        assert(front.skip(1) =~= fields.skip(1).drop_last());
        assert(fields.skip(1).last() == fields.last());
        assert(front[0] == fields[0]);
        assert(header_block(fields) =~= field_line(fields[0]) + header_block(fields.skip(1)));
    }
}

/// Before the empty line that closes the head, no prefix of a message ends
/// with an empty line.
proof fn lemma_no_early_boundary(start_line: Seq<u8>, fields: Seq<(Seq<u8>, Seq<u8>)>)
    requires
        no_line_feed(start_line),
        framable(fields),
    ensures
        ({
            let p = start_line + seq![CR, LF] + header_block(fields);
            &&& p.len() >= 2
            &&& p[p.len() - 2] == CR
            &&& p[p.len() - 1] == LF
            &&& forall|m: int| !ends_head(p, m)
        }),
    decreases fields.len(),
{
    let p = start_line + seq![CR, LF] + header_block(fields);
    if fields.len() == 0 {
        assert(p =~= start_line + seq![CR, LF]);
        assert forall|m: int| !ends_head(p, m) by {
            if ends_head(p, m) {
                let n = start_line.len() as int;
                if m - 1 < n {
                    assert(p[m - 1] == start_line[m - 1]);
                } else if m - 1 == n {
                    assert(p[m - 1] == CR);
                } else {
                    assert(m == n + 2);
                    assert(p[m - 3] == start_line[m - 3]);
                }
            }
        }
    } else {
        let front = fields.drop_last();
        let last = fields.last();
        let q = start_line + seq![CR, LF] + header_block(front);
        assert(framable(front)) by {
            assert forall|i: int| 0 <= i < front.len() implies is_field_name(
                (#[trigger] front[i]).0,
            ) && no_line_feed(front[i].1) by {
                assert(front[i] == fields[i]);
            }
        }
        lemma_no_early_boundary(start_line, front);
        let text = field_text(last);
        let line = field_line(last);
        assert(line =~= text + seq![CR, LF]);
        assert(p =~= q + line);
        assert(is_field_name(last.0) && no_line_feed(last.1));
        assert forall|k: int| 0 <= k < text.len() implies text[k] != LF by {
            let n = last.0.len() as int;
            if k < n {
                assert(text[k] == last.0[k]);
                assert(!is_space(last.0[k]));
            } else if k >= n + 2 {
                assert(text[k] == last.1[k - n - 2]);
            }
        }
        assert forall|m: int| !ends_head(p, m) by {
            if m <= q.len() {
                lemma_ends_head_prefix(q, line, m);
            } else if ends_head(p, m) {
                let base = q.len() as int;
                let t = text.len() as int;
                if m - 1 < base + t {
                    assert(p[m - 1] == text[m - 1 - base]);
                } else if m - 1 == base + t {
                    assert(p[m - 1] == CR);
                } else {
                    assert(m == base + t + 2);
                    assert(p[m - 3] == text[t - 1]);
                }
            }
        }
        assert(p[p.len() - 2] == line[line.len() - 2]);
        assert(p[p.len() - 1] == line[line.len() - 1]);
    }
}

/// A line without a line feed, followed by its line break, is the first
/// piece that a reader cuts off.
proof fn lemma_split_first_line(line: Seq<u8>, rest: Seq<u8>)
    requires
        no_line_feed(line),
    ensures
        split(line + seq![CR, LF] + rest, LF) == seq![line + seq![CR]] + split(rest, LF),
{
    let s = line + seq![CR, LF] + rest;
    let i: int = line.len() as int + 1;
    assert(s[i] == LF);
    assert forall|k: int| 0 <= k < i implies #[trigger] s[k] != LF by {
        if k < line.len() {
            assert(s[k] == line[k]);
        } else {
            assert(s[k] == CR);
        }
    }
    lemma_index_of_unique(s, LF, i);
    assert(s.take(i) =~= line + seq![CR]);
    assert(s.skip(i + 1) =~= rest);
}

/// The lines that a reader cuts out of the header lines and the empty line.
proof fn lemma_split_header_block(fields: Seq<(Seq<u8>, Seq<u8>)>)
    requires
        framable(fields),
    ensures
        split(header_block(fields) + seq![CR, LF], LF) == cut_lines(fields) + seq![
            seq![CR],
            Seq::<u8>::empty(),
        ],
    decreases fields.len(),
{
    let tail = seq![seq![CR], Seq::<u8>::empty()];
    if fields.len() == 0 {
        let s = header_block(fields) + seq![CR, LF];
        assert(s =~= Seq::<u8>::empty() + seq![CR, LF] + Seq::<u8>::empty());
        lemma_split_first_line(Seq::<u8>::empty(), Seq::<u8>::empty());
        assert(split(Seq::<u8>::empty(), LF) =~= seq![Seq::<u8>::empty()]);
        assert(Seq::<u8>::empty() + seq![CR] =~= seq![CR]);
        assert(cut_lines(fields) + tail =~= seq![seq![CR]] + seq![Seq::<u8>::empty()]);
    } else {
        let first = fields[0];
        let rest = fields.skip(1);
        lemma_header_block_front(fields);
        assert(framable(rest)) by {
            assert forall|i: int| 0 <= i < rest.len() implies is_field_name((#[trigger] rest[i]).0)
                && no_line_feed(rest[i].1) by {
                assert(rest[i] == fields[i + 1]);
            }
        }
        lemma_split_header_block(rest);
        let text = field_text(first);
        assert(is_field_name(first.0) && no_line_feed(first.1));
        assert(no_line_feed(text)) by {
            assert forall|k: int| 0 <= k < text.len() implies #[trigger] text[k] != LF by {
                let n = first.0.len() as int;
                if k < n {
                    assert(text[k] == first.0[k]);
                    assert(!is_space(first.0[k]));
                } else if k >= n + 2 {
                    assert(text[k] == first.1[k - n - 2]);
                }
            }
        }
        let after = header_block(rest) + seq![CR, LF];
        assert(header_block(fields) + seq![CR, LF] =~= text + seq![CR, LF] + after);
        lemma_split_first_line(text, after);
        assert(seq![text + seq![CR]] + (cut_lines(rest) + tail) =~= cut_lines(fields) + tail) by {
            let l = seq![text + seq![CR]] + (cut_lines(rest) + tail);
            let r = cut_lines(fields) + tail;
            assert(l.len() == r.len());
            assert forall|k: int| 0 <= k < l.len() implies l[k] == r[k] by {
                if 1 <= k < fields.len() {
                    assert(rest[k - 1] == fields[k]);
                }
            }
        }
    }
}

/// What a reader makes of the line of a field: the name in lower case and
/// the value trimmed.
proof fn lemma_field_of_line(field: (Seq<u8>, Seq<u8>))
    requires
        is_field_name(field.0),
    ensures
        trim(field_text(field) + seq![CR]).len() > 0,
        field_of(trim(field_text(field) + seq![CR])) == (lower(field.0), trim(field.1)),
{
    let name = field.0;
    let value = field.1;
    let n = name.len() as int;
    let v = value.len() as int;
    let line = field_text(field) + seq![CR];
    let (a, b) = lemma_trim_bounds(value);
    let hi = if a < b {
        n + 2 + b
    } else {
        n + 1
    };
    assert(line.len() == n + v + 3);
    assert(line[0] == name[0]);
    assert(line[n] == COLON);
    assert(line[n + 1] == SP);
    assert forall|k: int| hi <= k < line.len() implies is_space(#[trigger] line[k]) by {
        if n + 2 <= k < n + 2 + v {
            assert(line[k] == value[k - n - 2]);
            if a == b {
                assert(is_space(value[k - n - 2]));
            }
        } else if k == n + 2 + v {
            assert(line[k] == CR);
        }
    }
    if a < b {
        assert(line[hi - 1] == value[b - 1]);
    }
    lemma_trim_is(line, 0, hi);
    let t = line.subrange(0, hi);
    assert(trim(line) == t);
    assert(t[n] == COLON);
    assert forall|k: int| 0 <= k < n implies #[trigger] t[k] != COLON by {
        assert(t[k] == name[k]);
    }
    lemma_index_of_unique(t, COLON, n);
    assert(t.take(n) =~= name);
    lemma_trim_is(name, 0, n);
    assert(name.subrange(0, n) =~= name);
    let r = t.skip(n + 1);
    if a < b {
        assert(r.len() == 1 + b);
        assert(r[0] == SP);
        assert forall|k: int| 0 <= k < 1 + a implies is_space(#[trigger] r[k]) by {
            if k >= 1 {
                assert(r[k] == value[k - 1]);
            }
        }
        assert(r[1 + a] == value[a]);
        assert(r[b] == value[b - 1]);
        lemma_trim_is(r, 1 + a, 1 + b);
        assert(r.subrange(1 + a, 1 + b) =~= value.subrange(a, b));
    } else {
        assert(r =~= Seq::<u8>::empty());
        lemma_trim_is(r, 0, 0);
        assert(r.subrange(0, 0) =~= value.subrange(a, b));
    }
}

/// The fields that a reader finds on the lines of framable fields.
proof fn lemma_fields_of_cut_lines(fields: Seq<(Seq<u8>, Seq<u8>)>)
    requires
        framable(fields),
    ensures
        fields_of(cut_lines(fields)) == canonical(fields),
    decreases fields.len(),
{
    if fields.len() == 0 {
        assert(canonical(fields) =~= Seq::empty());
    } else {
        let front = fields.drop_last();
        assert(framable(front)) by {
            assert forall|i: int| 0 <= i < front.len() implies is_field_name(
                (#[trigger] front[i]).0,
            ) && no_line_feed(front[i].1) by {
                assert(front[i] == fields[i]);
            }
        }
        lemma_fields_of_cut_lines(front);
        assert(cut_lines(fields).drop_last() =~= cut_lines(front));
        assert(is_field_name(fields.last().0));
        lemma_field_of_line(fields.last());
        assert(canonical(fields) =~= canonical(front).push(
            (lower(fields.last().0), trim(fields.last().1)),
        ));
    }
}

/// The empty line and what follows it hold no field.
proof fn lemma_fields_of_closing_lines(lines: Seq<Seq<u8>>)
    ensures
        fields_of(lines + seq![seq![CR], Seq::<u8>::empty()]) == fields_of(lines),
{
    let one = lines.push(seq![CR]);
    let two = lines + seq![seq![CR], Seq::<u8>::empty()];
    assert(two.drop_last() =~= one);
    assert(one.drop_last() =~= lines);
    assert(two.last() == Seq::<u8>::empty());
    assert(one.last() == seq![CR]);
    lemma_trim_is(seq![CR], 1, 1);
    lemma_trim_is(Seq::<u8>::empty(), 0, 0);
    assert(trim(seq![CR]).len() == 0);
    assert(trim(Seq::<u8>::empty()).len() == 0);
    assert(fields_of(two) == fields_of(one));
    assert(fields_of(one) == fields_of(lines));
}

/// Trimming takes the carriage return at the end of a line away.
proof fn lemma_trim_line(line: Seq<u8>)
    ensures
        trim(line + seq![CR]) == trim(line),
{
    let (a, b) = lemma_trim_bounds(line);
    let s = line + seq![CR];
    assert forall|k: int| 0 <= k < a implies is_space(#[trigger] s[k]) by {
        assert(s[k] == line[k]);
    }
    assert forall|k: int| b <= k < s.len() implies is_space(#[trigger] s[k]) by {
        if k < line.len() {
            assert(s[k] == line[k]);
        }
    }
    if a < b {
        assert(s[a] == line[a]);
        assert(s[b - 1] == line[b - 1]);
    }
    lemma_trim_is(s, a, b);
    assert(s.subrange(a, b) =~= line.subrange(a, b));
}

/// Where the head of a message ends in a stream that starts with it.
proof fn lemma_head_boundary(
    start_line: Seq<u8>,
    fields: Seq<(Seq<u8>, Seq<u8>)>,
    body: Seq<u8>,
    more: Seq<u8>,
)
    requires
        no_line_feed(start_line),
        framable(fields),
    ensures
        ({
            let stream = message(start_line, fields, body) + more;
            let head = head_of(start_line, fields);
            &&& head_end(stream) == Some(head.len() as int)
            &&& stream.take(head.len() as int) == head
            &&& stream.skip(head.len() as int) == body + more
        }),
{
    let stream = message(start_line, fields, body) + more;
    let head = head_of(start_line, fields);
    let p = start_line + seq![CR, LF] + header_block(fields);
    lemma_no_early_boundary(start_line, fields);
    assert(head =~= p + seq![CR, LF]);
    let rest = seq![CR, LF] + body + more;
    assert(stream =~= p + rest);
    let n = head.len() as int;
    assert(n == p.len() + 2);
    assert(stream[n - 4] == p[p.len() - 2]);
    assert(stream[n - 3] == p[p.len() - 1]);
    assert(stream[n - 2] == rest[0]);
    assert(stream[n - 1] == rest[1]);
    assert forall|m: int| m < n implies !ends_head(stream, m) by {
        if m <= p.len() {
            lemma_ends_head_prefix(p, rest, m);
        } else {
            assert(stream[m - 1] == rest[0]);
        }
    }
    lemma_head_end_found(stream, n);
    assert(stream.take(n) =~= head);
    assert(stream.skip(n) =~= body + more);
}

/// The lines that a reader cuts out of the head of a message.
proof fn lemma_head_lines(start_line: Seq<u8>, fields: Seq<(Seq<u8>, Seq<u8>)>)
    requires
        no_line_feed(start_line),
        framable(fields),
    ensures
        ({
            let head = head_of(start_line, fields);
            &&& trim(split(head, LF)[0]) == trim(start_line)
            &&& fields_of(split(head, LF).skip(1)) == canonical(fields)
        }),
{
    let head = head_of(start_line, fields);
    let after = header_block(fields) + seq![CR, LF];
    assert(head =~= start_line + seq![CR, LF] + after);
    lemma_split_first_line(start_line, after);
    lemma_split_header_block(fields);
    let lines = split(head, LF);
    let closing = seq![seq![CR], Seq::<u8>::empty()];
    assert(lines == seq![start_line + seq![CR]] + (cut_lines(fields) + closing));
    assert(lines[0] == start_line + seq![CR]);
    lemma_trim_line(start_line);
    assert(lines.skip(1) =~= cut_lines(fields) + closing);
    lemma_fields_of_closing_lines(cut_lines(fields));
    lemma_fields_of_cut_lines(fields);
}

/// The framing law. In a message whose start line holds no line feed and
/// whose fields are framable, whatever follows the message:
/// - the head ends where the message's own empty line ends, and nowhere
///   before;
/// - the first line that a reader cuts is the start line, up to trimming;
/// - the fields that a reader finds are the message's fields, names in lower
///   case and values trimmed, in the same order.
pub proof fn lemma_message_framing(
    start_line: Seq<u8>,
    fields: Seq<(Seq<u8>, Seq<u8>)>,
    body: Seq<u8>,
    more: Seq<u8>,
)
    requires
        no_line_feed(start_line),
        framable(fields),
    ensures
        ({
            let stream = message(start_line, fields, body) + more;
            let head = head_of(start_line, fields);
            &&& head_end(stream) == Some(head.len() as int)
            &&& stream.take(head.len() as int) == head
            &&& stream.skip(head.len() as int) == body + more
            &&& trim(split(head, LF)[0]) == trim(start_line)
            &&& fields_of(split(head, LF).skip(1)) == canonical(fields)
        }),
{
    lemma_head_boundary(start_line, fields, body, more);
    lemma_head_lines(start_line, fields);
}

/// Decoding a framed message. Where the fields of a message announce the
/// length of its body, a reader that is given the message, followed by
/// anything, finds the start line's reading, the fields and exactly the body.
pub proof fn lemma_decode_message(
    start_line: Seq<u8>,
    fields: Seq<(Seq<u8>, Seq<u8>)>,
    body: Seq<u8>,
    more: Seq<u8>,
)
    requires
        no_line_feed(start_line),
        framable(fields),
        content_length(canonical(fields)) == body.len(),
    ensures
        decode(message(start_line, fields, body) + more) == match parse_status_line(
            trim(start_line),
        ) {
            Err(e) => Decoded::Failed(e),
            Ok((version, status, reason)) => Decoded::Complete(
                ResponseModel {
                    head: HeadModel { version, status, reason, headers: canonical(fields) },
                    body,
                },
            ),
        },
{
    lemma_message_framing(start_line, fields, body, more);
    let stream = message(start_line, fields, body) + more;
    let n = head_of(start_line, fields).len() as int;
    assert(stream.subrange(n, n + body.len()) =~= body) by {
        assert(stream.skip(n) == body + more);
        assert forall|k: int| 0 <= k < body.len() implies stream.subrange(n, n + body.len())[k]
            == body[k] by {
            assert(stream.skip(n)[k] == stream[n + k]);
            assert((body + more)[k] == body[k]);
        }
    }
}

/// Two sequences without a line feed make one when put together.
pub proof fn lemma_no_line_feed_concat(a: Seq<u8>, b: Seq<u8>)
    requires
        no_line_feed(a),
        no_line_feed(b),
    ensures
        no_line_feed(a + b),
{
    assert forall|i: int| 0 <= i < (a + b).len() implies #[trigger] (a + b)[i] != LF by {
        if i < a.len() {
            assert((a + b)[i] == a[i]);
        } else {
            assert((a + b)[i] == b[i - a.len()]);
        }
    }
}

/// A numeral is its own trimmed form and holds no line feed.
pub proof fn lemma_decimal_is_plain(n: nat)
    ensures
        trim(decimal(n)) == decimal(n),
        no_line_feed(decimal(n)),
{
    lemma_decimal_value(n);
    let d = decimal(n);
    assert(is_digit(d[0]));
    assert(is_digit(d[d.len() - 1]));
    lemma_trim_is(d, 0, d.len() as int);
    assert(d.subrange(0, d.len() as int) =~= d);
    assert forall|i: int| 0 <= i < d.len() implies #[trigger] d[i] != LF by {
        assert(is_digit(d[i]));
    }
}

/// The response of a peer that answers every request with status 200 and
/// the body it was given.
pub open spec fn echo_response(body: Seq<u8>) -> Seq<u8> {
    message(
        ascii("HTTP/1.1 200 OK"@),
        seq![(ascii("Content-Length"@), decimal(body.len()))],
        body,
    )
}

/// What the status line of an echo says.
proof fn lemma_echo_status_line()
    ensures
        no_line_feed(ascii("HTTP/1.1 200 OK"@)),
        parse_status_line(trim(ascii("HTTP/1.1 200 OK"@))) == Ok::<
            (HttpVersion, u16, Seq<u8>),
            HttpError,
        >((HttpVersion::Http11, 200u16, ascii("OK"@))),
{
    reveal_strlit("HTTP/1.1 200 OK");
    reveal_strlit("HTTP/0.9");
    reveal_strlit("HTTP/1.0");
    reveal_strlit("HTTP/1.1");
    reveal_strlit("OK");
    let line = ascii("HTTP/1.1 200 OK"@);
    assert(line.len() == 15);
    lemma_trim_is(line, 0, 15);
    assert(line.subrange(0, 15) =~= line);
    lemma_index_of_unique(line, SP, 8);
    let second = line.skip(9);
    lemma_index_of_unique(second, SP, 3);
    let third = second.skip(4);
    lemma_index_of_unique(third, SP, 2);
    assert(split(third, SP) =~= seq![third]);
    assert(split(second, SP) =~= seq![second.take(3)] + split(third, SP));
    assert(split(line, SP) =~= seq![line.take(8)] + split(second, SP));
    let tokens = split(line, SP);
    assert(tokens =~= seq![line.take(8), second.take(3), third]);
    assert(tokens[0] =~= ascii("HTTP/1.1"@));
    assert(ascii("HTTP/0.9"@)[5] != tokens[0][5]);
    assert(ascii("HTTP/1.0"@)[7] != tokens[0][7]);
    assert(tokens[1] =~= seq![0x32u8, 0x30u8, 0x30u8]);
    assert(tokens.skip(2) =~= seq![third]);
    assert(third =~= ascii("OK"@));
}

/// The round trip with an echoing peer: a reader that is given the echo of
/// `body`, followed by anything, finds status 200 and exactly `body`.
pub proof fn lemma_echo_round_trip(body: Seq<u8>, more: Seq<u8>)
    requires
        body.len() <= usize::MAX,
    ensures
        decode(echo_response(body) + more) == Decoded::Complete(
            ResponseModel {
                head: HeadModel {
                    version: HttpVersion::Http11,
                    status: 200u16,
                    reason: ascii("OK"@),
                    headers: seq![(ascii("content-length"@), decimal(body.len()))],
                },
                body,
            },
        ),
{
    reveal_strlit("Content-Length");
    reveal_strlit("content-length");
    let name = ascii("Content-Length"@);
    let fields = seq![(name, decimal(body.len()))];
    lemma_echo_status_line();
    lemma_decimal_is_plain(body.len());
    assert(is_field_name(name));
    assert(framable(fields));
    assert(lower(name) =~= ascii("content-length"@));
    let found = canonical(fields);
    assert(found =~= seq![(ascii("content-length"@), decimal(body.len()))]);
    lemma_parse_decimal(body.len() as usize);
    assert(found.last() == (ascii("content-length"@), decimal(body.len())));
    assert(last_value(found, content_length_name()) == Some(decimal(body.len())));
    lemma_decode_message(ascii("HTTP/1.1 200 OK"@), fields, body, more);
}

} // verus!
