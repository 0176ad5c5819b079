//! Byte-sequence vocabulary shared by the codec: whitespace trimming, ASCII
//! case folding, splitting and joining on a separator, and decimal numbers.
//!
//! Every executable function here is specified by a mathematical function on
//! `Seq<u8>` of the same meaning, so that the codec's contracts can be read
//! without reading any loop.

use vstd::prelude::*;
use vstd::slice::slice_subrange;
use vstd::string::*;
use vstd::utf8::*;

verus! {

pub const SP: u8 = 0x20;

pub const CR: u8 = 0x0d;

pub const LF: u8 = 0x0a;

pub const COLON: u8 = 0x3a;

pub const PLUS: u8 = 0x2b;

pub const ZERO: u8 = 0x30;

/// The ASCII white space: space, tab, line feed, vertical tab, form feed and
/// carriage return. Bytes outside ASCII are never white space.
pub open spec fn is_space(b: u8) -> bool {
    b == 0x20 || (0x09 <= b && b <= 0x0d)
}

/// `s` without its leading white space.
pub open spec fn trim_start(s: Seq<u8>) -> Seq<u8>
    decreases s.len(),
{
    if s.len() > 0 && is_space(s[0]) {
        trim_start(s.skip(1))
    } else {
        s
    }
}

/// `s` without its trailing white space.
pub open spec fn trim_end(s: Seq<u8>) -> Seq<u8>
    decreases s.len(),
{
    if s.len() > 0 && is_space(s.last()) {
        trim_end(s.drop_last())
    } else {
        s
    }
}

/// `s` without the white space at either end.
pub open spec fn trim(s: Seq<u8>) -> Seq<u8> {
    trim_end(trim_start(s))
}

/// The lower-case form of an ASCII letter; any other byte unchanged.
pub open spec fn lower_byte(b: u8) -> u8 {
    if 0x41 <= b && b <= 0x5a {
        (b + 0x20) as u8
    } else {
        b
    }
}

/// `s` with every ASCII capital replaced by its lower-case letter.
pub open spec fn lower(s: Seq<u8>) -> Seq<u8> {
    Seq::new(s.len(), |i: int| lower_byte(s[i]))
}

/// The position of the first `b` in `s`, or `s.len()` when there is none.
pub open spec fn index_of(s: Seq<u8>, b: u8) -> int
    decreases s.len(),
{
    if s.len() == 0 {
        0
    } else if s[0] == b {
        0
    } else {
        1 + index_of(s.skip(1), b)
    }
}

/// The pieces of `s` between occurrences of `sep`. There is always at least
/// one piece; `n` separators give `n + 1` pieces, some of them possibly empty.
pub open spec fn split(s: Seq<u8>, sep: u8) -> Seq<Seq<u8>>
    decreases s.len(),
{
    let i = index_of(s, sep);
    if 0 <= i < s.len() {
        seq![s.take(i)] + split(s.skip(i + 1), sep)
    } else {
        seq![s]
    }
}

/// The pieces written one after another with `sep` between neighbours.
pub open spec fn join<A>(parts: Seq<Seq<A>>, sep: Seq<A>) -> Seq<A>
    decreases parts.len(),
{
    if parts.len() == 0 {
        Seq::empty()
    } else if parts.len() == 1 {
        parts[0]
    } else {
        join(parts.drop_last(), sep) + sep + parts.last()
    }
}

/// The texts held by a vector of strings.
pub open spec fn texts(v: Seq<String>) -> Seq<Seq<char>> {
    Seq::new(v.len(), |i: int| v[i]@)
}

/// The byte sequences held by a vector of byte vectors.
pub open spec fn views(v: Seq<Vec<u8>>) -> Seq<Seq<u8>> {
    Seq::new(v.len(), |i: int| v[i]@)
}

pub open spec fn is_digit(b: u8) -> bool {
    0x30 <= b && b <= 0x39
}

pub open spec fn all_digits(s: Seq<u8>) -> bool {
    forall|i: int| 0 <= i < s.len() ==> is_digit(#[trigger] s[i])
}

/// The number that a run of decimal digits denotes.
pub open spec fn digits_value(s: Seq<u8>) -> nat
    decreases s.len(),
{
    if s.len() == 0 {
        0
    } else {
        (digits_value(s.drop_last()) * 10 + (s.last() - 0x30)) as nat
    }
}

/// The digits of a numeral with its optional leading plus sign taken off.
pub open spec fn unsigned_part(s: Seq<u8>) -> Seq<u8> {
    if s.len() > 0 && s[0] == PLUS {
        s.skip(1)
    } else {
        s
    }
}

/// The value of a decimal numeral: an optional `+`, then at least one digit
/// and nothing else, denoting a number that fits in `usize`.
pub open spec fn parse_usize_spec(s: Seq<u8>) -> Option<usize> {
    let d = unsigned_part(s);
    if d.len() > 0 && all_digits(d) && digits_value(d) <= usize::MAX {
        Some(digits_value(d) as usize)
    } else {
        None
    }
}

/// The shortest decimal numeral of `n`.
pub open spec fn decimal(n: nat) -> Seq<u8>
    decreases n,
{
    if n < 10 {
        seq![(0x30 + n) as u8]
    } else {
        decimal(n / 10).push((0x30 + n % 10) as u8)
    }
}

/// The bytes of a text made of ASCII characters only: one byte per character.
pub open spec fn ascii(s: Seq<char>) -> Seq<u8> {
    Seq::new(s.len(), |i: int| s[i] as u8)
}

/// Returns the bytes of a text, which for an ASCII text are its characters.
pub fn ascii_bytes<'a>(s: &'a str) -> (res: &'a [u8])
    ensures
        res@ == encode_utf8(s@),
        is_ascii_chars(s@) ==> res@ == ascii(s@),
{
    broadcast use is_ascii_spec_bytes;

    assert(is_ascii_chars(s@) ==> is_ascii(s));
    s.as_bytes()
}

pub fn is_space_byte(b: u8) -> (res: bool)
    ensures
        res == is_space(b),
{
    b == 0x20 || (0x09 <= b && b <= 0x0d)
}

/// Appends a copy of `src` to `dst`.
pub fn append_bytes(dst: &mut Vec<u8>, src: &[u8])
    ensures
        final(dst)@ == old(dst)@ + src@,
{
    let mut i: usize = 0;
    while i < src.len()
        invariant
            0 <= i <= src@.len(),
            dst@ == old(dst)@ + src@.take(i as int),
        decreases src@.len() - i,
    {
        dst.push(src[i]);
        i += 1;
        assert(dst@ =~= old(dst)@ + src@.take(i as int));
    }
    assert(src@.take(src@.len() as int) =~= src@);
}

/// Copies `s[from..to]` into a fresh vector.
pub(crate) fn copy_range(s: &[u8], from: usize, to: usize) -> (res: Vec<u8>)
    requires
        from <= to <= s@.len(),
    ensures
        res@ == s@.subrange(from as int, to as int),
{
    let mut out: Vec<u8> = Vec::new();
    append_bytes(&mut out, slice_subrange(s, from, to));
    assert(out@ =~= s@.subrange(from as int, to as int));
    out
}

pub fn bytes_eq(a: &[u8], b: &[u8]) -> (res: bool)
    ensures
        res == (a@ == b@),
{
    if a.len() != b.len() {
        return false;
    }
    let mut i: usize = 0;
    while i < a.len()
        invariant
            0 <= i <= a@.len(),
            a@.len() == b@.len(),
            forall|k: int| 0 <= k < i ==> a@[k] == b@[k],
        decreases a@.len() - i,
    {
        if a[i] != b[i] {
            return false;
        }
        i += 1;
    }
    assert(a@ =~= b@);
    true
}

proof fn lemma_trim_start_skip(s: Seq<u8>, i: int)
    requires
        0 <= i <= s.len(),
        forall|k: int| 0 <= k < i ==> is_space(#[trigger] s[k]),
    ensures
        trim_start(s) == trim_start(s.skip(i)),
    decreases i,
{
    if i > 0 {
        assert(s.skip(1).skip(i - 1) =~= s.skip(i));
        lemma_trim_start_skip(s.skip(1), i - 1);
    } else {
        assert(s.skip(0) =~= s);
    }
}

proof fn lemma_trim_end_take(s: Seq<u8>, j: int)
    requires
        0 <= j <= s.len(),
        forall|k: int| j <= k < s.len() ==> is_space(#[trigger] s[k]),
    ensures
        trim_end(s) == trim_end(s.take(j)),
    decreases s.len() - j,
{
    if j < s.len() {
        assert(s.drop_last().take(j) =~= s.take(j));
        lemma_trim_end_take(s.drop_last(), j);
    } else {
        assert(s.take(j) =~= s);
    }
}

/// Trimming keeps exactly the bytes from the first to the last that is no
/// white space.
pub proof fn lemma_trim_is(s: Seq<u8>, lo: int, hi: int)
    requires
        0 <= lo <= hi <= s.len(),
        forall|k: int| 0 <= k < lo ==> is_space(#[trigger] s[k]),
        forall|k: int| hi <= k < s.len() ==> is_space(#[trigger] s[k]),
        lo < hi ==> !is_space(s[lo]) && !is_space(s[hi - 1]),
    ensures
        trim(s) == s.subrange(lo, hi),
{
    let t = s.skip(lo);
    lemma_trim_start_skip(s, lo);
    if lo < hi {
        assert(t[0] == s[lo]);
        assert(trim_start(s) == t);
        let j = hi - lo;
        assert forall|k: int| j <= k < t.len() implies is_space(#[trigger] t[k]) by {
            assert(t[k] == s[k + lo]);
        }
        lemma_trim_end_take(t, j);
        let u = t.take(j);
        assert(u =~= s.subrange(lo, hi));
        assert(u.last() == s[hi - 1]);
        assert(trim_end(u) == u);
    } else {
        // Every byte from `lo` on is white space.
        lemma_trim_start_skip(t, t.len() as int);
        assert(t.skip(t.len() as int) =~= Seq::<u8>::empty());
        assert(trim_start(Seq::<u8>::empty()) == Seq::<u8>::empty());
        assert(trim_end(Seq::<u8>::empty()) == Seq::<u8>::empty());
        assert(s.subrange(lo, hi) =~= Seq::<u8>::empty());
    }
}

/// The bounds between which trimming keeps the bytes of `s`.
pub proof fn lemma_trim_bounds(s: Seq<u8>) -> (bounds: (int, int))
    ensures
        0 <= bounds.0 <= bounds.1 <= s.len(),
        trim(s) == s.subrange(bounds.0, bounds.1),
        forall|k: int| 0 <= k < bounds.0 ==> is_space(#[trigger] s[k]),
        forall|k: int| bounds.1 <= k < s.len() ==> is_space(#[trigger] s[k]),
        bounds.0 < bounds.1 ==> !is_space(s[bounds.0]) && !is_space(s[bounds.1 - 1]),
        bounds.0 == bounds.1 ==> bounds.0 == s.len(),
{
    let lo = lemma_first_kept(s, 0);
    let hi = lemma_last_kept(s, lo, s.len() as int);
    lemma_trim_is(s, lo, if lo < hi { hi } else { lo });
    if lo < hi {
        (lo, hi)
    } else {
        (lo, lo)
    }
}

proof fn lemma_first_kept(s: Seq<u8>, from: int) -> (lo: int)
    requires
        0 <= from <= s.len(),
        forall|k: int| 0 <= k < from ==> is_space(#[trigger] s[k]),
    ensures
        from <= lo <= s.len(),
        forall|k: int| 0 <= k < lo ==> is_space(#[trigger] s[k]),
        lo < s.len() ==> !is_space(s[lo]),
    decreases s.len() - from,
{
    if from < s.len() && is_space(s[from]) {
        lemma_first_kept(s, from + 1)
    } else {
        from
    }
}

proof fn lemma_last_kept(s: Seq<u8>, lo: int, upto: int) -> (hi: int)
    requires
        0 <= lo <= upto <= s.len(),
        forall|k: int| upto <= k < s.len() ==> is_space(#[trigger] s[k]),
        lo < s.len() ==> !is_space(s[lo]),
    ensures
        lo <= hi <= upto,
        forall|k: int| hi <= k < s.len() ==> is_space(#[trigger] s[k]),
        lo < hi ==> !is_space(s[hi - 1]),
        lo == hi ==> lo == s.len(),
    decreases upto - lo,
{
    if lo < upto && is_space(s[upto - 1]) {
        lemma_last_kept(s, lo, upto - 1)
    } else {
        upto
    }
}

/// Returns the bounds of `s` without the white space at either end.
pub fn trim_bounds(s: &[u8]) -> (res: (usize, usize))
    ensures
        res.0 <= res.1 <= s@.len(),
        s@.subrange(res.0 as int, res.1 as int) == trim(s@),
{
    let mut lo: usize = 0;
    while lo < s.len() && is_space_byte(s[lo])
        invariant
            0 <= lo <= s@.len(),
            forall|k: int| 0 <= k < lo ==> is_space(#[trigger] s@[k]),
        decreases s@.len() - lo,
    {
        lo += 1;
    }
    let mut hi: usize = s.len();
    while hi > lo && is_space_byte(s[hi - 1])
        invariant
            lo <= hi <= s@.len(),
            forall|k: int| hi <= k < s@.len() ==> is_space(#[trigger] s@[k]),
        decreases hi,
    {
        hi -= 1;
    }
    proof {
        lemma_trim_is(s@, lo as int, hi as int);
    }
    (lo, hi)
}

/// Returns `s` without the white space at either end.
pub fn trim_bytes(s: &[u8]) -> (res: Vec<u8>)
    ensures
        res@ == trim(s@),
{
    let (lo, hi) = trim_bounds(s);
    copy_range(s, lo, hi)
}

/// Returns `s` with its ASCII capitals in lower case.
pub fn lower_bytes(s: &[u8]) -> (res: Vec<u8>)
    ensures
        res@ == lower(s@),
{
    let mut out: Vec<u8> = Vec::new();
    let mut i: usize = 0;
    while i < s.len()
        invariant
            0 <= i <= s@.len(),
            out@ == lower(s@.take(i as int)),
        decreases s@.len() - i,
    {
        let b: u8 = s[i];
        let c: u8 = if 0x41 <= b && b <= 0x5a {
            b + 0x20
        } else {
            b
        };
        out.push(c);
        i += 1;
        assert(out@ =~= lower(s@.take(i as int)));
    }
    assert(s@.take(s@.len() as int) =~= s@);
    out
}

pub proof fn lemma_index_of_bounds(s: Seq<u8>, b: u8)
    ensures
        0 <= index_of(s, b) <= s.len(),
        index_of(s, b) < s.len() ==> s[index_of(s, b)] == b,
        forall|k: int| 0 <= k < index_of(s, b) ==> #[trigger] s[k] != b,
    decreases s.len(),
{
    if s.len() > 0 && s[0] != b {
        lemma_index_of_bounds(s.skip(1), b);
        assert forall|k: int| 0 <= k < index_of(s, b) implies #[trigger] s[k] != b by {
            if k > 0 {
                assert(s[k] == s.skip(1)[k - 1]);
            }
        }
    }
}

/// The first position is the only one that is at or before every occurrence
/// and is itself an occurrence or the end.
pub proof fn lemma_index_of_unique(s: Seq<u8>, b: u8, i: int)
    requires
        0 <= i <= s.len(),
        i < s.len() ==> s[i] == b,
        forall|k: int| 0 <= k < i ==> #[trigger] s[k] != b,
    ensures
        index_of(s, b) == i,
{
    lemma_index_of_bounds(s, b);
    let j = index_of(s, b);
    if j < i {
        assert(s[j] != b);
    } else if i < j {
        assert(s[i] != b);
    }
}

/// Returns the position of the first `b` at or after `from`, or `s.len()`.
pub(crate) fn find_byte(s: &[u8], from: usize, b: u8) -> (res: usize)
    requires
        from <= s@.len(),
    ensures
        from <= res <= s@.len(),
        res == from + index_of(s@.skip(from as int), b),
{
    let mut i: usize = from;
    while i < s.len() && s[i] != b
        invariant
            from <= i <= s@.len(),
            forall|k: int| from <= k < i ==> #[trigger] s@[k] != b,
        decreases s@.len() - i,
    {
        i += 1;
    }
    proof {
        let t = s@.skip(from as int);
        assert forall|k: int| 0 <= k < i - from implies #[trigger] t[k] != b by {
            assert(t[k] == s@[k + from]);
        }
        lemma_index_of_unique(t, b, i - from);
    }
    i
}

/// Splits `s` at every `sep`.
pub fn split_bytes(s: &[u8], sep: u8) -> (res: Vec<Vec<u8>>)
    ensures
        views(res@) == split(s@, sep),
{
    let mut out: Vec<Vec<u8>> = Vec::new();
    let mut start: usize = 0;
    proof {
        assert(s@.skip(0) =~= s@);
        assert(views(out@) + split(s@, sep) =~= split(s@, sep));
    }
    loop
        invariant
            0 <= start <= s@.len(),
            split(s@, sep) == views(out@) + split(s@.skip(start as int), sep),
        decreases s@.len() - start,
    {
        let end: usize = find_byte(s, start, sep);
        let piece: Vec<u8> = copy_range(s, start, end);
        let ghost rest = s@.skip(start as int);
        let ghost before = views(out@);
        out.push(piece);
        proof {
            assert(rest.take(end - start) =~= s@.subrange(start as int, end as int));
            assert(views(out@) =~= before.push(piece@));
        }
        if end >= s.len() {
            proof {
                assert(rest.take(rest.len() as int) =~= rest);
                assert(split(rest, sep) =~= seq![rest]);
                assert(before + seq![rest] =~= before.push(rest));
            }
            return out;
        }
        proof {
            assert(rest.skip(end - start + 1) =~= s@.skip(end + 1));
            assert(before + (seq![piece@] + split(s@.skip(end + 1), sep)) =~= before.push(piece@)
                + split(s@.skip(end + 1), sep));
        }
        start = end + 1;
    }
}

/// Writes the pieces one after another with `sep` between neighbours.
pub fn join_bytes(parts: &Vec<Vec<u8>>, sep: &[u8]) -> (res: Vec<u8>)
    ensures
        res@ == join(views(parts@), sep@),
{
    let mut out: Vec<u8> = Vec::new();
    let mut i: usize = 0;
    while i < parts.len()
        invariant
            0 <= i <= parts@.len(),
            out@ == join(views(parts@).take(i as int), sep@),
        decreases parts@.len() - i,
    {
        let ghost done = views(parts@).take(i as int);
        let ghost next = views(parts@).take(i + 1);
        proof {
            assert(next.drop_last() =~= done);
            assert(next.last() == parts@[i as int]@);
        }
        if i > 0 {
            append_bytes(&mut out, sep);
        }
        append_bytes(&mut out, parts[i].as_slice());
        proof {
            if i == 0 {
                assert(out@ =~= parts@[0]@);
            }
        }
        i += 1;
    }
    assert(views(parts@).take(parts@.len() as int) =~= views(parts@));
    out
}

/// Splitting on a byte and joining on the same byte gives the sequence back.
pub proof fn lemma_join_split(s: Seq<u8>, sep: u8)
    ensures
        join(split(s, sep), seq![sep]) == s,
        split(s, sep).len() >= 1,
    decreases s.len(),
{
    lemma_index_of_bounds(s, sep);
    let i = index_of(s, sep);
    if i < s.len() {
        let rest = s.skip(i + 1);
        lemma_join_split(rest, sep);
        lemma_join_prepend(s.take(i), split(rest, sep), seq![sep]);
        assert(s.take(i) + seq![sep] + rest =~= s);
    }
}

/// Joining with one more piece in front.
pub proof fn lemma_join_prepend<A>(head: Seq<A>, tail: Seq<Seq<A>>, sep: Seq<A>)
    requires
        tail.len() >= 1,
    ensures
        join(seq![head] + tail, sep) == head + sep + join(tail, sep),
    decreases tail.len(),
{
    let all = seq![head] + tail;
    assert(all.last() == tail.last());
    if tail.len() == 1 {
        assert(all.drop_last() =~= seq![head]);
        assert(join(seq![head], sep) == head);
    } else {
        assert(all.drop_last() =~= seq![head] + tail.drop_last());
        lemma_join_prepend(head, tail.drop_last(), sep);
        assert(head + sep + join(tail.drop_last(), sep) + sep + tail.last() =~= head + sep + (join(
            tail.drop_last(),
            sep,
        ) + sep + tail.last()));
    }
}

/// Reads a decimal numeral; `None` when `s` is not one or its value does not
/// fit in `usize`.
pub fn parse_usize(s: &[u8]) -> (res: Option<usize>)
    ensures
        res == parse_usize_spec(s@),
{
    let start: usize = if s.len() > 0 && s[0] == PLUS {
        1
    } else {
        0
    };
    let ghost d = unsigned_part(s@);
    assert(d =~= s@.skip(start as int));
    if start >= s.len() {
        return None;
    }
    let mut acc: usize = 0;
    let mut i: usize = start;
    while i < s.len()
        invariant
            start <= i <= s@.len(),
            d == s@.skip(start as int),
            d == unsigned_part(s@),
            all_digits(d.take(i - start)),
            acc == digits_value(d.take(i - start)),
        decreases s@.len() - i,
    {
        let b: u8 = s[i];
        let ghost next = d.take(i - start + 1);
        proof {
            assert(next.drop_last() =~= d.take(i - start));
            assert(next.last() == b);
            lemma_digits_value_monotone(d, i - start + 1);
        }
        if !(0x30 <= b && b <= 0x39) {
            assert(!all_digits(d)) by {
                if all_digits(d) {
                    assert(is_digit(d[i - start]));
                }
            }
            return None;
        }
        let digit: usize = (b - 0x30) as usize;
        if acc > (usize::MAX - digit) / 10 {
            proof {
                assert(acc * 10 + digit > usize::MAX) by (nonlinear_arith)
                    requires
                        acc > (usize::MAX - digit) / 10,
                        0 <= digit <= usize::MAX,
                ;
                assert(digits_value(next) == acc * 10 + digit);
                assert(all_digits(d) ==> digits_value(d) >= digits_value(next));
            }
            return None;
        }
        proof {
            assert(acc * 10 + digit <= usize::MAX) by (nonlinear_arith)
                requires
                    acc <= (usize::MAX - digit) / 10,
                    0 <= digit <= usize::MAX,
            ;
        }
        acc = acc * 10 + digit;
        i += 1;
        assert(all_digits(next)) by {
            assert forall|k: int| 0 <= k < next.len() implies is_digit(#[trigger] next[k]) by {
                if k < next.len() - 1 {
                    assert(d.take(i - start - 1)[k] == next[k]);
                }
            }
        }
    }
    assert(d.take(d.len() as int) =~= d);
    Some(acc)
}

/// A numeral's value is at least the value of each of its prefixes.
pub proof fn lemma_digits_value_monotone(d: Seq<u8>, n: int)
    requires
        0 <= n <= d.len(),
    ensures
        all_digits(d) ==> digits_value(d) >= digits_value(d.take(n)),
    decreases d.len() - n,
{
    if all_digits(d) {
        if n < d.len() {
            assert(d.drop_last().take(n) =~= d.take(n));
            assert(all_digits(d.drop_last()));
            lemma_digits_value_monotone(d.drop_last(), n);
            assert(is_digit(d[d.len() - 1]));
        } else {
            assert(d.take(n) =~= d);
        }
    }
}

/// A number's numeral reads back as the number.
pub proof fn lemma_decimal_value(n: nat)
    ensures
        decimal(n).len() >= 1,
        all_digits(decimal(n)),
        digits_value(decimal(n)) == n,
        unsigned_part(decimal(n)) == decimal(n),
    decreases n,
{
    if n < 10 {
        let s = decimal(n);
        assert(s.drop_last() =~= Seq::<u8>::empty());
        assert(digits_value(s.drop_last()) == 0);
    } else {
        lemma_decimal_value(n / 10);
        let s = decimal(n);
        assert(s.drop_last() =~= decimal(n / 10));
        assert(s[0] == decimal(n / 10)[0]);
        assert(is_digit(decimal(n / 10)[0]));
    }
}

/// Reading the numeral of a `usize` gives that `usize`.
pub proof fn lemma_parse_decimal(n: usize)
    ensures
        parse_usize_spec(decimal(n as nat)) == Some(n),
{
    lemma_decimal_value(n as nat);
}

/// Writes `n` as its shortest decimal numeral.
pub fn format_usize(n: usize) -> (res: Vec<u8>)
    ensures
        res@ == decimal(n as nat),
{
    let mut out: Vec<u8> = Vec::new();
    let mut rest: usize = n;
    proof {
        assert(decimal(rest as nat) + out@ =~= decimal(n as nat));
    }
    while rest >= 10
        invariant
            decimal(n as nat) == decimal(rest as nat) + out@,
        decreases rest,
    {
        let digit: u8 = (rest % 10) as u8;
        let ghost tail = out@;
        out.insert(0, 0x30 + digit);
        proof {
            let front = decimal((rest / 10) as nat);
            assert(decimal(rest as nat) == front.push((0x30 + digit) as u8));
            assert(front.push((0x30 + digit) as u8) + tail =~= front + out@);
        }
        rest = rest / 10;
    }
    let ghost tail = out@;
    out.insert(0, 0x30 + (rest as u8));
    proof {
        assert(decimal(rest as nat) + tail =~= out@);
    }
    out
}

/// Tells whether two strings hold the same text.
pub fn str_eq(a: &str, b: &str) -> (res: bool)
    ensures
        res == (a@ == b@),
{
    let res = bytes_eq(a.as_bytes(), b.as_bytes());
    proof {
        encode_utf8_decode_utf8(a@);
        encode_utf8_decode_utf8(b@);
    }
    res
}

/// Writes the strings one after another with `sep` between neighbours.
pub fn join_strings(parts: &Vec<String>, sep: &str) -> (res: String)
    ensures
        res@ == join(texts(parts@), sep@),
{
    let mut out = String::new();
    let mut i: usize = 0;
    while i < parts.len()
        invariant
            0 <= i <= parts@.len(),
            out@ == join(texts(parts@).take(i as int), sep@),
        decreases parts@.len() - i,
    {
        let ghost done = texts(parts@).take(i as int);
        let ghost next = texts(parts@).take(i + 1);
        proof {
            assert(next.drop_last() =~= done);
            assert(next.last() == parts@[i as int]@);
        }
        if i > 0 {
            out.append(sep);
        }
        out.append(parts[i].as_str());
        proof {
            if i == 0 {
                assert(out@ =~= parts@[0]@);
            }
        }
        i += 1;
    }
    assert(texts(parts@).take(parts@.len() as int) =~= texts(parts@));
    out
}

} // verus!
