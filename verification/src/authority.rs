//! The host, and optionally the port, of the server a client talks to.

use crate::errors::MisskeyConnectionError;
use crate::text::{
    all_digits, digits_value, find_byte, index_of, is_digit, lemma_index_of_bounds, parse_usize,
    unsigned_part, COLON,
};
use vstd::prelude::*;
use vstd::slice::slice_subrange;
use vstd::string::*;
use vstd::utf8::encode_utf8;

verus! {

pub const OPEN_BRACKET: u8 = 0x5b;

pub const CLOSE_BRACKET: u8 = 0x5d;

pub open spec fn is_alpha(b: u8) -> bool {
    (0x41 <= b && b <= 0x5a) || (0x61 <= b && b <= 0x7a)
}

/// The bytes of a registered name: letters, digits, and the marks
/// `- . _ ~ % ! $ & ' ( ) * + , ; =`.
pub open spec fn is_name_byte(b: u8) -> bool {
    is_alpha(b) || is_digit(b) || b == 0x2d || b == 0x2e || b == 0x5f || b == 0x7e || b == 0x25
        || b == 0x21 || b == 0x24 || (0x26 <= b && b <= 0x2c) || b == 0x3b || b == 0x3d
}

/// The bytes between the brackets of an address literal: hexadecimal digits,
/// colons and dots.
pub open spec fn is_literal_byte(b: u8) -> bool {
    is_digit(b) || (0x41 <= b && b <= 0x46) || (0x61 <= b && b <= 0x66) || b == COLON || b == 0x2e
}

/// A port: one to five digits that denote a number up to 65535.
pub open spec fn valid_port(p: Seq<u8>) -> bool {
    1 <= p.len() <= 5 && all_digits(p) && digits_value(p) <= 65535
}

/// What may follow the host: nothing, or a colon and a port.
pub open spec fn valid_port_suffix(t: Seq<u8>) -> bool {
    t.len() == 0 || (t[0] == COLON && valid_port(t.skip(1)))
}

/// The length of the host part of `s`: up to and including the closing
/// bracket where `s` starts with a bracket, else up to the first colon.
pub open spec fn host_len(s: Seq<u8>) -> int {
    if s.len() > 0 && s[0] == OPEN_BRACKET {
        index_of(s, CLOSE_BRACKET) + 1
    } else {
        index_of(s, COLON)
    }
}

/// `s` is an authority: a host, then nothing or a colon and a port. The host
/// is a registered name that is not empty, or an address literal in
/// brackets that is not empty.
pub open spec fn valid_authority(s: Seq<u8>) -> bool {
    let h = host_len(s);
    if s.len() > 0 && s[0] == OPEN_BRACKET {
        &&& 3 <= h <= s.len()
        &&& forall|i: int| 1 <= i < h - 1 ==> is_literal_byte(#[trigger] s[i])
        &&& valid_port_suffix(s.skip(h))
    } else {
        &&& 1 <= h <= s.len()
        &&& forall|i: int| 0 <= i < h ==> is_name_byte(#[trigger] s[i])
        &&& valid_port_suffix(s.skip(h))
    }
}

/// A byte that shows: ASCII, neither white space nor a control.
pub open spec fn is_visible(b: u8) -> bool {
    0x21 <= b && b <= 0x7e
}

/// Every byte of an authority shows.
pub proof fn lemma_authority_is_visible(s: Seq<u8>)
    requires
        valid_authority(s),
    ensures
        forall|i: int| 0 <= i < s.len() ==> is_visible(#[trigger] s[i]),
        0 < host_len(s) <= s.len(),
{
    let h = host_len(s);
    assert forall|i: int| 0 <= i < s.len() implies is_visible(#[trigger] s[i]) by {
        if i >= h {
            let t = s.skip(h);
            assert(t[i - h] == s[i]);
            if i > h {
                let p = t.skip(1);
                assert(p[i - h - 1] == s[i]);
                assert(is_digit(p[i - h - 1]));
            }
        } else if s[0] == OPEN_BRACKET {
            lemma_index_of_bounds(s, CLOSE_BRACKET);
            if 1 <= i < h - 1 {
                assert(is_literal_byte(s[i]));
            }
        } else {
            assert(is_name_byte(s[i]));
        }
    }
}

/// The host, and optionally the port, of a server.
#[derive(Debug)]
pub struct Authority {
    source: String,
    host_len: usize,
}

impl View for Authority {
    type V = Seq<char>;

    closed spec fn view(&self) -> Seq<char> {
        self.source@
    }
}

impl Authority {
    #[verifier::type_invariant]
    spec fn is_valid(&self) -> bool {
        valid_authority(encode_utf8(self.source@)) && self.host_len == host_len(
            encode_utf8(self.source@),
        )
    }

    /// The authority as it goes over the wire.
    pub open spec fn bytes(&self) -> Seq<u8> {
        encode_utf8(self@)
    }

    /// The host part of the authority.
    pub open spec fn host_spec(&self) -> Seq<u8> {
        self.bytes().take(host_len(self.bytes()))
    }

    /// Reads an authority; fails where the text is none.
    pub fn parse(text: &str) -> (res: Result<Authority, MisskeyConnectionError>)
        ensures
            match res {
                Ok(a) => a@ == text@ && valid_authority(a.bytes()),
                Err(e) => e is InvalidAuthorityError && !valid_authority(text.spec_bytes()),
            },
    {
        match measure_host(text.as_bytes()) {
            Some(h) => Ok(Authority { source: text.to_owned(), host_len: h }),
            None => Err(MisskeyConnectionError::InvalidAuthorityError),
        }
    }

    /// Returns the whole authority.
    pub fn as_str(&self) -> (res: &str)
        ensures
            res@ == self@,
            valid_authority(self.bytes()),
    {
        proof {
            use_type_invariant(self);
        }
        self.source.as_str()
    }

    /// Returns the host without the port.
    pub fn host(&self) -> (res: &[u8])
        ensures
            res@ == self.host_spec(),
            valid_authority(self.bytes()),
    {
        proof {
            use_type_invariant(self);
            lemma_authority_is_visible(self.bytes());
        }
        let res = slice_subrange(self.source.as_str().as_bytes(), 0, self.host_len);
        assert(res@ =~= self.bytes().take(self.host_len as int));
        res
    }
}

/// Tells whether `s[from..to]` holds bytes of a registered name only.
fn only_name_bytes(s: &[u8], from: usize, to: usize) -> (res: bool)
    requires
        from <= to <= s@.len(),
    ensures
        res == forall|i: int| from <= i < to ==> is_name_byte(#[trigger] s@[i]),
{
    let mut i: usize = from;
    while i < to
        invariant
            from <= i <= to <= s@.len(),
            forall|k: int| from <= k < i ==> is_name_byte(#[trigger] s@[k]),
        decreases to - i,
    {
        let b: u8 = s[i];
        let ok = (0x41 <= b && b <= 0x5a) || (0x61 <= b && b <= 0x7a) || (0x30 <= b && b <= 0x39)
            || b == 0x2d || b == 0x2e || b == 0x5f || b == 0x7e || b == 0x25 || b == 0x21 || b
            == 0x24 || (0x26 <= b && b <= 0x2c) || b == 0x3b || b == 0x3d;
        if !ok {
            return false;
        }
        i += 1;
    }
    true
}

/// Tells whether `s[from..to]` holds bytes of an address literal only.
fn only_literal_bytes(s: &[u8], from: usize, to: usize) -> (res: bool)
    requires
        from <= to <= s@.len(),
    ensures
        res == forall|i: int| from <= i < to ==> is_literal_byte(#[trigger] s@[i]),
{
    let mut i: usize = from;
    while i < to
        invariant
            from <= i <= to <= s@.len(),
            forall|k: int| from <= k < i ==> is_literal_byte(#[trigger] s@[k]),
        decreases to - i,
    {
        let b: u8 = s[i];
        let ok = (0x30 <= b && b <= 0x39) || (0x41 <= b && b <= 0x46) || (0x61 <= b && b <= 0x66)
            || b == COLON || b == 0x2e;
        if !ok {
            return false;
        }
        i += 1;
    }
    true
}

/// Tells whether `p` is a port.
pub fn is_port(p: &[u8]) -> (res: bool)
    ensures
        res == valid_port(p@),
{
    if p.len() < 1 || p.len() > 5 {
        return false;
    }
    if p[0] == crate::text::PLUS {
        assert(!is_digit(p@[0]));
        return false;
    }
    assert(unsigned_part(p@) == p@);
    match parse_usize(p) {
        Some(n) => n <= 65535,
        None => {
            proof {
                lemma_short_numeral_fits(p@);
            }
            false
        },
    }
}

/// Tells whether `t` is nothing, or a colon and a port.
pub fn is_port_suffix(t: &[u8]) -> (res: bool)
    ensures
        res == valid_port_suffix(t@),
{
    if t.len() == 0 {
        return true;
    }
    if t[0] != COLON {
        return false;
    }
    let port = slice_subrange(t, 1, t.len());
    assert(port@ =~= t@.skip(1));
    is_port(port)
}

/// Measures the host of an authority; `None` where `s` is no authority.
pub fn measure_host(s: &[u8]) -> (res: Option<usize>)
    ensures
        match res {
            Some(h) => valid_authority(s@) && h == host_len(s@),
            None => !valid_authority(s@),
        },
{
    proof {
        assert(s@.skip(0) =~= s@);
    }
    if s.len() > 0 && s[0] == OPEN_BRACKET {
        let close: usize = find_byte(s, 0, CLOSE_BRACKET);
        if close >= s.len() || close < 2 {
            return None;
        }
        if !only_literal_bytes(s, 1, close) {
            return None;
        }
        let rest = slice_subrange(s, close + 1, s.len());
        assert(rest@ =~= s@.skip(close + 1));
        if is_port_suffix(rest) {
            Some(close + 1)
        } else {
            None
        }
    } else {
        let colon: usize = find_byte(s, 0, COLON);
        if colon < 1 {
            return None;
        }
        if !only_name_bytes(s, 0, colon) {
            return None;
        }
        let rest = slice_subrange(s, colon, s.len());
        assert(rest@ =~= s@.skip(colon as int));
        if is_port_suffix(rest) {
            Some(colon)
        } else {
            None
        }
    }
}

/// A numeral of at most five digits denotes less than a hundred thousand.
pub proof fn lemma_short_numeral_fits(p: Seq<u8>)
    requires
        p.len() <= 5,
    ensures
        all_digits(p) ==> digits_value(p) < 100000,
{
    if all_digits(p) {
        lemma_numeral_bound(p);
        assert(pow10(0) == 1);
        assert(pow10(1) == 10 * pow10(0));
        assert(pow10(2) == 10 * pow10(1));
        assert(pow10(3) == 10 * pow10(2));
        assert(pow10(4) == 10 * pow10(3));
        assert(pow10(5) == 10 * pow10(4));
    }
}

pub open spec fn pow10(n: nat) -> nat
    decreases n,
{
    if n == 0 {
        1
    } else {
        10 * pow10((n - 1) as nat)
    }
}

/// A numeral of `n` digits denotes less than the `n`-th power of ten.
pub proof fn lemma_numeral_bound(p: Seq<u8>)
    requires
        all_digits(p),
    ensures
        digits_value(p) < pow10(p.len()),
    decreases p.len(),
{
    if p.len() > 0 {
        assert(all_digits(p.drop_last())) by {
            assert forall|i: int| 0 <= i < p.drop_last().len() implies is_digit(
                #[trigger] p.drop_last()[i],
            ) by {
                assert(p.drop_last()[i] == p[i]);
            }
        }
        lemma_numeral_bound(p.drop_last());
        assert(is_digit(p[p.len() - 1]));
    }
}

} // verus!
