use misskey_client::text::{
    append_bytes, ascii_bytes, bytes_eq, format_usize, is_space_byte, join_bytes, join_strings,
    lower_bytes, parse_usize, split_bytes, str_eq, trim_bounds, trim_bytes,
};

#[test]
fn white_space_is_the_six_ascii_bytes() {
    for b in 0u8..=255 {
        let expected = matches!(b, 0x09 | 0x0a | 0x0b | 0x0c | 0x0d | 0x20);
        assert_eq!(is_space_byte(b), expected, "byte {}", b);
    }
}

#[test]
fn trim_takes_both_ends() {
    assert_eq!(trim_bytes(b"  a b \r\n"), b"a b".to_vec());
    assert_eq!(trim_bytes(b"\t\x0b\x0cx"), b"x".to_vec());
    assert_eq!(trim_bytes(b"x"), b"x".to_vec());
}

#[test]
fn trim_of_blank_is_empty() {
    assert_eq!(trim_bytes(b""), Vec::<u8>::new());
    assert_eq!(trim_bytes(b" \r\n\t "), Vec::<u8>::new());
}

#[test]
fn trim_keeps_bytes_outside_ascii() {
    // U+00A0, a no-break space, is two bytes that are no ASCII white space.
    assert_eq!(trim_bytes(b" \xc2\xa0x\xc2\xa0 "), b"\xc2\xa0x\xc2\xa0".to_vec());
}

#[test]
fn trim_bounds_are_the_kept_range() {
    assert_eq!(trim_bounds(b"  ab  "), (2, 4));
    assert_eq!(trim_bounds(b"ab"), (0, 2));
    let (lo, hi) = trim_bounds(b"    ");
    assert_eq!(lo, hi);
}

#[test]
fn lower_folds_ascii_capitals_only() {
    assert_eq!(lower_bytes(b"Content-LENGTH"), b"content-length".to_vec());
    assert_eq!(lower_bytes(b"@[`{AZaz09"), b"@[`{azaz09".to_vec());
    assert_eq!(lower_bytes("É".as_bytes()), "É".as_bytes().to_vec());
}

#[test]
fn split_gives_one_piece_more_than_separators() {
    assert_eq!(split_bytes(b"a b  c", b' '), vec![b"a".to_vec(), b"b".to_vec(), vec![], b"c".to_vec()]);
    assert_eq!(split_bytes(b"", b' '), vec![Vec::<u8>::new()]);
    assert_eq!(split_bytes(b"abc", b' '), vec![b"abc".to_vec()]);
    assert_eq!(split_bytes(b" ", b' '), vec![Vec::<u8>::new(), Vec::<u8>::new()]);
    assert_eq!(split_bytes(b"a\nb\n", b'\n'), vec![b"a".to_vec(), b"b".to_vec(), vec![]]);
}

#[test]
fn join_puts_separator_between_neighbours() {
    let parts = vec![b"a".to_vec(), b"".to_vec(), b"c".to_vec()];
    assert_eq!(join_bytes(&parts, b", "), b"a, , c".to_vec());
    assert_eq!(join_bytes(&vec![b"only".to_vec()], b"&"), b"only".to_vec());
    assert_eq!(join_bytes(&Vec::new(), b"&"), Vec::<u8>::new());
}

#[test]
fn join_undoes_split() {
    for text in ["", "a", "a b", " a  b ", "HTTP/1.1 200 Very  OK", "   "] {
        let pieces = split_bytes(text.as_bytes(), b' ');
        assert_eq!(join_bytes(&pieces, b" "), text.as_bytes().to_vec());
    }
}

#[test]
fn join_strings_matches_join_bytes() {
    let parts = vec!["read:account".to_string(), "write:notes".to_string()];
    assert_eq!(join_strings(&parts, ","), "read:account,write:notes");
    assert_eq!(join_strings(&Vec::new(), ","), "");
    assert_eq!(join_strings(&vec!["x".to_string()], ","), "x");
}

#[test]
fn parse_usize_reads_numerals() {
    assert_eq!(parse_usize(b"0"), Some(0));
    assert_eq!(parse_usize(b"27"), Some(27));
    assert_eq!(parse_usize(b"007"), Some(7));
    assert_eq!(parse_usize(b"+5"), Some(5));
    assert_eq!(parse_usize(usize::MAX.to_string().as_bytes()), Some(usize::MAX));
}

#[test]
fn parse_usize_refuses_everything_else() {
    assert_eq!(parse_usize(b""), None);
    assert_eq!(parse_usize(b"+"), None);
    assert_eq!(parse_usize(b"-1"), None);
    assert_eq!(parse_usize(b"12a"), None);
    assert_eq!(parse_usize(b" 12"), None);
    assert_eq!(parse_usize(b"12 "), None);
    assert_eq!(parse_usize(b"++1"), None);
    assert_eq!(parse_usize(b"1.5"), None);
}

#[test]
fn parse_usize_refuses_what_does_not_fit() {
    let mut too_big = usize::MAX.to_string();
    too_big.push('0');
    assert_eq!(parse_usize(too_big.as_bytes()), None);
    let next = (usize::MAX as u128 + 1).to_string();
    assert_eq!(parse_usize(next.as_bytes()), None);
}

#[test]
fn parse_usize_agrees_with_std() {
    for text in ["0", "1", "+1", "-1", "", "+", "99999", "0x10", "१२", "18446744073709551615", "18446744073709551616"] {
        assert_eq!(parse_usize(text.as_bytes()), text.parse::<usize>().ok(), "text {:?}", text);
    }
}

#[test]
fn format_usize_writes_shortest_numeral() {
    assert_eq!(format_usize(0), b"0".to_vec());
    assert_eq!(format_usize(7), b"7".to_vec());
    assert_eq!(format_usize(10), b"10".to_vec());
    assert_eq!(format_usize(12345), b"12345".to_vec());
    assert_eq!(format_usize(usize::MAX), usize::MAX.to_string().into_bytes());
}

#[test]
fn parse_undoes_format() {
    for n in [0usize, 1, 9, 10, 11, 99, 100, 101, 65535, 65536, 1 << 31, usize::MAX - 1, usize::MAX] {
        assert_eq!(parse_usize(&format_usize(n)), Some(n));
    }
}

#[test]
fn bytes_eq_compares_contents() {
    assert!(bytes_eq(b"", b""));
    assert!(bytes_eq(b"abc", b"abc"));
    assert!(!bytes_eq(b"abc", b"abd"));
    assert!(!bytes_eq(b"abc", b"ab"));
    assert!(!bytes_eq(b"ab", b"abc"));
}

#[test]
fn str_eq_compares_texts() {
    assert!(str_eq("", ""));
    assert!(str_eq("read:account", "read:account"));
    assert!(!str_eq("read:account", "read:accounts"));
    assert!(!str_eq("ノート", "ノード"));
    assert!(str_eq("ノート", "ノート"));
}

#[test]
fn append_moves_bytes_verbatim() {
    let mut v = b"ab".to_vec();
    append_bytes(&mut v, b"\r\n\x00\xff");
    assert_eq!(v, b"ab\r\n\x00\xff".to_vec());
    append_bytes(&mut v, b"");
    assert_eq!(v.len(), 6);
}

#[test]
fn ascii_bytes_are_the_characters() {
    assert_eq!(ascii_bytes("Content-Length"), b"Content-Length");
    assert_eq!(ascii_bytes(""), b"");
    assert_eq!(ascii_bytes("é"), [0xc3, 0xa9]);
}
