use speechlab::vocab::{detokenize, parse_u32, parse_vocab};

#[test]
fn vocab_in_both_orders() {
    let (m, blank) = parse_vocab("▁при 0\n3 вет\n<blk> 2\n\nbad line here\n", "v.txt").unwrap();
    assert_eq!(m.len(), 3);
    assert_eq!(m[&0], "▁при");
    assert_eq!(m[&3], "вет");
    assert_eq!(blank, 2);
    assert_eq!(detokenize(&vec![0, 3, 7, 0], &m), "привет при");
}

#[test]
fn vocab_blank_defaults_to_zero_and_later_lines_win() {
    let (m, blank) = parse_vocab("a 1\r\nb 1\r\n", "v").unwrap();
    assert_eq!(m.len(), 1);
    assert_eq!(m[&1], "b");
    assert_eq!(blank, 0);
    let (_, blank) = parse_vocab("x 4\n<blank> 5", "v").unwrap();
    assert_eq!(blank, 5);
}

#[test]
fn empty_vocab_is_an_error() {
    assert_eq!(parse_vocab("\n\none two three\n", "D:\\v.txt").err(), Some("vocab пуст или не распознан: D:\\v.txt".to_string()));
}

#[test]
fn numbers_parse_like_u32() {
    let p = |s: &str| parse_u32(&s.chars().collect());
    assert_eq!(p("42"), Some(42));
    assert_eq!(p("+7"), Some(7));
    assert_eq!(p("4294967295"), Some(u32::MAX));
    assert_eq!(p("4294967296"), None);
    assert_eq!(p("-1"), None);
    assert_eq!(p("+"), None);
    assert_eq!(p(""), None);
    assert_eq!(p("1a"), None);
    for s in ["0", "17", "+0", "99999999999", "x", "00012"] {
        assert_eq!(p(s), s.parse::<u32>().ok());
    }
}

#[test]
fn unicode_spaces_are_trimmed() {
    assert_eq!(speechlab::text::trim_str("\u{3000}при\u{00A0}"), "при");
    assert_eq!(speechlab::text::trim_str("\u{2009}a b\u{85}"), "a b");
}
