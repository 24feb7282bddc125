use setlyst::text;

/// Texts with blank ends, several kinds of white space, line ends and
/// letters of more than one byte.
const SAMPLES: [&str; 16] = [
    "",
    " ",
    "a",
    "\n",
    "\r\n",
    "a\r\nb\r\n\r\nc",
    "a\rb",
    "a\r",
    "  two  words\t",
    "\u{A0}caf\u{E9}\u{3000}",
    "aaa",
    "aaaa",
    "a,b,,c,",
    ",",
    "\u{1D11E} clef \u{1F3B5}",
    "x\n\ny\n",
];

#[test]
fn characters_are_classified_as_in_unicode() {
    for c in '\u{0}'..=char::MAX {
        assert_eq!(text::char_is_space(c), c.is_whitespace(), "{:?}", c);
        assert_eq!(text::char_is_control(c), c.is_control(), "{:?}", c);
        assert_eq!(text::char_is_digit(c), c.is_ascii_digit(), "{:?}", c);
        assert_eq!(text::char_is_lower(c), c.is_ascii_lowercase(), "{:?}", c);
        assert_eq!(text::char_is_upper(c), c.is_ascii_uppercase(), "{:?}", c);
        assert_eq!(text::char_is_alnum(c), c.is_ascii_alphanumeric(), "{:?}", c);
        assert_eq!(text::char_lower(c), c.to_ascii_lowercase(), "{:?}", c);
        assert_eq!(text::char_upper(c), c.to_ascii_uppercase(), "{:?}", c);
    }
}

#[test]
fn texts_are_trimmed_and_split_as_in_std() {
    for s in SAMPLES {
        assert_eq!(text::trimmed(s), s.trim(), "{:?}", s);
        assert_eq!(text::end_trimmed(s), s.trim_end(), "{:?}", s);
        assert_eq!(text::end_trimmed_of(s, 'a'), s.trim_end_matches('a'), "{:?}", s);
        assert_eq!(text::start_trimmed_of(s, 'a'), s.trim_start_matches('a'), "{:?}", s);
        assert_eq!(text::lines_of(s), s.lines().collect::<Vec<&str>>(), "{:?}", s);
        assert_eq!(text::words_of(s), s.split_whitespace().collect::<Vec<&str>>(), "{:?}", s);
        assert_eq!(
            text::squeezed(s),
            s.split_whitespace().collect::<Vec<&str>>().join(" "),
            "{:?}",
            s
        );
        assert_eq!(text::split_at(s, ','), s.split(',').collect::<Vec<&str>>(), "{:?}", s);
        assert_eq!(text::pieces_by(s, "\n\n"), s.split("\n\n").collect::<Vec<&str>>(), "{:?}", s);
        assert_eq!(text::pieces_by(s, "aa"), s.split("aa").collect::<Vec<&str>>(), "{:?}", s);
    }
}

#[test]
fn texts_are_searched_and_replaced_as_in_std() {
    for s in SAMPLES {
        for p in ["a", "aa", "\r\n", ",", "clef", "\u{E9}"] {
            assert_eq!(text::replaced(s, p, "-a"), s.replace(p, "-a"), "{:?} {:?}", s, p);
            assert_eq!(text::replaced(s, p, ""), s.replace(p, ""), "{:?} {:?}", s, p);
            assert_eq!(text::has(s, p), s.contains(p), "{:?} {:?}", s, p);
            assert_eq!(text::has_prefix(s, p), s.starts_with(p), "{:?} {:?}", s, p);
            assert_eq!(text::has_suffix(s, p), s.ends_with(p), "{:?} {:?}", s, p);
        }
        assert_eq!(text::has_char(s, 'b'), s.contains('b'), "{:?}", s);
        assert_eq!(text::cut_to(s, 3), s.chars().take(3).collect::<String>(), "{:?}", s);
        assert_eq!(text::lowered(s), s.to_ascii_lowercase(), "{:?}", s);
        assert_eq!(text::uppered(s), s.to_ascii_uppercase(), "{:?}", s);
    }
}

#[test]
fn numbers_are_written_in_decimal() {
    for n in [0u64, 1, 9, 10, 99, 100, 1_234_567, u64::MAX] {
        assert_eq!(text::decimal_of(n), n.to_string());
        assert_eq!(text::two_digits_of(n), format!("{:02}", n));
    }
    for n in [0i64, 7, -7, 1_000, -1_000, i64::MAX, i64::MIN] {
        assert_eq!(text::number_of(n), n.to_string());
    }
}

#[test]
fn texts_and_bytes_are_compared_whole() {
    for a in SAMPLES {
        for b in SAMPLES {
            assert_eq!(text::same(a, b), a == b, "{:?} {:?}", a, b);
            assert_eq!(
                text::same_in_constant_time(a.as_bytes(), b.as_bytes()),
                a == b,
                "{:?} {:?}",
                a,
                b
            );
        }
    }
    assert!(!text::same_in_constant_time(&[1, 2, 3], &[1, 2, 2]));
    assert!(!text::same_in_constant_time(&[0, 2, 3], &[1, 2, 3]));
}
