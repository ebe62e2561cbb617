use agent1::text::{
    chars, contains, decimal_text, decode, find, join, parse_decimal, replace, same,
    signed_decimal_text, text, trim,
};

#[test]
fn characters_of_a_text_and_back() {
    let v = chars("héllo");
    assert_eq!(v, vec!['h', 'é', 'l', 'l', 'o']);
    assert_eq!(text(&v, 0, v.len()), "héllo");
    assert_eq!(text(&v, 1, 3), "él");
    assert_eq!(text(&v, 2, 2), "");
}

#[test]
fn same_texts_are_told_from_others() {
    assert!(same("", ""));
    assert!(same("abc", "abc"));
    assert!(!same("abc", "abd"));
    assert!(!same("abc", "ab"));
    assert!(!same("abc", "ABC"));
}

#[test]
fn search_agrees_with_the_standard_library() {
    let hays = ["", "a", "abc", "aaa", "abcabc", "héllo wörld", "curl http://x"];
    let needles = ["", "a", "b", "bc", "abc", "abcd", "aa", "ö", "curl", "CURL", "ca"];
    for hay in hays {
        for needle in needles {
            assert_eq!(contains(hay, needle), hay.contains(needle), "{hay:?} {needle:?}");
        }
    }
}

#[test]
fn first_occurrence_is_found() {
    let hay = chars("abcabc");
    assert_eq!(find(&hay, &chars("bc"), 0), Some(1));
    assert_eq!(find(&hay, &chars("bc"), 1), Some(1));
    assert_eq!(find(&hay, &chars("bc"), 2), Some(4));
    assert_eq!(find(&hay, &chars("bc"), 5), None);
    assert_eq!(find(&hay, &chars(""), 6), Some(6));
    assert_eq!(find(&hay, &chars(""), 7), None);
    assert_eq!(find(&hay, &chars("abcabcd"), 0), None);
}

#[test]
fn replace_agrees_with_the_standard_library() {
    let cases = [
        ("", "a", "b"),
        ("aaa", "a", "bb"),
        ("aaa", "aa", "b"),
        ("abcabc", "abc", ""),
        ("abcabc", "x", "y"),
        ("ab", "abc", "y"),
        ("xxabxx", "ab", "ab"),
        ("ünïcödé", "ï", "i"),
    ];
    for (s, from, to) in cases {
        assert_eq!(replace(s, from, to), s.replace(from, to));
    }
}

#[test]
fn replace_with_an_empty_pattern_changes_nothing() {
    assert_eq!(replace("abc", "", "-"), "abc");
    assert_eq!(replace("", "", "-"), "");
}

#[test]
fn trim_agrees_with_the_standard_library() {
    let cases = [
        "",
        " ",
        "a",
        "  a  ",
        "\t\n a b \r\n",
        "/new\n",
        "no space",
        "\u{a0}non-breaking\u{a0}",
        "\u{3000}wide\u{2003}",
        "   ",
        " inner  space kept ",
    ];
    for s in cases {
        assert_eq!(trim(s), s.trim(), "{s:?}");
    }
}

#[test]
fn numbers_are_written_in_decimal() {
    assert_eq!(decimal_text(0), "0");
    assert_eq!(decimal_text(7), "7");
    assert_eq!(decimal_text(10), "10");
    assert_eq!(decimal_text(404), "404");
    assert_eq!(decimal_text(u64::MAX), "18446744073709551615");
    assert_eq!(signed_decimal_text(0), "0");
    assert_eq!(signed_decimal_text(-1), "-1");
    assert_eq!(signed_decimal_text(-120), "-120");
    assert_eq!(signed_decimal_text(i64::MAX), "9223372036854775807");
    assert_eq!(signed_decimal_text(i64::MIN), "-9223372036854775808");
}

#[test]
fn numbers_are_read_from_decimal() {
    assert_eq!(parse_decimal("0"), Some(0));
    assert_eq!(parse_decimal("42"), Some(42));
    assert_eq!(parse_decimal("007"), Some(7));
    assert_eq!(parse_decimal("18446744073709551615"), Some(u64::MAX));
    assert_eq!(parse_decimal("18446744073709551616"), None);
    assert_eq!(parse_decimal("99999999999999999999999"), None);
    assert_eq!(parse_decimal(""), None);
    assert_eq!(parse_decimal("-1"), None);
    assert_eq!(parse_decimal("+1"), None);
    assert_eq!(parse_decimal("1.0"), None);
    assert_eq!(parse_decimal("1e3"), None);
    assert_eq!(parse_decimal("12a"), None);
    assert_eq!(parse_decimal("99999999999999999999999x"), None);
    assert_eq!(parse_decimal("٣"), None);
}

#[test]
fn texts_are_joined() {
    let none: Vec<String> = Vec::new();
    assert_eq!(join(&none, ", "), "");
    assert_eq!(join(&vec!["a".to_string()], ", "), "a");
    assert_eq!(
        join(&vec!["src/main.rs".to_string(), "src/log.rs".to_string()], ", "),
        "src/main.rs, src/log.rs"
    );
    assert_eq!(
        join(&vec!["".to_string(), "".to_string(), "x".to_string()], "-"),
        "--x"
    );
}

#[test]
fn bytes_are_decoded_as_utf8() {
    assert_eq!(decode("héllo".as_bytes().to_vec()), Some("héllo".to_string()));
    assert_eq!(decode(Vec::new()), Some(String::new()));
    assert_eq!(decode(vec![0x80]), None);
}

/// A small deterministic generator of test inputs.
struct Inputs(u64);

impl Inputs {
    fn next(&mut self) -> u64 {
        self.0 = self.0.wrapping_mul(6364136223846793005).wrapping_add(1442695040888963407);
        self.0 >> 33
    }

    fn text(&mut self, alphabet: &[char], longest: u64) -> String {
        let len = self.next() % (longest + 1);
        (0..len)
            .map(|_| alphabet[(self.next() % alphabet.len() as u64) as usize])
            .collect()
    }
}

#[test]
fn search_and_replace_agree_with_the_standard_library_on_many_inputs() {
    let alphabet = ['a', 'b', 'é', '界'];
    let mut inputs = Inputs(7);
    for _ in 0..2000 {
        let hay = inputs.text(&alphabet, 12);
        let needle = inputs.text(&alphabet, 3);
        let to = inputs.text(&alphabet, 3);
        assert_eq!(contains(&hay, &needle), hay.contains(&needle), "{hay:?} {needle:?}");
        if !needle.is_empty() {
            assert_eq!(
                replace(&hay, &needle, &to),
                hay.replace(&needle, &to),
                "{hay:?} {needle:?} {to:?}"
            );
        }
    }
}

#[test]
fn trim_agrees_with_the_standard_library_on_many_inputs() {
    let alphabet = [' ', '\t', '\n', '\r', '\u{b}', '\u{c}', '\u{85}', '\u{a0}', '\u{2028}', 'x', '/'];
    let mut inputs = Inputs(11);
    for _ in 0..2000 {
        let s = inputs.text(&alphabet, 8);
        assert_eq!(trim(&s), s.trim(), "{s:?}");
    }
}

#[test]
fn decimal_numbers_are_read_back_on_many_inputs() {
    let mut inputs = Inputs(13);
    for _ in 0..2000 {
        let n = inputs.next().wrapping_mul(inputs.next());
        let written = decimal_text(n);
        assert_eq!(written, n.to_string());
        assert_eq!(parse_decimal(&written), Some(n));
        let i = n as i64;
        assert_eq!(signed_decimal_text(i), i.to_string());
    }
}
