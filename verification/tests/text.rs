use navigator::text::{
    contains_chars, join, join_strings, matches_at, replace_all, str_contains, str_eq,
    str_starts_with, to_chars, trim,
};

#[test]
fn characters_of_a_text() {
    assert_eq!(to_chars("a\u{e9}\u{1f600}"), vec!['a', '\u{e9}', '\u{1f600}']);
    assert!(to_chars("").is_empty());
    assert_eq!(to_chars("hello").len(), 5);
}

#[test]
fn an_empty_pattern_replaces_nothing() {
    assert_eq!(replace_all("abc", "", "x"), "abc");
    assert_eq!(replace_all("", "", "x"), "");
}

#[test]
fn occurrence_at_an_index() {
    let s = to_chars("abcabc");
    assert!(matches_at(&s, &to_chars("abc"), 0));
    assert!(matches_at(&s, &to_chars("abc"), 3));
    assert!(!matches_at(&s, &to_chars("abc"), 1));
    assert!(!matches_at(&s, &to_chars("abc"), 4));
    assert!(matches_at(&s, &to_chars(""), 6));
    assert!(!matches_at(&s, &to_chars(""), 7));
    assert!(!matches_at(&s, &to_chars("abcabca"), 0));
    assert!(!matches_at(&s, &to_chars("a"), usize::MAX));
}

#[test]
fn occurrence_somewhere() {
    assert!(str_contains("https://x", "://"));
    assert!(str_contains("://", "://"));
    assert!(!str_contains(":/", "://"));
    assert!(!str_contains("", "a"));
    assert!(str_contains("", ""));
    assert!(str_contains("abc", ""));
    assert!(str_contains("aab", "ab"));
    assert!(contains_chars(&to_chars("xyz"), &to_chars("z")));
    assert!(str_starts_with("https://x", "https://"));
    assert!(!str_starts_with("http://x", "https://"));
    assert!(str_starts_with("x", ""));
    assert!(!str_starts_with("", "x"));
}

#[test]
fn equality_of_texts() {
    assert!(str_eq("", ""));
    assert!(str_eq("http", "http"));
    assert!(!str_eq("http", "https"));
    assert!(!str_eq("https", "http"));
    assert!(!str_eq("http", "httq"));
}

#[test]
fn trimming_agrees_with_the_standard_library() {
    for s in [
        "",
        " ",
        "a",
        " a",
        "a ",
        "  a b  ",
        "\t\n\r a \u{b}\u{c}",
        "\u{a0}x\u{2003}",
        "\u{3000}",
        "\u{200b}x\u{200b}",
        " \u{e9} ",
    ] {
        assert_eq!(trim(s), s.trim(), "{:?}", s);
    }
}

#[test]
fn replacement_agrees_with_the_standard_library() {
    for (s, pat, to) in [
        ("", "a", "b"),
        ("aaa", "a", "b"),
        ("aaa", "aa", "b"),
        ("aaaa", "aa", "a"),
        ("abcabc", "bc", ""),
        ("abcabc", "abcabc", "x"),
        ("abcabc", "abcabcd", "x"),
        ("a<script<script", "<script", "&lt;script"),
        ("ababab", "aba", "ba"),
        ("\u{e9}t\u{e9}", "\u{e9}", "e"),
    ] {
        assert_eq!(replace_all(s, pat, to), s.replace(pat, to), "{:?} {:?} {:?}", s, pat, to);
    }
}

#[test]
fn joining_agrees_with_the_standard_library() {
    let cases: Vec<Vec<&str>> = vec![vec![], vec![""], vec!["a"], vec!["a", "b"], vec!["", "", ""],
        vec!["'self'", "data:", "https:"]];
    for parts in cases {
        for sep in ["", " ", "; "] {
            assert_eq!(join(&parts, sep), parts.join(sep));
            let owned: Vec<String> = parts.iter().map(|p| p.to_string()).collect();
            assert_eq!(join_strings(&owned, sep), owned.join(sep));
        }
    }
}

fn listed_as_white_space(c: char) -> bool {
    matches!(
        c as u32,
        0x09..=0x0D
            | 0x20
            | 0x85
            | 0xA0
            | 0x1680
            | 0x2000..=0x200A
            | 0x2028
            | 0x2029
            | 0x202F
            | 0x205F
            | 0x3000
    )
}

#[test]
fn white_space_is_what_the_standard_library_takes_for_it() {
    let mut count = 0;
    for code in 0u32..=0x10FFFF {
        if let Some(c) = char::from_u32(code) {
            assert_eq!(c.is_whitespace(), listed_as_white_space(c), "{:?}", c);
            if c.is_whitespace() {
                count += 1;
            }
        }
    }
    assert_eq!(count, 25);
}

#[test]
fn trimming_cuts_the_listed_white_space_and_nothing_else() {
    for code in 0u32..=0x3100 {
        if let Some(c) = char::from_u32(code) {
            let s = format!("{}a{}", c, c);
            let expected = if listed_as_white_space(c) { "a".to_string() } else { s.clone() };
            assert_eq!(trim(&s), expected, "{:?}", c);
            assert_eq!(trim(&s), s.trim(), "{:?}", c);
        }
    }
    for c in ['\u{feff}', '\u{180e}', '\u{200b}', '\u{2060}', '\u{e000}', '\u{10ffff}'] {
        let s = format!("{}a{}", c, c);
        assert_eq!(trim(&s), s);
    }
}
