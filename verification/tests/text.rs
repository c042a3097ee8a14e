use pve_sdk_rs::text::{
    contains_char, contains_pair, count_char, decimal_text, same_text,
    same_text_ignoring_ascii_case, split_once, starts_with, strip_end_of, strip_start_of,
    text_less, trim, CharClass,
};

const SAMPLES: [&str; 16] = [
    "",
    " ",
    "a",
    "  a b  ",
    "\t\n\r x \u{b}\u{c}",
    "\u{a0}nbsp\u{a0}",
    "\u{2003}em\u{3000}",
    "\u{200b}zero-width\u{200b}",
    "\u{85}nel\u{1680}",
    "\u{2028}\u{2029}\u{202f}\u{205f}",
    "héllo wörld ",
    "   ",
    "a//",
    "//a//b//",
    "日本語",
    "x\u{feff}",
];

#[test]
fn trim_agrees_with_the_standard_library() {
    for s in SAMPLES {
        assert_eq!(trim(s), s.trim(), "{s:?}");
        assert_eq!(strip_start_of(s, CharClass::Space), s.trim_start(), "{s:?}");
        assert_eq!(strip_end_of(s, CharClass::Space), s.trim_end(), "{s:?}");
    }
}

#[test]
fn white_space_is_what_the_standard_library_calls_white_space() {
    let mut spaces = 0;
    for code in 0u32..=0x10ffff {
        if let Some(c) = char::from_u32(code) {
            assert_eq!(CharClass::Space.test(c), c.is_whitespace(), "U+{code:04X}");
            if c.is_whitespace() {
                spaces += 1;
            }
        }
    }
    assert_eq!(spaces, 25);
}

#[test]
fn stripping_one_character() {
    for s in SAMPLES {
        assert_eq!(
            strip_end_of(s, CharClass::Exactly('/')),
            s.trim_end_matches('/'),
            "{s:?}"
        );
        assert_eq!(
            strip_start_of(s, CharClass::Exactly('/')),
            s.trim_start_matches('/'),
            "{s:?}"
        );
    }
    assert_eq!(strip_end_of("///", CharClass::Exactly('/')), "");
    assert_eq!(strip_start_of("/api2/json/x", CharClass::Exactly('/')), "api2/json/x");
}

#[test]
fn searching_agrees_with_the_standard_library() {
    for s in SAMPLES {
        for c in ['a', '/', ' ', 'ö', '本', '\u{3000}'] {
            assert_eq!(contains_char(s, c), s.contains(c), "{s:?} {c:?}");
            assert_eq!(count_char(s, c), s.matches(c).count(), "{s:?} {c:?}");
            let got = split_once(s, c);
            assert_eq!(got, s.split_once(c), "{s:?} {c:?}");
        }
        for p in ["", "a", "//", "  a", "日本", "日本語x"] {
            assert_eq!(starts_with(s, p), s.starts_with(p), "{s:?} {p:?}");
        }
        for t in SAMPLES {
            assert_eq!(same_text(s, t), s == t);
            assert_eq!(
                same_text_ignoring_ascii_case(s, t),
                s.eq_ignore_ascii_case(t)
            );
        }
    }
    assert!(contains_pair("[::1]:8006", ']', ':'));
    assert!(!contains_pair("[::1]", ']', ':'));
    assert!(!contains_pair("]", ']', ':'));
    assert!(!contains_pair("", ']', ':'));
    assert!(contains_pair("]:", ']', ':'));
    assert!(!contains_pair(":]", ']', ':'));
    assert_eq!(split_once("a=b=c", '='), Some(("a", "b=c")));
    assert_eq!(split_once("=", '='), Some(("", "")));
    assert_eq!(split_once("abc", '='), None);
}

#[test]
fn ascii_case_is_ignored_for_ascii_letters_only() {
    assert!(same_text_ignoring_ascii_case("TRUE", "true"));
    assert!(same_text_ignoring_ascii_case("TrUe", "tRuE"));
    assert!(!same_text_ignoring_ascii_case("true", "true "));
    assert!(!same_text_ignoring_ascii_case("É", "é"));
    assert!(!same_text_ignoring_ascii_case("[", "{"));
    assert!(!same_text_ignoring_ascii_case("@", "`"));
    for code in 0u32..=0x2ff {
        for other in [code.wrapping_sub(32), code, code + 32] {
            if let (Some(a), Some(b)) = (char::from_u32(code), char::from_u32(other)) {
                let (a, b) = (a.to_string(), b.to_string());
                assert_eq!(
                    same_text_ignoring_ascii_case(&a, &b),
                    a.eq_ignore_ascii_case(&b),
                    "{a:?} {b:?}"
                );
            }
        }
    }
}

#[test]
fn decimal_text_agrees_with_the_standard_library() {
    for n in [
        0u64,
        1,
        9,
        10,
        11,
        99,
        100,
        101,
        220,
        3600,
        8006,
        65535,
        u32::MAX as u64,
        u32::MAX as u64 + 1,
        10_000_000_000_000_000_000,
        u64::MAX,
    ] {
        assert_eq!(decimal_text(n), n.to_string());
    }
    assert_eq!(decimal_text(0), "0");
    assert_eq!(decimal_text(1_000_234), "1000234");
    assert_eq!(decimal_text(u64::MAX), "18446744073709551615");
}

#[test]
fn dictionary_order_agrees_with_the_standard_library() {
    let mut words: Vec<&str> = SAMPLES.to_vec();
    words.extend(["a", "A", "ab", "b", "aa", "é", "e", "z", "\u{10ffff}", "\u{e000}", "\u{d7ff}"]);
    for a in &words {
        for b in &words {
            assert_eq!(text_less(a, b), a < b, "{a:?} {b:?}");
        }
    }
}
