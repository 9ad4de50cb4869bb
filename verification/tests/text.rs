use wfm_rs::search::{get_keywords_for_string, is_keyword, word_ranges};
use wfm_rs::text::{
    chars_of, contains_text, decimal_string, parse_u16, parse_u64, remove_all, same_text,
};

#[test]
fn characters_are_taken_one_by_one() {
    assert_eq!(chars_of("héllo"), vec!['h', 'é', 'l', 'l', 'o']);
    assert_eq!(chars_of(""), Vec::<char>::new());
}

#[test]
fn texts_are_the_same_when_all_characters_are() {
    assert!(same_text("ingame", "ingame"));
    assert!(same_text("", ""));
    assert!(!same_text("ingame", "ingam"));
    assert!(!same_text("ingame", "inGame"));
    assert!(!same_text("a", ""));
}

#[test]
fn a_text_holds_what_occurs_in_it() {
    assert!(contains_text("Ash Prime Systems", "Systems"));
    assert!(contains_text("Ash Prime Systems", "Ash"));
    assert!(contains_text("Ash Prime Systems", " Prime "));
    assert!(contains_text("Ash Prime Systems", ""));
    assert!(contains_text("", ""));
    assert!(!contains_text("Ash Prime Systems", "systems"));
    assert!(!contains_text("Ash", "Ash Prime"));
    assert!(!contains_text("aab", "abb"));
    assert!(contains_text("aaab", "aab"));
    for (hay, needle) in [("abcabd", "abd"), ("xyz", "zz"), ("ñandú", "dú"), ("", "a")] {
        assert_eq!(contains_text(hay, needle), hay.contains(needle));
    }
}

#[test]
fn occurrences_are_taken_out_from_left_to_right() {
    assert_eq!(remove_all("JWT abc", "JWT "), "abc");
    assert_eq!(remove_all("abc", "JWT "), "abc");
    assert_eq!(remove_all("JWT JWT x JWT ", "JWT "), "x ");
    assert_eq!(remove_all("aaa", "aa"), "a");
    assert_eq!(remove_all("abab", "ab"), "");
    assert_eq!(remove_all("abc", ""), "abc");
    assert_eq!(remove_all("", "x"), "");
    assert_eq!(remove_all("xaxbx", "x"), "ab");
    for (text, pattern) in [("JWJWT T", "JWT "), ("aXbXXc", "XX"), ("éé", "é"), ("ab", "abc")] {
        assert_eq!(remove_all(text, pattern), text.replace(pattern, ""));
    }
}

#[test]
fn whole_numbers_are_read_in_decimal() {
    assert_eq!(parse_u64("0"), Some(0));
    assert_eq!(parse_u64("007"), Some(7));
    assert_eq!(parse_u64("+15"), Some(15));
    assert_eq!(parse_u64("18446744073709551615"), Some(u64::MAX));
    assert_eq!(parse_u64("18446744073709551616"), None);
    assert_eq!(parse_u64("99999999999999999999999999"), None);
    assert_eq!(parse_u64(""), None);
    assert_eq!(parse_u64("+"), None);
    assert_eq!(parse_u64("++1"), None);
    assert_eq!(parse_u64("-1"), None);
    assert_eq!(parse_u64("1 "), None);
    assert_eq!(parse_u64("1_000"), None);
    assert_eq!(parse_u64("12a"), None);
    assert_eq!(parse_u64("٣"), None);
    assert_eq!(parse_u16("65535"), Some(65535));
    assert_eq!(parse_u16("65536"), None);
    for text in ["42", "+0", "0000", "18446744073709551615", "184467440737095516150", "x"] {
        assert_eq!(parse_u64(text), text.parse::<u64>().ok());
        assert_eq!(parse_u16(text), text.parse::<u16>().ok());
    }
}

#[test]
fn numbers_are_written_in_decimal() {
    assert_eq!(decimal_string(0), "0");
    assert_eq!(decimal_string(7), "7");
    assert_eq!(decimal_string(10), "10");
    assert_eq!(decimal_string(1203), "1203");
    assert_eq!(decimal_string(u64::MAX), "18446744073709551615");
}

#[test]
fn keywords_are_the_words_in_lower_case() {
    assert_eq!(get_keywords_for_string("Ash Prime  Systems"), vec!["ash", "prime", "systems"]);
    assert_eq!(get_keywords_for_string("  Lith\tA1 \n"), vec!["lith", "a1"]);
    assert_eq!(get_keywords_for_string(""), Vec::<String>::new());
    assert_eq!(get_keywords_for_string("   "), Vec::<String>::new());
    assert_eq!(get_keywords_for_string("x"), vec!["x"]);
    assert_eq!(get_keywords_for_string("ÄB c"), vec!["äb", "c"]);
    assert!(is_keyword("prime") && is_keyword("axi") && is_keyword("neuroptics"));
    assert!(!is_keyword("Prime") && !is_keyword("ash") && !is_keyword(""));
}

#[test]
fn words_are_the_runs_between_blanks() {
    let t = true;
    let f = false;
    assert_eq!(word_ranges(&vec![]), vec![]);
    assert_eq!(word_ranges(&vec![t, t]), vec![]);
    assert_eq!(word_ranges(&vec![f]), vec![(0, 1)]);
    assert_eq!(word_ranges(&vec![f, f, f]), vec![(0, 3)]);
    assert_eq!(word_ranges(&vec![t, f, f, t, t, f, t]), vec![(1, 3), (5, 6)]);
    assert_eq!(word_ranges(&vec![f, t, f]), vec![(0, 1), (2, 3)]);
    for text in ["a b", "  ab\tcd  e ", "x", "", " \n "] {
        let blank: Vec<bool> = text.chars().map(|c| c.is_whitespace()).collect();
        let chars: Vec<char> = text.chars().collect();
        let found: Vec<String> = word_ranges(&blank)
            .into_iter()
            .map(|(from, to)| chars[from..to].iter().collect())
            .collect();
        let expected: Vec<String> = text.split_whitespace().map(|w| w.to_string()).collect();
        assert_eq!(found, expected);
    }
}

#[test]
fn blanks_are_the_characters_that_unicode_counts_as_white_space() {
    let listed = |c: char| {
        let code = c as u32;
        (0x0009..=0x000D).contains(&code)
            || code == 0x0020
            || code == 0x0085
            || code == 0x00A0
            || code == 0x1680
            || (0x2000..=0x200A).contains(&code)
            || code == 0x2028
            || code == 0x2029
            || code == 0x202F
            || code == 0x205F
            || code == 0x3000
    };
    for code in 0..=0x10FFFFu32 {
        if let Some(c) = char::from_u32(code) {
            assert_eq!(c.is_whitespace(), listed(c), "U+{:04X}", code);
            if listed(c) {
                let text = format!("a{}b", c);
                assert_eq!(get_keywords_for_string(&text), vec!["a", "b"]);
            }
        }
    }
    assert_eq!(get_keywords_for_string("a\u{200B}b"), vec!["a\u{200B}b"]);
}
