use rustobot::text::append_signed;
use rustobot::text::chars_of;
use rustobot::text::matches_at;
use rustobot::text::parse_i64;
use rustobot::text::replace_all;
use rustobot::text::split_first;
use rustobot::text::split_last;
use rustobot::text::text_contains;
use rustobot::text::text_ends_with;
use rustobot::text::text_starts_with;
use rustobot::text::truncate_text;

#[test]
fn chars_of_lists_the_characters() {
    assert_eq!(chars_of(""), Vec::<char>::new());
    assert_eq!(chars_of("a\u{1F7E2}b"), vec!['a', '\u{1F7E2}', 'b']);
}

#[test]
fn signed_numbers_are_written_with_their_sign() {
    for n in [0i64, 1, -1, 10, -10, 12345, -12345, i64::MAX, i64::MIN] {
        let mut out = String::new();
        append_signed(&mut out, n);
        assert_eq!(out, n.to_string());
    }
}

#[test]
fn parse_i64_agrees_with_the_standard_library() {
    let samples = [
        "", "+", "-", "0", "+0", "-0", "1", "-1", "+1", "--1", "+-1", "-+1", "300", "-300", "007",
        "-007", "9223372036854775807", "9223372036854775808", "-9223372036854775808",
        "-9223372036854775809", "99999999999999999999", "-99999999999999999999", "1a", "a1",
        " 1", "1 ", "1_0", "١", "minus", "plus",
    ];
    for sample in samples {
        assert_eq!(parse_i64(sample), sample.parse::<i64>().ok(), "{:?}", sample);
    }
    for n in [0i64, 60, -60, 300, 900, i64::MAX, i64::MIN, i64::MIN + 1] {
        assert_eq!(parse_i64(&n.to_string()), Some(n));
    }
}

#[test]
fn starts_ends_and_contains() {
    assert!(text_starts_with("page_3", "page_"));
    assert!(text_starts_with("page_", "page_"));
    assert!(text_starts_with("x", ""));
    assert!(!text_starts_with("pag", "page_"));
    assert!(!text_starts_with("xpage_", "page_"));
    assert!(text_ends_with("17_play", "play"));
    assert!(text_ends_with("play", "play"));
    assert!(text_ends_with("x", ""));
    assert!(!text_ends_with("lay", "play"));
    assert!(!text_ends_with("17_now_playing", "play"));
    assert!(text_contains("17_seek_plus_60", "_seek_"));
    assert!(text_contains("_seek_", "_seek_"));
    assert!(text_contains("abc", ""));
    assert!(text_contains("", ""));
    assert!(!text_contains("17_seek", "_seek_"));
    assert!(!text_contains("", "a"));
    assert!(text_contains("aab", "ab"));
}

#[test]
fn text_tests_agree_with_the_standard_library() {
    let texts = ["", "a", "ab", "aab", "abab", "übung", "17_seek_minus_300", "_", "__"];
    for text in texts {
        for pattern in texts {
            assert_eq!(text_starts_with(text, pattern), text.starts_with(pattern));
            assert_eq!(text_ends_with(text, pattern), text.ends_with(pattern));
            assert_eq!(text_contains(text, pattern), text.contains(pattern));
        }
    }
}

#[test]
fn matches_at_compares_in_place() {
    let text = chars_of("hello");
    assert!(matches_at(&text, &chars_of("ell"), 1));
    assert!(!matches_at(&text, &chars_of("ell"), 0));
    assert!(matches_at(&text, &chars_of(""), 5));
    assert!(!matches_at(&text, &chars_of(""), 6));
    assert!(!matches_at(&text, &chars_of("lo!"), 3));
    assert!(!matches_at(&text, &chars_of("o"), usize::MAX));
}

#[test]
fn split_last_cuts_at_the_last_separator() {
    assert_eq!(split_last("a_b_c", '_'), (Some("a_b".to_string()), "c".to_string()));
    assert_eq!(split_last("abc", '_'), (None, "abc".to_string()));
    assert_eq!(split_last("abc_", '_'), (Some("abc".to_string()), "".to_string()));
    assert_eq!(split_last("_abc", '_'), (Some("".to_string()), "abc".to_string()));
    assert_eq!(split_last("", '_'), (None, "".to_string()));
    assert_eq!(split_last("ü/ö", '/'), (Some("ü".to_string()), "ö".to_string()));
}

#[test]
fn split_first_cuts_at_the_first_separator() {
    assert_eq!(split_first("a_b_c", '_'), ("a".to_string(), Some("b_c".to_string())));
    assert_eq!(split_first("abc", '_'), ("abc".to_string(), None));
    assert_eq!(split_first("abc_", '_'), ("abc".to_string(), Some("".to_string())));
    assert_eq!(split_first("_abc", '_'), ("".to_string(), Some("abc".to_string())));
    assert_eq!(split_first("", '_'), ("".to_string(), None));
}

#[test]
fn splits_agree_with_the_standard_library() {
    for text in ["", "_", "__", "a", "a_", "_a", "a_b", "a__b", "a_b_c_d", "ö_ä_ü"] {
        let parts: Vec<&str> = text.split('_').collect();
        assert_eq!(split_last(text, '_').1, *parts.last().unwrap());
        assert_eq!(split_first(text, '_').0, parts[0]);
        assert_eq!(split_last(text, '_').0.is_some(), parts.len() > 1);
        assert_eq!(split_first(text, '_').1.is_some(), parts.len() > 1);
    }
}

#[test]
fn replace_all_replaces_every_occurrence() {
    assert_eq!(replace_all("/mnt/storage/a", "/mnt/storage", "/x"), "/x/a");
    assert_eq!(replace_all("aXbXc", "X", "--"), "a--b--c");
    assert_eq!(replace_all("aaa", "aa", "b"), "ba");
    assert_eq!(replace_all("abc", "abc", ""), "");
    assert_eq!(replace_all("abc", "abcd", "x"), "abc");
    assert_eq!(replace_all("abc", "", "x"), "abc");
    assert_eq!(replace_all("", "a", "x"), "");
}

#[test]
fn replace_all_agrees_with_the_standard_library() {
    let texts = ["", "a", "aa", "aaa", "abab", "ababa", "/mnt/storage/mnt/storage", "ü-ü"];
    for text in texts {
        for from in ["a", "aa", "ab", "aba", "/mnt/storage", "ü", "-"] {
            for to in ["", "a", "xyz", "/mnt/zfspool/storage"] {
                assert_eq!(replace_all(text, from, to), text.replace(from, to));
            }
        }
    }
}

#[test]
fn truncate_text_cuts_between_characters() {
    assert_eq!(truncate_text("hello", 3), "hel");
    assert_eq!(truncate_text("hello", 5), "hello");
    assert_eq!(truncate_text("hello", 64), "hello");
    assert_eq!(truncate_text("hello", 0), "");
    assert_eq!(truncate_text("", 4), "");
    assert_eq!(truncate_text("\u{1F7E2}: a", 3), "");
    assert_eq!(truncate_text("\u{1F7E2}: a", 4), "\u{1F7E2}");
    assert_eq!(truncate_text("\u{1F7E2}: a", 5), "\u{1F7E2}:");
    assert_eq!(truncate_text("aé", 2), "a");
    assert_eq!(truncate_text("aé", 3), "aé");
    assert_eq!(truncate_text("a\u{20AC}b", 3), "a");
    assert_eq!(truncate_text("a\u{20AC}b", 4), "a\u{20AC}");
}

#[test]
fn truncate_text_agrees_with_string_truncate() {
    let texts = ["", "abc", "S1E10 - A long episode name that goes on and on", "aé\u{20AC}\u{1F7E2}z"];
    for text in texts {
        for limit in 0..12usize {
            let cut = truncate_text(text, limit);
            assert!(cut.len() <= limit);
            assert!(text.starts_with(cut.as_str()));
            if limit >= text.len() {
                assert_eq!(cut, text);
            } else if text.is_char_boundary(limit) {
                let mut expected = text.to_string();
                expected.truncate(limit);
                assert_eq!(cut, expected);
            } else {
                assert!(cut.len() + 4 > limit);
            }
        }
    }
}
