use drag_capture::text::{is_whitespace, parse_i32, split_text, text_is, trim};

#[test]
fn whitespace_matches_char_is_whitespace_everywhere() {
    for v in 0u32..=0x10FFFF {
        if let Some(c) = char::from_u32(v) {
            assert_eq!(is_whitespace(c), c.is_whitespace(), "char {:#x}", v);
        }
    }
}

#[test]
fn trim_matches_str_trim() {
    let samples = [
        "",
        "   ",
        "KeyF",
        "  KeyF",
        "KeyF  ",
        "\t KeyF \n",
        "\u{3000}ALT\u{2029}",
        "a b",
        " \u{85}x\u{a0} ",
    ];
    for s in samples {
        assert_eq!(trim(s), s.trim(), "sample {:?}", s);
    }
}

#[test]
fn split_matches_str_split() {
    let samples = [
        ("", ";"),
        (";", ";"),
        ("0;ALT + KeyF", ";"),
        ("a;b;c", ";"),
        ("ALT + KeyF", " + "),
        ("ALT +  + KeyF", " + "),
        ("KeyF", " + "),
        (" + ", " + "),
        ("a\nb\n", "\n"),
        ("aaa", "aa"),
    ];
    for (s, sep) in samples {
        let expected: Vec<String> = s.split(sep).map(|x| x.to_string()).collect();
        assert_eq!(split_text(s, sep), expected, "sample {:?} / {:?}", s, sep);
    }
}

#[test]
fn parse_matches_str_parse() {
    let samples = [
        "0", "6", "7", "-1", "+5", "-0", "007", "", "-", "+", " 1", "1 ", "1a", "2147483647",
        "2147483648", "-2147483648", "-2147483649", "99999999999999999999",
    ];
    for s in samples {
        assert_eq!(parse_i32(s), s.parse::<i32>().ok(), "sample {:?}", s);
    }
}

#[test]
fn text_is_compares_contents() {
    assert!(text_is(".png", ".png"));
    assert!(!text_is(".png", ".PNG"));
    assert!(!text_is("", " "));
}
