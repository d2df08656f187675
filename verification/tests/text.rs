use repo_sync::utils::text::{
    char_is_whitespace, chars_of, decimal, find_char, last_segment_start, lines, remove_all,
    same_text, starts_with_at, trim, trim_bounds,
};

#[test]
fn whitespace_is_the_unicode_property() {
    for code in 0u32..=0x11_0000 {
        if let Some(c) = char::from_u32(code) {
            assert_eq!(char_is_whitespace(c), c.is_whitespace(), "U+{:04X}", code);
        }
    }
}

#[test]
fn chars_of_keeps_order_and_count() {
    assert_eq!(chars_of(""), Vec::<char>::new());
    assert_eq!(chars_of("a\u{e9}\u{1f600}z"), vec!['a', '\u{e9}', '\u{1f600}', 'z']);
}

#[test]
fn trim_agrees_with_std() {
    let samples = [
        "",
        " ",
        "\t\n\r ",
        "a",
        " a",
        "a ",
        "  a b  ",
        "\u{a0}x\u{3000}",
        "\u{200b}x\u{200b}",
        " \u{e9} ",
        "\u{85}\u{1680}mid dle\u{2028}\u{2029}\u{202f}\u{205f}",
    ];
    for s in samples {
        assert_eq!(trim(s), s.trim(), "{:?}", s);
    }
}

#[test]
fn trim_bounds_are_character_positions() {
    let v = chars_of("x \u{e9}t\u{e9} y");
    assert_eq!(trim_bounds(&v, 1, 6), (2, 5));
    assert_eq!(trim_bounds(&v, 0, 7), (0, 7));
    assert_eq!(trim_bounds(&v, 1, 2), (2, 2));
    assert_eq!(trim_bounds(&v, 3, 3), (3, 3));
}

#[test]
fn prefix_within_a_range() {
    let v = chars_of("xhttp://y");
    let http = chars_of("http://");
    assert!(starts_with_at(&v, 1, 9, &http));
    assert!(starts_with_at(&v, 1, 8, &http));
    assert!(!starts_with_at(&v, 1, 7, &http));
    assert!(!starts_with_at(&v, 0, 9, &http));
    assert!(starts_with_at(&v, 4, 4, &chars_of("")));
}

#[test]
fn find_within_a_range() {
    let v = chars_of("a/b/c");
    assert_eq!(find_char(&v, 0, 5, '/'), 1);
    assert_eq!(find_char(&v, 2, 5, '/'), 3);
    assert_eq!(find_char(&v, 4, 5, '/'), 5);
    assert_eq!(find_char(&v, 0, 1, '/'), 1);
    assert_eq!(last_segment_start(&v, 0, 5, '/'), 4);
    assert_eq!(last_segment_start(&v, 0, 4, '/'), 4);
    assert_eq!(last_segment_start(&v, 0, 3, '/'), 2);
    assert_eq!(last_segment_start(&v, 0, 1, '/'), 0);
    assert_eq!(last_segment_start(&v, 2, 3, '/'), 2);
}

#[test]
fn remove_all_agrees_with_std_replace() {
    let cases = [
        ("", ".git"),
        ("repo.git", ".git"),
        (".git", ".git"),
        (".git.git", ".git"),
        ("..gitgit", ".git"),
        ("a.gi", ".git"),
        ("aaa", "aa"),
        ("aaaa", "aa"),
        ("abc", ""),
        ("\u{e9}.git\u{e9}", ".git"),
        ("xyx", "xyxy"),
    ];
    for (s, pat) in cases {
        assert_eq!(remove_all(s, pat), s.replace(pat, ""), "{:?} without {:?}", s, pat);
    }
    assert_eq!(remove_all("..gitgit", ".git"), ".git");
    assert_eq!(remove_all("aaa", "aa"), "a");
}

#[test]
fn lines_agree_with_std() {
    let samples = [
        "",
        "\n",
        "\n\n",
        "a",
        "a\n",
        "a\nb",
        "a\r\nb\r\n",
        "a\r",
        "a\r\r\n",
        "\r\n",
        "\ra\n",
        "main:origin/main\ndev:\n",
        "\u{e9}\n\u{1f600}",
    ];
    for s in samples {
        let expected: Vec<&str> = s.lines().collect();
        assert_eq!(lines(s), expected, "{:?}", s);
    }
    assert_eq!(lines("a\r\nb\n\nc"), vec!["a", "b", "", "c"]);
}

#[test]
fn decimal_of_numbers() {
    assert_eq!(decimal(0), "0");
    assert_eq!(decimal(7), "7");
    assert_eq!(decimal(10), "10");
    assert_eq!(decimal(1234567890), "1234567890");
    assert_eq!(decimal(usize::MAX), format!("{}", usize::MAX));
}

#[test]
fn same_text_compares_characters() {
    assert!(same_text("", ""));
    assert!(same_text("main", "main"));
    assert!(!same_text("main", "Main"));
    assert!(!same_text("main", "main "));
    assert!(!same_text("", "x"));
    assert!(same_text("\u{e9}", "\u{e9}"));
    assert!(!same_text("\u{e9}", "e\u{301}"));
}
