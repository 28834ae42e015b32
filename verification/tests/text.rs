use autolock::text::{
    begins_with, is_whitespace, owned, same_text, scan, scan_back, scan_back_for, split_on,
    to_chars, trim,
};

#[test]
fn whitespace_is_the_unicode_white_space_property() {
    let mut code: u32 = 0;
    while code <= 0x10FFFF {
        if let Some(c) = char::from_u32(code) {
            assert_eq!(is_whitespace(c), c.is_whitespace(), "U+{:04X}", code);
        }
        code += 1;
    }
}

#[test]
fn to_chars_keeps_every_character() {
    assert_eq!(to_chars(""), Vec::<char>::new());
    assert_eq!(to_chars("a/b c"), vec!['a', '/', 'b', ' ', 'c']);
    assert_eq!(to_chars("é\u{3000}ü"), vec!['é', '\u{3000}', 'ü']);
}

#[test]
fn trim_removes_outer_whitespace_only() {
    assert_eq!(trim("  vim  "), "vim");
    assert_eq!(trim("\t nvim  file.txt \r\n"), "nvim  file.txt");
    assert_eq!(trim("vim"), "vim");
    assert_eq!(trim(""), "");
    assert_eq!(trim(" \t\n"), "");
    assert_eq!(trim("\u{a0}héllo wörld\u{2003}"), "héllo wörld");
}

#[test]
fn trim_agrees_with_std() {
    let samples = [
        "",
        " ",
        "a",
        " a",
        "a ",
        " a b ",
        "\n\n x \t y \n",
        "\u{85}é\u{1680}",
        "\u{2028}a\u{2029}",
        "\u{202f}\u{205f}",
        "日本語 テキスト ",
    ];
    for s in samples {
        assert_eq!(trim(s), s.trim(), "{:?}", s);
    }
}

#[test]
fn scan_finds_the_next_change_of_class() {
    let v = to_chars("  ab  cd");
    assert_eq!(scan(&v, 0, false), 2);
    assert_eq!(scan(&v, 2, true), 4);
    assert_eq!(scan(&v, 4, false), 6);
    assert_eq!(scan(&v, 6, true), 8);
    assert_eq!(scan(&v, 8, false), 8);
    assert_eq!(scan(&v, 3, false), 3);
}

#[test]
fn scan_past_the_end_gives_the_length() {
    let v = to_chars("ab");
    assert_eq!(scan(&v, 2, true), 2);
    assert_eq!(scan(&v, 7, true), 2);
    assert_eq!(scan(&v, 7, false), 2);
}

#[test]
fn scan_back_finds_the_end_of_the_text() {
    let v = to_chars("ab  ");
    assert_eq!(scan_back(&v, 4), 2);
    assert_eq!(scan_back(&v, 2), 2);
    assert_eq!(scan_back(&v, 1), 1);
    assert_eq!(scan_back(&v, 0), 0);
    assert_eq!(scan_back(&to_chars("   "), 3), 0);
    assert_eq!(scan_back(&v, 9), 0);
}

#[test]
fn scan_back_for_finds_the_last_separator() {
    let v = to_chars("/usr/bin/vim");
    assert_eq!(scan_back_for(&v, '/', 12), 9);
    assert_eq!(scan_back_for(&v, '/', 8), 5);
    assert_eq!(scan_back_for(&v, '/', 1), 1);
    assert_eq!(scan_back_for(&v, '/', 0), 0);
    assert_eq!(scan_back_for(&to_chars("vim"), '/', 3), 0);
    assert_eq!(scan_back_for(&v, '/', 40), 0);
}

#[test]
fn same_text_compares_characters() {
    assert!(same_text("", ""));
    assert!(same_text("N/A", "N/A"));
    assert!(!same_text("N/A", "N/a"));
    assert!(!same_text("vim", "vi"));
    assert!(!same_text("vi", "vim"));
    assert!(same_text("日本", "日本"));
}

#[test]
fn begins_with_checks_a_prefix_at_an_index() {
    let v = to_chars("1 terminal_3 vim");
    let p = to_chars("terminal");
    assert!(begins_with(&v, 2, &p));
    assert!(!begins_with(&v, 0, &p));
    assert!(!begins_with(&v, 3, &p));
    assert!(!begins_with(&v, 12, &p));
    assert!(!begins_with(&v, 99, &p));
    assert!(begins_with(&v, 16, &to_chars("")));
    assert!(!begins_with(&v, 17, &to_chars("")));
}

#[test]
fn split_on_gives_every_piece() {
    assert_eq!(split_on("vim|nvim", '|'), vec!["vim", "nvim"]);
    assert_eq!(split_on("vim", '|'), vec!["vim"]);
    assert_eq!(split_on("", '|'), vec![""]);
    assert_eq!(split_on("|", '|'), vec!["", ""]);
    assert_eq!(split_on("a||b|", '|'), vec!["a", "", "b", ""]);
    assert_eq!(split_on("h\na\n", '\n'), vec!["h", "a", ""]);
}

#[test]
fn split_on_agrees_with_std() {
    let samples = ["", "|", "||", "a", "a|b", "|a", "a|", " a | b |c", "é|ü|"];
    for s in samples {
        let expected: Vec<&str> = s.split('|').collect();
        assert_eq!(split_on(s, '|'), expected, "{:?}", s);
    }
}

#[test]
fn owned_copies_the_text() {
    assert_eq!(owned("nvim"), String::from("nvim"));
    assert_eq!(owned(""), String::new());
}
