use export_macro::text::{chars_of, flatten, is_whitespace, join, same_text, trim};

#[test]
fn whitespace_agrees_with_the_standard_library() {
    let mut n: u32 = 0;
    while n <= 0x10FFFF {
        if let Some(c) = char::from_u32(n) {
            assert_eq!(is_whitespace(c), c.is_whitespace(), "U+{:04X}", n);
        }
        n += 1;
    }
}

#[test]
fn whitespace_of_named_characters() {
    assert!(is_whitespace(' '));
    assert!(is_whitespace('\t'));
    assert!(is_whitespace('\n'));
    assert!(is_whitespace('\r'));
    assert!(is_whitespace('\u{A0}'));
    assert!(is_whitespace('\u{3000}'));
    assert!(!is_whitespace('a'));
    assert!(!is_whitespace('_'));
    assert!(!is_whitespace('\u{200B}'));
    assert!(!is_whitespace('\0'));
}

#[test]
fn chars_of_lists_every_character() {
    assert_eq!(chars_of(""), Vec::<char>::new());
    assert_eq!(chars_of("a\u{1F4A3}b"), vec!['a', '\u{1F4A3}', 'b']);
}

#[test]
fn same_text_compares_characters() {
    assert!(same_text("", ""));
    assert!(same_text("doc", "doc"));
    assert!(!same_text("doc", "dob"));
    assert!(!same_text("doc", "docs"));
    assert!(!same_text("docs", "doc"));
    assert!(!same_text("", "d"));
}

#[test]
fn trim_strips_both_ends() {
    assert_eq!(trim(" Adds two numbers. "), "Adds two numbers.");
    assert_eq!(trim("\t\n x \r\n"), "x");
    assert_eq!(trim("a b"), "a b");
    assert_eq!(trim("  a  b  "), "a  b");
    assert_eq!(trim("\u{3000}wide\u{A0}"), "wide");
}

#[test]
fn trim_of_blank_text_is_empty() {
    assert_eq!(trim(""), "");
    assert_eq!(trim(" "), "");
    assert_eq!(trim(" \t\n\r "), "");
}

#[test]
fn trim_agrees_with_the_standard_library() {
    let samples = [
        "",
        " ",
        "x",
        " x",
        "x ",
        " x y ",
        "\n\nline\n",
        "\u{2028}sep\u{2029}",
        " \u{1F4A3} ",
        "\u{200B} zero width stays \u{200B}",
    ];
    for sample in samples {
        assert_eq!(trim(sample), sample.trim(), "{:?}", sample);
    }
}

#[test]
fn flatten_replaces_each_line_feed() {
    assert_eq!(flatten(""), "");
    assert_eq!(flatten("a\nb"), "a b");
    assert_eq!(flatten("\n\n"), "  ");
    assert_eq!(flatten("a\r\nb\n"), "a\r b ");
    assert_eq!(flatten("no line feed"), "no line feed");
}

#[test]
fn join_puts_the_separator_between_lines() {
    let none: Vec<String> = Vec::new();
    assert_eq!(join(&none, "\n"), "");
    assert_eq!(join(&vec!["a".to_string()], "\n"), "a");
    assert_eq!(join(&vec!["a".to_string(), "b".to_string()], "\n"), "a\nb");
    assert_eq!(
        join(&vec!["a".to_string(), String::new(), "c".to_string()], ", "),
        "a, , c"
    );
    assert_eq!(join(&vec![String::new(), String::new()], "-"), "-");
}
