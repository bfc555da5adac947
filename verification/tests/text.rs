use chitin::text::{
    blank, decimal_i32, decimal_u128, first_line, is_whitespace_char, join, same, trim,
    trim_end_matches,
};

#[test]
fn whitespace_is_what_the_standard_library_says() {
    for code in 0..=0x10FFFFu32 {
        if let Some(c) = char::from_u32(code) {
            assert_eq!(is_whitespace_char(c), c.is_whitespace(), "U+{code:04X}");
        }
    }
}

#[test]
fn blank_texts() {
    assert!(blank(""));
    assert!(blank(" "));
    assert!(blank(" \t\r\n\u{a0}\u{3000}"));
    assert!(!blank("a"));
    assert!(!blank("  a  "));
    assert!(!blank("\u{200b}"));
}

#[test]
fn trim_agrees_with_the_standard_library() {
    let samples = [
        "",
        " ",
        "a",
        "  a",
        "a  ",
        "  a b  ",
        "\t\nlist files\r\n",
        "\u{2003}é ü\u{a0}",
        " \u{200b} ",
        "   ",
        "x\u{85}",
    ];
    for sample in samples {
        assert_eq!(trim(sample), sample.trim(), "{sample:?}");
    }
    assert_eq!(trim("  list  files \n"), "list  files");
}

#[test]
fn same_compares_texts() {
    assert!(same("", ""));
    assert!(same("2.0", "2.0"));
    assert!(!same("2.0", "2.00"));
    assert!(!same("2.0", "2."));
    assert!(!same("2.0", "1.0"));
    assert!(!same("é", "e"));
}

#[test]
fn decimal_of_unsigned_numbers() {
    assert_eq!(decimal_u128(0), "0");
    assert_eq!(decimal_u128(7), "7");
    assert_eq!(decimal_u128(10), "10");
    assert_eq!(decimal_u128(1761609600123), "1761609600123");
    assert_eq!(decimal_u128(u128::MAX), u128::MAX.to_string());
}

#[test]
fn decimal_of_signed_numbers() {
    assert_eq!(decimal_i32(0), "0");
    assert_eq!(decimal_i32(-1), "-1");
    assert_eq!(decimal_i32(-32600), "-32600");
    assert_eq!(decimal_i32(32603), "32603");
    assert_eq!(decimal_i32(i32::MAX), "2147483647");
    assert_eq!(decimal_i32(i32::MIN), "-2147483648");
}

#[test]
fn first_line_stops_at_the_line_feed() {
    assert_eq!(first_line(""), "");
    assert_eq!(first_line("ls -la"), "ls -la");
    assert_eq!(first_line("ls -la\nrm -rf /"), "ls -la");
    assert_eq!(first_line("\nls"), "");
    assert_eq!(first_line("ls\r\npwd"), "ls\r");
    assert_eq!(first_line("é\nü"), "é");
}

#[test]
fn trim_end_matches_removes_the_trailing_run() {
    assert_eq!(trim_end_matches("https://api.openai.com/", '/'), "https://api.openai.com");
    assert_eq!(trim_end_matches("https://host///", '/'), "https://host");
    assert_eq!(trim_end_matches("https://host/v1", '/'), "https://host/v1");
    assert_eq!(trim_end_matches("///", '/'), "");
    assert_eq!(trim_end_matches("", '/'), "");
    assert_eq!(trim_end_matches("a/b/", '/'), "a/b");
}

#[test]
fn join_puts_the_separator_between_neighbours() {
    let none: Vec<String> = Vec::new();
    assert_eq!(join(&none, " | "), "");
    assert_eq!(join(&vec!["a".to_string()], " | "), "a");
    assert_eq!(join(&vec!["a".to_string(), "b".to_string(), "".to_string()], " | "), "a | b | ");
}
