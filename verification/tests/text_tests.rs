use gpt_cli::text::{eq_ignore_ascii_case, fold_ascii_case, is_whitespace, parse_u32, same_text, trim};

#[test]
fn whitespace_is_the_unicode_property() {
    let mut code: u32 = 0;
    while code <= 0x10FFFF {
        if let Some(c) = char::from_u32(code) {
            assert_eq!(is_whitespace(c), c.is_whitespace(), "U+{:04X}", code);
        }
        code += 1;
    }
}

#[test]
fn whitespace_named_characters() {
    assert!(is_whitespace(' '));
    assert!(is_whitespace('\t'));
    assert!(is_whitespace('\n'));
    assert!(is_whitespace('\r'));
    assert!(is_whitespace('\u{0B}'));
    assert!(is_whitespace('\u{0C}'));
    assert!(is_whitespace('\u{85}'));
    assert!(is_whitespace('\u{A0}'));
    assert!(is_whitespace('\u{3000}'));
    assert!(!is_whitespace('a'));
    assert!(!is_whitespace('\u{200B}'));
    assert!(!is_whitespace('\u{08}'));
    assert!(!is_whitespace('\u{0E}'));
}

#[test]
fn trim_removes_both_ends_only() {
    assert_eq!(trim("  hello world \n"), "hello world");
    assert_eq!(trim("hello"), "hello");
    assert_eq!(trim(""), "");
    assert_eq!(trim(" \t\r\n"), "");
    assert_eq!(trim("a"), "a");
    assert_eq!(trim(" a"), "a");
    assert_eq!(trim("a "), "a");
    assert_eq!(trim("\u{3000}caf\u{e9} au lait\u{2003}"), "caf\u{e9} au lait");
    assert_eq!(trim("\u{200B}x\u{200B}"), "\u{200B}x\u{200B}");
}

#[test]
fn trim_agrees_with_std() {
    let samples = [
        "",
        " ",
        "x",
        "  x  y  ",
        "\n\nline\n",
        "\u{A0}nbsp\u{A0}",
        "\u{1680}\u{2000}\u{200A}\u{2028}\u{2029}\u{202F}\u{205F}mid\u{85}",
        "tab\tinside",
        "\u{1F600} \u{1F600}",
        "   \u{e9}",
    ];
    for sample in samples.iter() {
        assert_eq!(trim(sample), sample.trim());
    }
}

#[test]
fn trim_twice_is_trim_once() {
    let samples = ["  a b  ", "", "   ", "x", "\t\u{3000}q\n"];
    for sample in samples.iter() {
        let once = trim(sample);
        assert_eq!(trim(once), once);
        assert!(once.len() <= sample.len());
    }
}

#[test]
fn parse_u32_reads_numbers() {
    assert_eq!(parse_u32("120"), Some(120));
    assert_eq!(parse_u32("0"), Some(0));
    assert_eq!(parse_u32("007"), Some(7));
    assert_eq!(parse_u32("+5"), Some(5));
    assert_eq!(parse_u32("4294967295"), Some(4294967295));
    assert_eq!(parse_u32("0000000000000000000042"), Some(42));
}

#[test]
fn parse_u32_refuses_everything_else() {
    assert_eq!(parse_u32("abc"), None);
    assert_eq!(parse_u32(""), None);
    assert_eq!(parse_u32("+"), None);
    assert_eq!(parse_u32("-"), None);
    assert_eq!(parse_u32("-5"), None);
    assert_eq!(parse_u32("-0"), None);
    assert_eq!(parse_u32("++5"), None);
    assert_eq!(parse_u32("5+"), None);
    assert_eq!(parse_u32(" 5"), None);
    assert_eq!(parse_u32("5 "), None);
    assert_eq!(parse_u32("1_000"), None);
    assert_eq!(parse_u32("12a"), None);
    assert_eq!(parse_u32("1.5"), None);
    assert_eq!(parse_u32("4294967296"), None);
    assert_eq!(parse_u32("99999999999999999999999999"), None);
    assert_eq!(parse_u32("42949672950"), None);
    assert_eq!(parse_u32("\u{661}\u{662}"), None);
    assert_eq!(parse_u32("4294967296x"), None);
}

#[test]
fn parse_u32_agrees_with_std() {
    let samples = [
        "", "+", "-", "0", "+0", "-0", "1", "10", "+10", "00", "4294967295", "4294967296",
        "4294967294", "18446744073709551616", "12 ", " 12", "1e3", "0x10", "٣", "+-1", "50",
    ];
    for sample in samples.iter() {
        assert_eq!(parse_u32(sample), sample.parse::<u32>().ok(), "{:?}", sample);
    }
}

#[test]
fn fold_ascii_case_folds_upper_case_letters_only() {
    assert_eq!(fold_ascii_case('A'), 'a' as u32);
    assert_eq!(fold_ascii_case('Z'), 'z' as u32);
    assert_eq!(fold_ascii_case('a'), 'a' as u32);
    assert_eq!(fold_ascii_case('@'), '@' as u32);
    assert_eq!(fold_ascii_case('['), '[' as u32);
    assert_eq!(fold_ascii_case('\u{c9}'), 0xc9);
    assert_eq!(fold_ascii_case('5'), '5' as u32);
}

#[test]
fn eq_ignore_ascii_case_agrees_with_std() {
    let samples = ["exit", "Exit", "EXIT", "eXiT", "exit ", "exi", "", "quit", "\u{c9}xit", "\u{e9}xit", "ex1t", "EX1T"];
    for a in samples.iter() {
        for b in samples.iter() {
            assert_eq!(eq_ignore_ascii_case(a, b), a.eq_ignore_ascii_case(b), "{:?} {:?}", a, b);
        }
    }
}

#[test]
fn same_text_compares_characters() {
    assert!(same_text("", ""));
    assert!(same_text("full", "full"));
    assert!(!same_text("full", "Full"));
    assert!(!same_text("full", "ful"));
    assert!(!same_text("ful", "full"));
    assert!(same_text("caf\u{e9}", "caf\u{e9}"));
    assert!(!same_text("cafe", "caf\u{e9}"));
}
