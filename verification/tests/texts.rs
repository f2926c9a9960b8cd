use matrix_mcp::text::{
    is_blank, is_white_space, lowered_is, parse_number, same_text, with_context,
};

#[test]
fn white_space_is_that_of_std() {
    for code in 0..=0x10FFFFu32 {
        if let Some(c) = char::from_u32(code) {
            assert_eq!(is_white_space(c), c.is_whitespace(), "{code:x}");
        }
    }
}

#[test]
fn blank_texts_are_those_that_trim_to_nothing() {
    for text in ["", " ", "\t\n", "\u{a0}\u{3000}", "a", " a ", "\u{200b}"] {
        assert_eq!(is_blank(text), text.trim().is_empty(), "{text:?}");
    }
}

#[test]
fn numbers_are_those_of_std() {
    for text in [
        "", "0", "35", "+35", "-1", "+", "++1", "007", " 1", "1 ", "1.5", "x",
        "18446744073709551615", "18446744073709551616", "99999999999999999999999999",
        "00000000000000000000000000000035", "+0", "\u{661}",
    ] {
        assert_eq!(parse_number(text), text.parse::<u64>().ok(), "{text:?}");
    }
}

#[test]
fn case_is_ignored_for_ascii_only() {
    assert!(lowered_is("HtTp", "http"));
    assert!(!lowered_is("http", "HTTP"));
    assert!(!lowered_is("\u{c9}", "\u{e9}"));
    for text in ["SSE", "Streamable-HTTP", "\u{130}", ""] {
        assert!(lowered_is(text, &text.to_ascii_lowercase()));
    }
}

#[test]
fn texts_are_compared_by_their_characters() {
    assert!(same_text("\u{e9}", "\u{e9}"));
    assert!(!same_text("a", "b"));
}

#[test]
fn context_comes_before_the_cause() {
    assert_eq!(with_context("sync failed", "no route"), "sync failed: no route");
}
