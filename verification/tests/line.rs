use io_prompt_prototype::line::strip_terminator;

#[test]
fn strips_newline() {
    assert_eq!(strip_terminator("snack\n"), "snack");
}

#[test]
fn strips_carriage_return_and_newline() {
    assert_eq!(strip_terminator("42\r\n"), "42");
}

#[test]
fn keeps_unterminated_text() {
    assert_eq!(strip_terminator("snack"), "snack");
}

#[test]
fn keeps_empty_text() {
    assert_eq!(strip_terminator(""), "");
}

#[test]
fn bare_terminators_strip_to_nothing() {
    assert_eq!(strip_terminator("\n"), "");
    assert_eq!(strip_terminator("\r\n"), "");
}

#[test]
fn keeps_carriage_return_without_newline() {
    assert_eq!(strip_terminator("\r"), "\r");
    assert_eq!(strip_terminator("abc\r"), "abc\r");
    assert_eq!(strip_terminator("abc\n\r"), "abc\n\r");
}

#[test]
fn strips_one_terminator_only() {
    assert_eq!(strip_terminator("a\n\n"), "a\n");
    assert_eq!(strip_terminator("a\r\n\r\n"), "a\r\n");
    assert_eq!(strip_terminator("a\r\r\n"), "a\r");
    assert_eq!(strip_terminator("a\n\r\n"), "a\n");
}

#[test]
fn keeps_what_stands_inside() {
    assert_eq!(strip_terminator("a\rb\r\n"), "a\rb");
    assert_eq!(strip_terminator("a\r\nb"), "a\r\nb");
    assert_eq!(strip_terminator("a\nb\n"), "a\nb");
    assert_eq!(strip_terminator(" \t lead and trail \t \n"), " \t lead and trail \t ");
}

#[test]
fn counts_characters_not_bytes() {
    assert_eq!(strip_terminator("h\u{e9}llo \u{4e16}\u{754c}\r\n"), "h\u{e9}llo \u{4e16}\u{754c}");
    assert_eq!(strip_terminator("\u{1f600}\n"), "\u{1f600}");
    assert_eq!(strip_terminator("\u{e9}\r"), "\u{e9}\r");
    assert_eq!(strip_terminator("\u{4e16}"), "\u{4e16}");
}

#[test]
fn newline_is_stripped_from_every_sample() {
    for l in ["", "a", "42", "two words", "tab\there", "in\rside", "\u{e9}t\u{e9}", "\ra"] {
        let raw = format!("{}\n", l);
        assert_eq!(strip_terminator(&raw), l);
    }
}

#[test]
fn carriage_return_before_newline_leaves_with_it() {
    // The one kind of text that does not come back whole from under a `'\n'`.
    assert_eq!(strip_terminator("abc\r\n"), "abc");
    assert_eq!(strip_terminator("\r\n"), "");
}

#[test]
fn carriage_return_newline_is_stripped_from_every_sample() {
    for l in ["", "a", "42", "two words", "ends in cr\r", "in\nside", "\u{e9}t\u{e9}", "\n"] {
        let raw = format!("{}\r\n", l);
        assert_eq!(strip_terminator(&raw), l);
    }
}

#[test]
fn unterminated_sample_is_unchanged() {
    for l in ["", "a", "42", "ends in cr\r", "in\nside", "in\r\nside", "\u{e9}t\u{e9}", "\n\r"] {
        assert_eq!(strip_terminator(l), l);
    }
}

#[test]
fn result_is_a_prefix_at_most_two_shorter() {
    for raw in ["", "\n", "\r\n", "a", "a\n", "a\r\n", "a\r", "a\n\n", "\r\r\n", "\u{e9}\r\n"] {
        let out = strip_terminator(raw);
        let cut = raw.chars().count() - out.chars().count();
        assert!(raw.starts_with(out));
        assert!(cut <= 2);
        assert_eq!(cut > 0, raw.ends_with('\n'));
        assert_eq!(cut == 2, raw.ends_with("\r\n"));
    }
}

#[test]
fn stripped_line_holds_no_newline() {
    for raw in ["", "\n", "\r\n", "a", "a\n", "a\r\n", "a\r", "\r\r\n", "a\rb\n"] {
        assert!(!strip_terminator(raw).contains('\n'));
    }
}
