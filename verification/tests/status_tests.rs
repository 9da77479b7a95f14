use rust_text::status::{char_count, line_count};

#[test]
fn line_count_matches_the_status_bar() {
    assert_eq!(line_count(""), 0);
    assert_eq!(line_count("a"), 1);
    assert_eq!(line_count("a\n"), 1);
    assert_eq!(line_count("a\nb"), 2);
    assert_eq!(line_count("\n"), 1);
    assert_eq!(line_count("\n\n"), 2);
    assert_eq!(line_count("one\ntwo\nthree"), 3);
    assert_eq!(line_count("one\r\ntwo"), 2);
}

#[test]
fn line_count_agrees_with_the_standard_library() {
    for text in ["", "a", "a\n", "a\nb", "\n", "\n\n", "x\r\ny\nz\n", "no newline"] {
        assert_eq!(line_count(text), text.lines().count());
    }
}

#[test]
fn char_count_is_the_byte_length() {
    assert_eq!(char_count(""), 0);
    assert_eq!(char_count("abc"), 3);
    assert_eq!(char_count("a\nb"), 3);
    // Multi-byte characters count by their UTF-8 length.
    assert_eq!(char_count("héllo"), 6);
    assert_eq!(char_count("née\n"), 5);
    assert_eq!(char_count("\u{1F600}"), 4);
}

#[test]
fn char_count_agrees_with_the_standard_library() {
    for text in ["", "abc", "héllo", "a\u{00e9}\u{1F600}"] {
        assert_eq!(char_count(text), text.len());
    }
}
