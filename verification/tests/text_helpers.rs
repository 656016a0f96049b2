use meeting_companion::decimal::{push_decimal, push_signed_decimal, push_two_digit_decimal};
use meeting_companion::deepgram::connection::ConnectionError;
use meeting_companion::text::lines::{join_strings, split_lines};
use meeting_companion::text::search::{str_contains, str_equals};
use meeting_companion::text::{chars_of, char_is_whitespace, is_blank, trim_string};

fn lines_of(s: &str) -> Vec<String> {
    s.lines().map(|l| l.to_string()).collect()
}

#[test]
fn lines_are_split_as_the_standard_library_does() {
    for text in [
        "",
        "\n",
        "a",
        "a\n",
        "a\nb",
        "a\n\nb\n",
        "a\r\nb\r\n",
        "a\rb\n",
        "last\r",
        "\r\n\r\n",
        "x\r\r\ny",
        "é\nü",
        "\n\n\n",
    ] {
        assert_eq!(split_lines(text), lines_of(text), "for {:?}", text);
    }
}

#[test]
fn join_puts_the_separator_between_parts() {
    let parts = vec!["a".to_string(), String::new(), "b".to_string()];
    assert_eq!(join_strings(&parts, "\n"), "a\n\nb");
    assert_eq!(join_strings(&parts, ", "), "a, , b");
    assert_eq!(join_strings(&vec![], "\n"), "");
    assert_eq!(join_strings(&vec!["only".to_string()], "\n"), "only");
}

#[test]
fn trim_removes_unicode_whitespace() {
    for text in [
        "",
        " ",
        "  a b \t\n",
        "\u{a0}x\u{3000}",
        "\u{2003}\u{85}y\u{1680}\u{2028}",
        "inner  space",
        "\u{200b}zero width stays\u{200b}",
        "\u{feff}bom stays",
    ] {
        assert_eq!(trim_string(text), text.trim(), "for {:?}", text);
        assert_eq!(is_blank(text), text.trim().is_empty(), "for {:?}", text);
    }
}

#[test]
fn whitespace_test_agrees_with_the_standard_library() {
    for code in 0u32..0x3100 {
        if let Some(c) = char::from_u32(code) {
            assert_eq!(char_is_whitespace(c), c.is_whitespace(), "for U+{:04X}", code);
        }
    }
    assert!(!char_is_whitespace('\u{feff}'));
    assert!(!char_is_whitespace(char::MAX));
}

#[test]
fn characters_are_kept() {
    assert_eq!(chars_of("aé\u{1f600}"), vec!['a', 'é', '\u{1f600}']);
    assert!(chars_of("").is_empty());
}

#[test]
fn substring_search() {
    assert!(str_contains("auto-translate", "auto"));
    assert!(str_contains("auto-translate", "translate"));
    assert!(str_contains("abc", ""));
    assert!(str_contains("", ""));
    assert!(!str_contains("", "a"));
    assert!(!str_contains("ab", "abc"));
    assert!(str_contains("aab", "ab"));
    assert!(!str_contains("Auto", "auto"));
    assert!(str_equals("a", "a"));
    assert!(!str_equals("a", "ab"));
    assert!(!str_equals("ab", "a"));
    assert!(str_equals("", ""));
}

#[test]
fn decimal_rendering() {
    let mut out = String::from("n=");
    push_decimal(&mut out, 0);
    out.push(',');
    push_decimal(&mut out, 10);
    out.push(',');
    push_decimal(&mut out, u64::MAX);
    assert_eq!(out, "n=0,10,18446744073709551615");

    let mut out = String::new();
    push_signed_decimal(&mut out, -1);
    out.push(' ');
    push_signed_decimal(&mut out, i32::MIN);
    out.push(' ');
    push_signed_decimal(&mut out, 0);
    assert_eq!(out, "-1 -2147483648 0");

    let mut out = String::new();
    push_two_digit_decimal(&mut out, 0);
    push_two_digit_decimal(&mut out, 9);
    push_two_digit_decimal(&mut out, 10);
    push_two_digit_decimal(&mut out, 123);
    assert_eq!(out, "000910123");
}

#[test]
fn refusal_messages() {
    assert_eq!(ConnectionError::AlreadyStreaming.message(), "Already connected");
    assert_eq!(ConnectionError::NotConnected.message(), "Not connected");
    assert_eq!(
        ConnectionError::ConnectFailed("Failed to connect to Deepgram: timeout".to_string())
            .message(),
        "Failed to connect to Deepgram: timeout"
    );
}
