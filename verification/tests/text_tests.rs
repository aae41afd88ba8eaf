use script::text::{to_ascii_lowercase, trim_html_space_str, char_is_html_space, char_to_ascii_lowercase};

#[test]
fn lowercase_ascii_only() {
    assert_eq!(to_ascii_lowercase("ViewPORT"), "viewport");
    assert_eq!(to_ascii_lowercase("ÀBC-Ü"), "Àbc-Ü");
    assert_eq!(to_ascii_lowercase(""), "");
}

#[test]
fn trim_html_spaces_both_ends() {
    assert_eq!(trim_html_space_str(" \t\nreferrer\r\x0C "), "referrer");
    assert_eq!(trim_html_space_str("  a b  "), "a b");
    assert_eq!(trim_html_space_str(" \t "), "");
    assert_eq!(trim_html_space_str("\u{00A0}x\u{00A0}"), "\u{00A0}x\u{00A0}");
}

#[test]
fn space_and_char_lowercase() {
    assert!(char_is_html_space('\x0C'));
    assert!(!char_is_html_space('\u{0B}'));
    assert_eq!(char_to_ascii_lowercase('Q'), 'q');
    assert_eq!(char_to_ascii_lowercase('['), '[');
}

#[test]
fn normalizing_twice_is_normalizing_once() {
    let once = trim_html_space_str(&to_ascii_lowercase("  ReFeRrEr \n"));
    let twice = trim_html_space_str(&to_ascii_lowercase(&once));
    assert_eq!(once, "referrer");
    assert_eq!(once, twice);
}
