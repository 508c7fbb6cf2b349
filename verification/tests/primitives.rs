//! Texts, numbers and digests.
use micam_rs::digest::hex_text;
use micam_rs::headers::read_header_text;
use micam_rs::numbers::{
    bool_text, integer_text, natural_text, parse_integer, parse_natural, IntegerError,
};
use micam_rs::text;

const SAMPLES: [&str; 12] = [
    "",
    " ",
    "a",
    " a b ",
    "\u{3000}é\u{a0}",
    "///",
    "http://a//",
    "A_VAAPI",
    "k\u{212a}K",
    "\u{200b}x",
    "\t\r\nline\n",
    "a;b;c",
];

#[test]
fn white_space_is_that_of_unicode() {
    for c in '\0'..=char::MAX {
        assert_eq!(text::white_space(c), c.is_whitespace(), "{c:?}");
    }
}

#[test]
fn trimming_is_that_of_str() {
    for s in SAMPLES {
        assert_eq!(text::trim(s), s.trim());
        assert_eq!(text::trim_start(s), s.trim_start());
        assert_eq!(text::blank(s), s.trim().is_empty());
        assert_eq!(text::trim_trailing_slashes(s), s.trim_end_matches('/'));
        assert_eq!(text::lower(s), s.to_ascii_lowercase());
        assert_eq!(text::find_char(s, ';'), s.find(';').unwrap_or(s.chars().count()));
        let first = s.split_whitespace().next().unwrap_or("");
        assert_eq!(text::split_first_word(s).0, first);
        for t in SAMPLES {
            assert_eq!(text::same(s, t), s == t);
            assert_eq!(text::starts_with(s, t), s.starts_with(t));
            assert_eq!(text::ends_with(s, t), s.ends_with(t));
            assert_eq!(text::same_ignoring_case(s, t), s.eq_ignore_ascii_case(t));
        }
    }
}

#[test]
fn blank_settings_have_no_content() {
    assert_eq!(text::content_of(&Some(" x ".to_string())), Some("x"));
    assert_eq!(text::content_of(&Some(" ".to_string())), None);
    assert_eq!(text::content_of(&None), None);
    assert_eq!(text::given_or(Some(" ".to_string()), "d"), " ");
}

#[test]
fn numbers_are_written_in_decimal() {
    for n in [0, 9, 10, 100, 1_234_567_890, u64::MAX] {
        assert_eq!(natural_text(n), n.to_string());
    }
    for n in [0, -1, 10, i64::MIN, i64::MAX] {
        assert_eq!(integer_text(n), n.to_string());
    }
    assert_eq!(bool_text(true), "true");
    assert_eq!(bool_text(false), "false");
}

#[test]
fn numbers_are_read_as_std_reads_them() {
    let samples = [
        "", "+", "-", "0", "+0", "-0", "255", "256", "0255", "+255", "-1", "1a", "a1", " 1", "1 ",
        "++1", "9223372036854775807", "9223372036854775808", "-9223372036854775808",
        "-9223372036854775809", "99999999999999999999", "9999x", "१",
    ];
    for s in samples {
        assert_eq!(
            parse_natural(s, 255).map_err(|e| e.message().to_string()),
            s.parse::<u8>().map(u64::from).map_err(|e| e.to_string()),
            "{s}"
        );
        assert_eq!(
            parse_integer(s).map_err(|e| e.message().to_string()),
            s.parse::<i64>().map_err(|e| e.to_string()),
            "{s}"
        );
    }
}

#[test]
fn unreadable_numbers_say_why() {
    assert_eq!(parse_natural("", 255), Err(IntegerError::Empty));
    assert_eq!(parse_natural("+", 255), Err(IntegerError::InvalidDigit));
    assert_eq!(parse_natural("256", 255), Err(IntegerError::TooLarge));
    assert_eq!(parse_integer("-99999999999999999999"), Err(IntegerError::TooSmall));
    assert_eq!(parse_integer("99999999999999999999"), Err(IntegerError::TooLarge));
}

#[test]
fn bytes_are_written_in_hexadecimal() {
    assert_eq!(hex_text(&vec![0x00, 0x0f, 0xa0, 0xff]), "000fa0ff");
}

#[test]
fn header_values_are_visible_ascii() {
    assert_eq!(read_header_text(&b"a\t~ ".to_vec()).as_deref(), Some("a\t~ "));
    for byte in 0u8..=255 {
        assert_eq!(
            read_header_text(&vec![byte]).is_some(),
            (32..127).contains(&byte) || byte == 9
        );
    }
}
