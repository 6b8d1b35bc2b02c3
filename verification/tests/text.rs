use linux_drm::clipboard::MemoryClipboard;
use linux_drm::text::{
    append_decimal, append_signed_decimal, bytes_until_nul, chars_of, contains_word, parse_digits,
};

#[test]
fn bytes_end_at_the_first_nul() {
    assert_eq!(bytes_until_nul(b"1920x1080\0\0x"), Some(&b"1920x1080"[..]));
    assert_eq!(bytes_until_nul(b"\0abc"), Some(&b""[..]));
    assert_eq!(bytes_until_nul(b"abc"), None);
    assert_eq!(bytes_until_nul(b""), None);
}

#[test]
fn characters_of_a_text() {
    assert_eq!(chars_of("a\u{e9}\u{4e2d}"), vec!['a', '\u{e9}', '\u{4e2d}']);
    assert!(chars_of("").is_empty());
}

#[test]
fn words_must_match_whole() {
    let list = "EGL_EXT_client_extensions EGL_EXT_platform_base\tEGL_KHR_debug ";
    assert!(contains_word(list, "EGL_EXT_platform_base"));
    assert!(contains_word(list, "EGL_EXT_client_extensions"));
    assert!(contains_word(list, "EGL_KHR_debug"));
    assert!(!contains_word(list, "EGL_EXT_platform"));
    assert!(!contains_word(list, "platform_base"));
    assert!(!contains_word(list, ""));
    assert!(!contains_word("", "EGL_KHR_debug"));
    assert!(contains_word("a\u{2003}b\u{a0}c", "b"));
}

#[test]
fn words_are_those_of_split_whitespace() {
    for c in (0..=0x3100u32).filter_map(char::from_u32) {
        let text = format!("x{c}y");
        let expected = text.split_whitespace().any(|word| word == "y");
        assert_eq!(contains_word(&text, "y"), expected, "{c:?}");
    }
}

#[test]
fn numbers_in_decimal() {
    for n in [0, 7, 9, 10, 31, 100, 65536, u32::MAX] {
        let mut text = "n=".to_string();
        append_decimal(&mut text, n);
        assert_eq!(text, format!("n={n}"));
        assert_eq!(parse_digits(&chars_of(&text), 2), Some(n as usize));
    }
}

#[test]
fn signed_numbers_in_decimal() {
    for n in [0, 7, -1, -10, 2147483647, i32::MIN] {
        let mut text = "n=".to_string();
        append_signed_decimal(&mut text, n);
        assert_eq!(text, format!("n={n}"));
    }
}

#[test]
fn numbers_that_are_not() {
    assert_eq!(parse_digits(&chars_of("12a"), 0), None);
    assert_eq!(parse_digits(&chars_of("12a"), 3), Some(0));
    assert_eq!(parse_digits(&chars_of("0018"), 0), Some(18));
    assert_eq!(parse_digits(&chars_of(&usize::MAX.to_string()), 0), Some(usize::MAX));
    assert_eq!(parse_digits(&chars_of(&format!("{}0", usize::MAX)), 0), None);
    assert_eq!(parse_digits(&chars_of(&(usize::MAX as u128 + 1).to_string()), 0), None);
}

#[test]
fn clipboard_gives_back_what_was_set() {
    let mut clipboard = MemoryClipboard::new();
    assert_eq!(clipboard.get(), None);
    clipboard.set("text");
    assert_eq!(clipboard.get(), Some("text".to_string()));
    assert_eq!(clipboard.get(), Some("text".to_string()));
    clipboard.set("other");
    assert_eq!(clipboard.get(), Some("other".to_string()));
    clipboard.set("");
    assert_eq!(clipboard.get(), None);
}
