use lavis::text::{
    is_ascii_letter, is_bidi_control, is_control, is_white_space, join, replace,
    same_text, same_text_ignoring_ascii_case, take_chars, to_ascii_lowercase, to_decimal, to_hex,
    to_hex_padded, to_signed_decimal, trim,
};
use lavis::utf16::{count_units, fitting_end, utf16_i32_len};

fn every_char() -> impl Iterator<Item = char> {
    (0..=0x10ffffu32).filter_map(char::from_u32)
}

#[test]
fn character_classes_agree_with_unicode() {
    for c in every_char() {
        assert_eq!(is_white_space(c), c.is_whitespace(), "{c:?}");
        assert_eq!(is_control(c), c.is_control(), "{c:?}");
        assert_eq!(is_ascii_letter(c), c.is_ascii_alphabetic(), "{c:?}");
        assert_eq!(
            is_bidi_control(c),
            matches!(c,
                '\u{061c}' | '\u{200e}' | '\u{200f}' | '\u{202a}'..='\u{202e}' | '\u{2066}'..='\u{2069}'),
            "{c:?}"
        );
    }
}

#[test]
fn texts_are_trimmed_and_lowered_like_std_does() {
    for text in ["", "  ", "\u{a0}x\u{2003}", "\tÀB c\n", "ТЕСТ Test", "x"] {
        assert_eq!(trim(text), text.trim());
        assert_eq!(to_ascii_lowercase(text), text.to_ascii_lowercase());
    }
    assert!(same_text_ignoring_ascii_case("Lavis_BOT", "lavis_bot"));
    assert!(!same_text_ignoring_ascii_case("Ж", "ж"));
    assert!(same_text("ж", "ж"));
    assert!(!same_text("ж", "жж"));
}

#[test]
fn replacements_go_from_left_to_right_and_never_into_what_was_replaced() {
    for (text, from, to) in [
        ("{prefix}help {prefix}", "{prefix}", ","),
        ("aaaa", "aa", "b"),
        ("aaa", "aa", "a"),
        ("nothing", "{x}", "y"),
        ("{a}", "{a}", "{a}{a}"),
        ("🦀{p}🦀", "{p}", "ж"),
    ] {
        assert_eq!(replace(text, from, to), text.replace(from, to));
    }
}

#[test]
fn lists_are_joined() {
    assert_eq!(join(&vec![], ", "), "");
    assert_eq!(join(&vec!["a".to_owned()], ", "), "a");
    assert_eq!(join(&vec!["a".to_owned(), "б".to_owned()], ", "), "a, б");
    assert_eq!(take_chars("🦀ж1", 2), "🦀ж");
    assert_eq!(take_chars("🦀", 5), "🦀");
}

#[test]
fn numbers_are_written_like_std_does() {
    for value in [0u128, 1, 9, 10, 99, 1_000, u64::MAX as u128, u128::MAX] {
        assert_eq!(to_decimal(value), value.to_string());
        assert_eq!(to_hex(value), format!("{value:x}"));
    }
    for value in [0i64, -1, 5, i64::MAX, i64::MIN, -1_000_000_000_001] {
        assert_eq!(to_signed_decimal(value), value.to_string());
    }
    assert_eq!(to_hex_padded(0xab, 4), "00ab");
    assert_eq!(to_hex_padded(0, 16), "0000000000000000");
}

#[test]
fn utf16_lengths_count_surrogate_pairs_twice() {
    for text in ["", "abc", "ж", "🦀🦀", "a🦀ж"] {
        assert_eq!(count_units(text), text.encode_utf16().count() as u128);
        assert_eq!(
            utf16_i32_len(text),
            Some(text.encode_utf16().count() as i32)
        );
    }
    let chars: Vec<char> = "a🦀b".chars().collect();
    assert_eq!(fitting_end(&chars, 0), 0);
    assert_eq!(fitting_end(&chars, 1), 1);
    assert_eq!(fitting_end(&chars, 2), 1);
    assert_eq!(fitting_end(&chars, 3), 2);
    assert_eq!(fitting_end(&chars, 100), 3);
}
