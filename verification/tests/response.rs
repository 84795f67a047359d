use lavis::i18n::Locale;
use lavis::response::{
    sanitize_external_output, truncate_utf16, truncate_utf16_with_locale, MessageEntity, Response,
    DOCUMENTATION_TRUNCATION_SUFFIX, MAX_UTF16_UNITS, TRUNCATION_SUFFIX,
};

#[test]
fn truncates_non_bmp_text_at_utf16_boundaries() {
    let text = "🦀".repeat(MAX_UTF16_UNITS);
    let output = truncate_utf16(&text);

    assert!(output.ends_with(TRUNCATION_SUFFIX));
    assert!(output.encode_utf16().count() <= MAX_UTF16_UNITS);
    assert!(std::str::from_utf8(output.as_bytes()).is_ok());
}

#[test]
fn four_blockquotes_use_utf16_offsets_for_each_section() {
    let text = [
        "┌ first 🦀\n├ owner\n└ version",
        "┌ source\n├ commit\n└ upstream",
        "┌ runtime\n├ prefix\n└ modules",
        "┌ environment\n├ host\n└ os",
    ]
    .join("\n\n");
    let response = Response::four_blockquotes_with_locale(Locale::English, text.clone());

    assert_eq!(response.text, text);
    assert_eq!(response.entities.len(), 4);
    let mut byte_offset = 0;
    for (entity, section) in response.entities.iter().zip(text.split("\n\n")) {
        let MessageEntity::Blockquote(entity) = entity else {
            panic!("expected blockquote entity");
        };
        assert_eq!(
            entity.offset,
            text[..byte_offset].encode_utf16().count() as i32
        );
        assert_eq!(entity.length, section.encode_utf16().count() as i32);
        assert!(!entity.collapsed);
        byte_offset += section.len() + 2;
    }
}

#[test]
fn locale_aware_plain_and_collapsed_truncation_use_selected_suffix() {
    for (locale, suffix) in [
        (Locale::English, "… output truncated"),
        (Locale::Russian, "… вывод сокращён"),
    ] {
        let plain = Response::plain_with_locale(locale, &"🦀".repeat(MAX_UTF16_UNITS));
        let preformatted =
            Response::preformatted_with_locale(locale, &"🦀".repeat(MAX_UTF16_UNITS));
        let collapsed = Response::collapsed_with_locale(
            locale,
            "Heading".to_owned(),
            "🦀".repeat(MAX_UTF16_UNITS),
        );
        assert!(plain.text.ends_with(suffix));
        assert!(preformatted.text.ends_with(suffix));
        assert!(collapsed.response.text.ends_with(suffix));
        assert!(plain.text.encode_utf16().count() <= MAX_UTF16_UNITS);
        assert!(preformatted.text.encode_utf16().count() <= MAX_UTF16_UNITS);
        assert!(collapsed.response.text.encode_utf16().count() <= MAX_UTF16_UNITS);
    }
}

#[test]
fn preformatted_entity_spans_final_text() {
    let response = Response::preformatted("  output\n");
    let MessageEntity::Pre(entity) = &response.entities[0] else {
        panic!("expected a preformatted entity");
    };

    assert_eq!(entity.offset, 0);
    assert_eq!(
        usize::try_from(entity.length).unwrap(),
        response.text.encode_utf16().count()
    );
}

#[test]
fn empty_collapsed_body_does_not_create_an_entity() {
    let rendered = Response::collapsed("heading".to_owned(), String::new());

    assert!(rendered.response.entities.is_empty());
    assert!(rendered.entity_fallback);
}

#[test]
fn documentation_card_covers_primary_then_provenance_with_two_blockquotes() {
    let rendered = Response::documentation_card(
        Locale::Russian,
        "📚 Заголовок".to_owned(),
        "Основной текст 🦀".to_owned(),
        "Источник: builtin".to_owned(),
    );
    assert!(!rendered.entity_fallback);
    assert_eq!(
        rendered.response.text,
        "📚 Заголовок\n\nОсновной текст 🦀\n\nИсточник: builtin"
    );
    assert_eq!(rendered.response.entities.len(), 2);
    let MessageEntity::Blockquote(primary) =
        &rendered.response.entities[0]
    else {
        panic!("expected primary blockquote");
    };
    let MessageEntity::Blockquote(provenance) =
        &rendered.response.entities[1]
    else {
        panic!("expected provenance blockquote");
    };
    assert!(primary.collapsed);
    assert!(!provenance.collapsed);
    let units = rendered.response.text.encode_utf16().collect::<Vec<_>>();
    let primary_start = usize::try_from(primary.offset).unwrap();
    let primary_end = primary_start + usize::try_from(primary.length).unwrap();
    let provenance_start = usize::try_from(provenance.offset).unwrap();
    let provenance_end = provenance_start + usize::try_from(provenance.length).unwrap();
    assert_eq!(
        String::from_utf16(&units[primary_start..primary_end]).unwrap(),
        "Основной текст 🦀"
    );
    assert_eq!(
        String::from_utf16(&units[provenance_start..provenance_end]).unwrap(),
        "Источник: builtin"
    );
    assert!(primary_end <= provenance_start);
    assert!(provenance_end <= units.len());
    assert!(units.len() <= MAX_UTF16_UNITS);
}

#[test]
fn documentation_card_truncates_primary_before_complete_provenance() {
    let provenance = "Источник: внешний модуль".to_owned();
    let rendered = Response::documentation_card(
        Locale::Russian,
        "Заголовок".to_owned(),
        "🦀".repeat(MAX_UTF16_UNITS),
        provenance.clone(),
    );
    assert!(!rendered.entity_fallback);
    assert!(rendered.response.text.contains(&provenance));
    assert!(
        rendered
            .response
            .text
            .contains(DOCUMENTATION_TRUNCATION_SUFFIX)
    );
    assert!(rendered.response.text.encode_utf16().count() <= MAX_UTF16_UNITS);
    let MessageEntity::Blockquote(primary) =
        &rendered.response.entities[0]
    else {
        panic!("expected primary blockquote");
    };
    let MessageEntity::Blockquote(entity) =
        &rendered.response.entities[1]
    else {
        panic!("expected provenance blockquote");
    };
    let units = rendered.response.text.encode_utf16().collect::<Vec<_>>();
    let start = usize::try_from(entity.offset).unwrap();
    let end = start + usize::try_from(entity.length).unwrap();
    assert_eq!(String::from_utf16(&units[start..end]).unwrap(), provenance);
    let primary_end =
        usize::try_from(primary.offset).unwrap() + usize::try_from(primary.length).unwrap();
    assert!(primary_end <= start);
    assert!(end <= units.len());
}

#[test]
fn documentation_truncation_uses_selected_locale_suffix() {
    for (locale, suffix) in [
        (Locale::English, "… documentation truncated"),
        (Locale::Russian, "… описание сокращено"),
    ] {
        let rendered = Response::documentation_card(
            locale,
            "Heading".to_owned(),
            "🦀".repeat(MAX_UTF16_UNITS),
            "Provenance".to_owned(),
        );
        assert!(rendered.response.text.contains(suffix));
        assert!(rendered.response.text.encode_utf16().count() <= MAX_UTF16_UNITS);
    }
}

#[test]
fn documentation_card_falls_back_for_empty_or_unrepresentable_sections() {
    let empty = Response::documentation_card(
        Locale::Russian,
        "Заголовок".to_owned(),
        String::new(),
        "Источник".to_owned(),
    );
    assert!(empty.entity_fallback);
    assert!(empty.response.entities.is_empty());
    assert!(empty.response.text.starts_with("Документация:"));

    let oversized = Response::documentation_card(
        Locale::Russian,
        "З".repeat(MAX_UTF16_UNITS),
        "Основное".to_owned(),
        "Источник".to_owned(),
    );
    assert!(oversized.entity_fallback);
    assert!(oversized.response.entities.is_empty());
    assert!(oversized.response.text.encode_utf16().count() <= MAX_UTF16_UNITS);
    assert!(oversized.response.text.ends_with("Источник: Источник"));

    let primary_and_heading = Response::documentation_card(
        Locale::Russian,
        "🦀".repeat(MAX_UTF16_UNITS),
        "Основное".repeat(MAX_UTF16_UNITS),
        "полный источник".to_owned(),
    );
    assert!(primary_and_heading.entity_fallback);
    assert!(primary_and_heading.response.entities.is_empty());
    assert!(
        primary_and_heading
            .response
            .text
            .ends_with("Источник: полный источник")
    );
    assert!(primary_and_heading.response.text.encode_utf16().count() <= MAX_UTF16_UNITS);
}

#[test]
fn documentation_fallback_localizes_wrapper_labels() {
    let english = Response::documentation_card(
        Locale::English,
        "Heading".to_owned(),
        String::new(),
        "third-party content".to_owned(),
    );
    let russian = Response::documentation_card(
        Locale::Russian,
        "Заголовок".to_owned(),
        String::new(),
        "стороннее содержимое".to_owned(),
    );
    assert!(
        english
            .response
            .text
            .starts_with("Documentation: Heading\nPrimary:")
    );
    assert!(
        english
            .response
            .text
            .ends_with("Source: third-party content")
    );
    assert!(
        russian
            .response
            .text
            .starts_with("Документация: Заголовок\nОсновное:")
    );
    assert!(
        russian
            .response
            .text
            .ends_with("Источник: стороннее содержимое")
    );
}

#[test]
fn external_result_preserves_provenance() {
    let result =
        Response::external_result(Locale::Russian, "Привет мир", "Тест", "test", "1.0.0");
    assert!(result.text.contains("Привет мир"));
    assert!(
        result
            .text
            .contains("⚠️ Внешний модуль «Тест» (test v1.0.0) — код без песочницы.")
    );
    assert!(result.text.encode_utf16().count() <= MAX_UTF16_UNITS);
}

#[test]
fn external_result_localizes_framing_without_translating_module_text() {
    let module_text = "raw module: Привет";
    let english = Response::external_result(Locale::English, module_text, "Name", "id", "1");
    let russian = Response::external_result(Locale::Russian, module_text, "Name", "id", "1");
    assert!(english.text.starts_with(module_text));
    assert!(russian.text.starts_with(module_text));
    assert!(
        english
            .text
            .ends_with("⚠️ External module «Name» (id v1) — code runs without a sandbox.")
    );
    assert!(
        russian
            .text
            .ends_with("⚠️ Внешний модуль «Name» (id v1) — код без песочницы.")
    );
}

#[test]
fn external_provenance_preserves_brace_containing_manifest_metadata() {
    for locale in [Locale::English, Locale::Russian] {
        let result = Response::external_result(
            locale,
            "module output",
            "name {id}",
            "id {version}",
            "version {prefix}",
        );
        assert!(result.text.contains("name {id}"));
        assert!(result.text.contains("id {version}"));
        assert!(result.text.contains("version {prefix}"));
    }
}

#[test]
fn external_result_sanitizes_output() {
    let result = Response::external_result(
        Locale::Russian,
        "\x1b[31mкрасный\x1b[0m\n\t\x00bidi\u{202e}",
        "Тест",
        "t",
        "1.0",
    );
    assert!(!result.text.contains("\x1b["));
    assert!(!result.text.contains('\x00'));
    assert!(!result.text.contains('\u{202e}'));
    assert!(result.text.contains("красный"));
    assert!(result.text.contains('\n'));
    assert!(result.text.contains('\t'));
    assert!(
        result
            .text
            .contains("⚠️ Внешний модуль «Тест» (t v1.0) — код без песочницы.")
    );
}

#[test]
fn external_result_truncates_when_text_overflows() {
    let long = "🦀".repeat(MAX_UTF16_UNITS);
    let result = Response::external_result(Locale::Russian, &long, "Длинный", "long", "0.1");
    assert!(result.text.contains("… вывод сокращён"));
    assert!(
        result
            .text
            .contains("⚠️ Внешний модуль «Длинный» (long v0.1) — код без песочницы.")
    );
    assert!(result.text.encode_utf16().count() <= MAX_UTF16_UNITS);
}

#[test]
fn external_truncation_uses_selected_locale_suffix() {
    for (locale, suffix) in [
        (Locale::English, "… output truncated"),
        (Locale::Russian, "… вывод сокращён"),
    ] {
        let result =
            Response::external_result(locale, &"🦀".repeat(MAX_UTF16_UNITS), "Name", "id", "1");
        assert!(result.text.contains(suffix));
        assert!(result.text.encode_utf16().count() <= MAX_UTF16_UNITS);
    }
}

#[test]
fn external_result_provenance_present_even_for_empty_text() {
    let result = Response::external_result(Locale::Russian, "", "Пусто", "empty", "0.0");
    assert!(
        result
            .text
            .contains("⚠️ Внешний модуль «Пусто» (empty v0.0) — код без песочницы.")
    );
    assert!(result.text.encode_utf16().count() <= MAX_UTF16_UNITS);
}

#[test]
fn sanitize_removes_ansi_bidi_and_controls() {
    let cleaned = sanitize_external_output("a\x1b[1mb\x1b[0mc\u{200f}d\x00e");
    assert_eq!(cleaned, "abcde");
}

#[test]
fn sanitize_preserves_newlines_and_tabs() {
    let cleaned = sanitize_external_output("line1\n\tindented\nline3");
    assert_eq!(cleaned, "line1\n\tindented\nline3");
}

#[test]
fn sanitize_handles_ansi_without_terminator() {
    let cleaned = sanitize_external_output("hello\x1b[31m");
    assert_eq!(cleaned, "hello");
}

#[test]
fn sanitizing_twice_changes_nothing_more() {
    for text in [
        "",
        "plain\ttext\n",
        "\u{1b}[31mred\u{1b}[0m",
        "\u{1b}\u{1b}[\u{1b}[3",
        "a\u{1b}]b\u{202e}c\u{0}d\u{7f}\u{85}",
        "\u{1b}[[31mx",
    ] {
        let once = sanitize_external_output(text);
        assert_eq!(sanitize_external_output(&once), once);
        assert!(once
            .chars()
            .all(|c| c == '\n' || c == '\t' || !c.is_control()));
    }
    assert_eq!(sanitize_external_output("ж🦀\t\n"), "ж🦀\t\n");
}

#[test]
fn truncated_texts_fit_and_keep_their_beginning() {
    let short = "🦀".repeat(MAX_UTF16_UNITS / 2);
    assert_eq!(truncate_utf16(&short), short);
    for locale in [Locale::English, Locale::Russian] {
        let long = format!("{short}x");
        let cut = truncate_utf16_with_locale(locale, &long);
        assert!(cut.encode_utf16().count() <= MAX_UTF16_UNITS);
        let kept = cut.trim_end_matches(|c| c != '🦀');
        assert!(!kept.is_empty() && long.starts_with(kept));
    }
}

#[test]
fn four_blockquotes_need_four_sections() {
    let text = |sections: &[&str]| sections.join("\n\n");
    for sections in [
        &["one"][..],
        &["one", "two", "three"][..],
        &["one", "two", "three", ""][..],
        &["one", "two", "three", "four", "five"][..],
    ] {
        let response =
            Response::four_blockquotes_with_locale(Locale::English, text(sections));
        assert!(response.entities.is_empty());
        assert_eq!(response.text, text(sections));
    }
    let response = Response::four_blockquotes_with_locale(
        Locale::English,
        text(&["", "one", "two", "🦀", "four"]),
    );
    assert_eq!(response.entities.len(), 4);
}

#[test]
fn preformatted_texts_are_formatted_whole() {
    let response = Response::preformatted("код 🦀");
    match &response.entities[..] {
        [MessageEntity::Pre(entity)] => {
            assert_eq!((entity.offset, entity.length), (0, 6));
            assert_eq!(entity.language, "");
        }
        _ => panic!("expected one entity"),
    }
    assert!(Response::preformatted("").entities.is_empty());
}
