use lavis::i18n::{
    external_command_text, info_text, lm_format, lm_runtime_status, lm_text, reboot_text,
    render_info_text, render_lm_install_plan, setup_text, text, ExternalCommandText,
    ExternalModuleRuntimeStatus, InfoCaptionData, InfoText, LmInstallPlanText, LmText, Locale,
    RebootText, SetupText, Text,
};

fn contains_cyrillic(value: &str) -> bool {
    value
        .chars()
        .any(|character| ('\u{0400}'..='\u{04ff}').contains(&character))
}

#[test]
fn external_command_categories_are_localized_without_translating_detail() {
    for (key, expected_english, expected_russian) in [
        (
            ExternalCommandText::RuntimeUnavailable,
            "⚠️ External modules are unavailable.",
            "⚠️ Внешние модули недоступны.",
        ),
        (
            ExternalCommandText::MissingDescriptor,
            "⚠️ Module «fixture» is missing from the module catalog.",
            "⚠️ Модуль «fixture» отсутствует в каталоге модулей.",
        ),
        (
            ExternalCommandText::Unavailable,
            "⚠️ Module «fixture» is unavailable or stopped with an error.",
            "⚠️ Модуль «fixture» недоступен или завершился с ошибкой.",
        ),
        (
            ExternalCommandText::Timeout,
            "⚠️ Module «fixture» did not respond in time.",
            "⚠️ Модуль «fixture» не ответил вовремя.",
        ),
        (
            ExternalCommandText::ProtocolDecode,
            "⚠️ Module «fixture» sent an invalid response.",
            "⚠️ Модуль «fixture» прислал некорректный ответ.",
        ),
        (
            ExternalCommandText::WrongRequestId,
            "⚠️ Module «fixture» responded with the wrong request ID.",
            "⚠️ Модуль «fixture» прислал ответ с неверным идентификатором запроса.",
        ),
        (
            ExternalCommandText::ModuleError,
            "⚠️ Module «fixture» reported an execution error.",
            "⚠️ Модуль «fixture» сообщил об ошибке выполнения.",
        ),
        (
            ExternalCommandText::ResultTooLarge,
            "⚠️ Module «fixture» returned a result that is too large.",
            "⚠️ Результат модуля «fixture» слишком большой.",
        ),
        (
            ExternalCommandText::GenericError,
            "⚠️ Module error «fixture»: third-party output",
            "⚠️ Ошибка модуля «fixture»: third-party output",
        ),
    ] {
        let english =
            external_command_text(Locale::English, key, "fixture", Some("third-party output"));
        let russian =
            external_command_text(Locale::Russian, key, "fixture", Some("third-party output"));
        assert_eq!(english, expected_english);
        assert_eq!(russian, expected_russian);
    }
}

#[test]
fn lm_interpolation_preserves_dynamic_placeholder_text() {
    for locale in [Locale::English, Locale::Russian] {
        let rendered = render_lm_install_plan(
            locale,
            LmInstallPlanText {
                source: "source {prefix}",
                module: "module {prefix}",
                version: "{prefix}",
                protocol: 6,
                entrypoint: "entry {prefix}",
                default_command: "{prefix}",
                sha256: "hash {prefix}",
                fingerprint: "fingerprint {prefix}",
                archive_bytes: 1,
                file_count: 1,
                compressed_bytes: 1,
                expanded_bytes: 1,
                capabilities: "cap {prefix}",
                subscriptions: "sub {prefix}",
                methods: "method {prefix}",
                actions: "action {prefix}",
                warnings: "warning {prefix}",
                approval_id: "id {prefix}",
                prefix: "!",
            },
        );
        assert!(rendered.contains("source {prefix}"));
        assert!(rendered.contains("warning {prefix}"));
        assert!(
            rendered.contains("Confirm: !lm confirm id {prefix}")
                || rendered.contains("Подтвердите: !lm confirm id {prefix}")
        );
    }
}

#[test]
fn persistence_failures_have_catalog_entries_in_both_locales() {
    assert_eq!(
        text(Locale::English, Text::LanguageSaveFailed),
        "⚠️ Could not save language."
    );
    assert_eq!(
        text(Locale::Russian, Text::LanguageSaveFailed),
        "⚠️ Не удалось сохранить язык."
    );
    assert_eq!(
        text(Locale::English, Text::OnboardingSaveFailed),
        "⚠️ Could not save tutorial progress."
    );
    assert_eq!(
        text(Locale::Russian, Text::OnboardingSaveFailed),
        "⚠️ Не удалось сохранить прогресс обучения."
    );
}

#[test]
fn reboot_ui_text_is_localized_for_pending_failure_and_completion() {
    for (locale, pending, failure, completion) in [
        (
            Locale::English,
            "⚠️ A previous restart confirmation is still pending.",
            "⚠️ Could not start the restart; Lavis is still running.",
            "✅ Lavis restarted\n\nRestart time: 35 s",
        ),
        (
            Locale::Russian,
            "⚠️ Уже ожидается подтверждение предыдущего перезапуска.",
            "⚠️ Не удалось начать перезапуск; Lavis продолжает работу.",
            "✅ Lavis перезагрузился\n\nВремя перезагрузки: 35 с",
        ),
    ] {
        assert_eq!(reboot_text(locale, RebootText::Pending, None), pending);
        assert_eq!(reboot_text(locale, RebootText::StartFailed, None), failure);
        assert_eq!(
            reboot_text(locale, RebootText::Completed, Some(35)),
            completion
        );
    }
}

#[test]
fn lm_surfaces_have_english_and_russian_catalog_entries() {
    for key in [
        LmText::Usage,
        LmText::Empty,
        LmText::Unavailable,
        LmText::StateUnavailable,
        LmText::ListUnavailable,
        LmText::RuntimeUnavailable,
        LmText::NoRuntimeError,
        LmText::LastModuleError,
        LmText::DoctorHeading,
        LmText::DoctorModuleHeading,
        LmText::DoctorEmpty,
        LmText::NotFound,
        LmText::InvalidManifest,
        LmText::NotInstalled,
        LmText::Declarative,
        LmText::InstallUnavailable,
        LmText::AttachPackage,
        LmText::UnsafePackage,
        LmText::PlanUnavailable,
        LmText::ApprovalInvalid,
        LmText::AlreadyRegistered,
        LmText::Cancelled,
    ] {
        let english = lm_format(Locale::English, key, "fixture", ".");
        assert!(!contains_cyrillic(&english));
        assert!(!lm_text(Locale::Russian, key).is_empty());
    }
}

#[test]
fn runtime_module_statuses_are_localized() {
    assert_eq!(
        lm_runtime_status(Locale::English, ExternalModuleRuntimeStatus::Running),
        "running"
    );
    assert_eq!(
        lm_runtime_status(
            Locale::Russian,
            ExternalModuleRuntimeStatus::InstalledDisabled
        ),
        "установлен, выключен"
    );
}

#[test]
fn info_caption_is_localized_without_hardcoded_counts() {
    let english = render_info_text(
        Locale::English,
        InfoCaptionData {
            owner: "@owner",
            version: "0.1.0",
            commit: "b1d18f8",
            upstream: "unavailable",
            prefix: ",",
            active_modules: 3,
            total_modules: 5,
            host: "standalone",
            os: "NixOS 25.05",
        },
    );
    assert!(english.contains("Owner: @owner"));
    assert!(english.contains("Version: 0.1.0"));
    assert!(english.contains("Current commit: b1d18f8"));
    assert!(english.contains("Upstream main: unavailable"));
    assert!(english.contains("Prefix: ,"));
    assert!(english.contains("Modules: 5 (3 active)"));
    assert!(english.contains("Host: standalone"));
    assert!(english.contains("OS: NixOS 25.05"));
    assert!(!contains_cyrillic(&english));

    let russian = render_info_text(
        Locale::Russian,
        InfoCaptionData {
            owner: "@owner",
            version: "0.1.0",
            commit: "b1d18f8",
            upstream: "недоступно",
            prefix: ",",
            active_modules: 3,
            total_modules: 5,
            host: "standalone",
            os: "NixOS 25.05",
        },
    );
    assert!(russian.contains("Владелец: @owner"));
    assert!(russian.contains("Версия: 0.1.0"));
    assert!(russian.contains("Основная ветка: недоступно"));
    assert!(russian.contains("Модули: 5 (3 активных)"));
}

#[test]
fn info_unavailable_string_is_localized() {
    assert_eq!(
        info_text(Locale::English, InfoText::Unavailable),
        "unavailable"
    );
    assert_eq!(
        info_text(Locale::Russian, InfoText::Unavailable),
        "недоступно"
    );
}

#[test]
fn language_codes_are_read_as_they_are_written() {
    for locale in [Locale::English, Locale::Russian] {
        assert_eq!(Locale::parse(locale.code()), Some(locale));
    }
    assert_eq!(Locale::parse("de"), None);
    assert_eq!(Locale::default(), Locale::Russian);
}

fn placeholders(template: &str) -> Vec<&str> {
    let mut names: Vec<&str> = template
        .split('{')
        .skip(1)
        .filter_map(|part| part.split_once('}'))
        .map(|(name, _)| name)
        .collect();
    names.sort_unstable();
    names.dedup();
    names
}

#[test]
fn messages_hold_the_same_placeholders_in_both_languages() {
    for (key, names) in [
        (SetupText::Plan, vec!["display_name", "username"]),
        (SetupText::Status, vec!["bot", "status"]),
        (SetupText::ProvisionFailed, vec!["prefix"]),
        (SetupText::Cancelled, vec![]),
    ] {
        let english = setup_text(Locale::English, key);
        let russian = setup_text(Locale::Russian, key);
        assert_eq!(placeholders(english), names);
        assert_eq!(placeholders(russian), names);
        assert_ne!(english, russian);
        assert!(!contains_cyrillic(english));
    }
    for (key, names) in [
        (LmText::Usage, vec!["prefix"]),
        (LmText::LastModuleError, vec!["detail", "id"]),
        (LmText::Empty, vec!["prefix"]),
        (LmText::ListHeading, vec![]),
    ] {
        let english = lm_text(Locale::English, key);
        let russian = lm_text(Locale::Russian, key);
        assert_eq!(placeholders(english), names);
        assert_eq!(placeholders(russian), names);
        assert_ne!(english, russian);
        assert!(!contains_cyrillic(english));
    }
    assert_eq!(
        placeholders(lm_text(Locale::English, LmText::InstallPlan)),
        placeholders(lm_text(Locale::Russian, LmText::InstallPlan))
    );
}
