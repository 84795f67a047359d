use lavis::i18n::{
    ping_text, runtime_text, sensitive_text, InspectionWarning, Locale, PingText, RuntimeText,
    SensitiveText,
};
use lavis::peer::PeerId;
use lavis::response::Response;
use lavis::runtime::external::{
    external_event_error_category, missing_descriptor_response, ExternalError,
};
use lavis::runtime::info::{
    bounded_list, fastfetch_response, format_duration, format_latency, format_stats,
    parse_memory_kib, FastfetchInputError, FastfetchResult, ProcStats,
};
use lavis::runtime::install::{
    render_install_plan, ArchiveStatistics, ModuleInstallPlan, SourceIdentity,
};
use lavis::runtime::lm::lm_usage;
use lavis::runtime::policy::{
    authorize_sensitive_message, SensitiveCommandDenial, SensitiveCommandPolicy,
};
use lavis::runtime::setup::{setup_status_label, setup_status_response};
use std::time::Duration;

fn peer(id: grammers_session::types::PeerId) -> PeerId {
    PeerId {
        dialog_id: id.bot_api_dialog_id(),
    }
}

fn user(id: i64) -> PeerId {
    peer(grammers_session::types::PeerId::user(id).unwrap())
}

fn chat(id: i64) -> PeerId {
    peer(grammers_session::types::PeerId::chat(id).unwrap())
}

fn channel(id: i64) -> PeerId {
    peer(grammers_session::types::PeerId::channel(id).unwrap())
}

#[test]
fn mod_install_plan_renders_bounded_v6_method_grants() {
    let plan = ModuleInstallPlan {
        source_identity: SourceIdentity::Archive,
        module_id: "raw".to_owned(),
        module_version: "1".to_owned(),
        protocol_version: 6,
        entrypoint: "run".to_owned(),
        default_command: None,
        archive_digest: "0".repeat(64),
        archive: ArchiveStatistics {
            archive_bytes: 1,
            file_count: 1,
            compressed_bytes: 1,
            expanded_bytes: 1,
        },
        warnings: vec![
            InspectionWarning::StoredOnlyArchive,
            InspectionWarning::TelegramRawNotSandboxed,
        ],
        capabilities: vec!["telegram.raw".to_owned()],
        subscriptions: vec![],
        telegram_methods: vec!["account.updateStatus".to_owned()],
        actions: vec![],
        fingerprint: "fingerprint".to_owned(),
    };
    let approval_id = "0".repeat(32);
    for locale in [Locale::English, Locale::Russian] {
        let rendered = render_install_plan(locale, &plan, &approval_id, ".");
        assert!(rendered.contains("account.updateStatus"));
        assert!(!rendered.contains("StoredOnlyArchive"));
        assert!(!rendered.contains("TelegramRawNotSandboxed"));
    }
}

#[test]
fn mod_setup_status_codes_are_localized_without_echoing_unknown_values() {
    for (locale, expected_unknown) in [
        (Locale::English, "unknown"),
        (Locale::Russian, "неизвестно"),
    ] {
        for status in [
            "idle",
            "bot_validated",
            "complete",
            "completed_without_folder_capacity",
            "completed_without_folder_name_conflict",
            "companion_and_community_configured",
            "companion_configured_community_pending",
        ] {
            assert_ne!(setup_status_label(locale, status), expected_unknown);
        }
        assert_eq!(
            setup_status_label(locale, "untrusted_internal_value"),
            expected_unknown
        );
    }
}

#[test]
fn mod_persisted_idle_status_has_exactly_one_heading_in_each_locale() {
    for (locale, expected) in [
        (
            Locale::English,
            "⚙️ Setup status: idle\nBot: not configured",
        ),
        (
            Locale::Russian,
            "⚙️ Состояние настройки: бездействует\nБот: не настроен",
        ),
    ] {
        assert_eq!(
            setup_status_response(locale, "idle", None),
            Response::plain(expected)
        );
    }
}

#[test]
fn mod_missing_descriptor_output_is_sanitized_in_each_locale() {
    for locale in [Locale::English, Locale::Russian] {
        let response =
            missing_descriptor_response(locale, "safe\x1b[31m\x00bidi\u{202e}", "missing");
        assert!(response.text.contains("safebidi"));
        assert!(!response.text.contains('\x1b'));
        assert!(!response.text.contains('\x00'));
        assert!(!response.text.contains('\u{202e}'));
    }
}

#[test]
fn mod_sensitive_command_policies_distinguish_saved_messages_from_reboot_dialogs() {
    let saved = user(1);
    let private = user(2);
    let group = chat(3);
    let supergroup = channel(4);

    for peer in [saved, private, group, supergroup] {
        assert_eq!(
            authorize_sensitive_message(
                SensitiveCommandPolicy::Reboot,
                false,
                true,
                peer,
                1,
                None,
            ),
            Ok(())
        );
    }
    assert_eq!(
        authorize_sensitive_message(SensitiveCommandPolicy::Reboot, true, true, group, 1, None,),
        Err(SensitiveCommandDenial::Edited)
    );
    assert_eq!(
        SensitiveCommandDenial::Edited
            .response(Locale::Russian, SensitiveCommandPolicy::Reboot),
        sensitive_text(Locale::Russian, SensitiveText::RebootDenied)
    );

    let request = SensitiveCommandPolicy::ModuleMutation;
    assert_eq!(
        authorize_sensitive_message(request, false, true, private, 1, Some(saved)),
        Err(SensitiveCommandDenial::NotSavedMessages)
    );
    assert_eq!(
        authorize_sensitive_message(request, false, false, saved, 1, Some(saved)),
        Err(SensitiveCommandDenial::NotSelfAuthored)
    );
    assert_eq!(
        SensitiveCommandDenial::NotSavedMessages.response(Locale::Russian, request),
        sensitive_text(Locale::Russian, SensitiveText::ModuleMutationDenied)
    );
}

#[test]
fn mod_fastfetch_validation_and_failure_responses_follow_the_locale() {
    for (locale, invalid, failure) in [
        (
            Locale::English,
            "⚠️ Fastfetch input error: invalid --logo value. See !help fastfetch",
            "⚠️ Fastfetch timed out. See !help fastfetch",
        ),
        (
            Locale::Russian,
            "⚠️ Ошибка ввода Fastfetch: неверное значение --logo. См. !help fastfetch",
            "⚠️ Fastfetch превысил время ожидания. См. !help fastfetch",
        ),
    ] {
        assert_eq!(
            fastfetch_response(
                FastfetchResult::InvalidArguments(FastfetchInputError::InvalidLogo),
                locale,
                "!",
                "/tmp/fastfetch.json",
            ),
            Response::plain(invalid)
        );
        assert_eq!(
            fastfetch_response(
                FastfetchResult::TimedOut,
                locale,
                "!",
                "/tmp/fastfetch.json",
            ),
            Response::plain(failure)
        );
    }
}

#[test]
fn mod_reboot_and_sensitive_denial_responses_follow_the_locale() {
    for (locale, rebooting, reboot_denial, module_denial) in [
        (
            Locale::English,
            "♻️ Lavis is restarting…",
            "⚠️ Restart is available only from a new self-authored message.",
            "⚠️ This module operation is available only from a new self-authored message in Saved Messages.",
        ),
        (
            Locale::Russian,
            "♻️ Lavis перезапускается…",
            "⚠️ Перезапуск доступен только из нового собственного сообщения.",
            "⚠️ Эта операция с модулями доступна только из нового собственного сообщения в Saved Messages.",
        ),
    ] {
        assert_eq!(runtime_text(locale, RuntimeText::Rebooting), rebooting);
        for denial in [
            SensitiveCommandDenial::Edited,
            SensitiveCommandDenial::NotSelfAuthored,
            SensitiveCommandDenial::InvalidMessageId,
        ] {
            assert_eq!(
                denial.response(locale, SensitiveCommandPolicy::Reboot),
                reboot_denial
            );
        }
        assert_eq!(
            SensitiveCommandDenial::NotSavedMessages
                .response(locale, SensitiveCommandPolicy::ModuleMutation),
            module_denial
        );
    }
}

#[test]
fn mod_formats_durations_compactly() {
    assert_eq!(format_duration(Duration::ZERO.as_secs()), "0s");
    assert_eq!(format_duration(Duration::from_millis(999).as_secs()), "0s");
    assert_eq!(format_duration(Duration::from_secs(61).as_secs()), "1m 01s");
    assert_eq!(format_duration(Duration::from_secs(3_661).as_secs()), "1h 01m 01s");
    assert_eq!(
        format_duration(Duration::from_secs(183_845).as_secs()),
        "2d 03h 04m 05s"
    );
}

#[test]
fn mod_formats_latency_in_milliseconds() {
    assert_eq!(format_latency(Duration::ZERO.as_millis()), "<1 ms");
    assert_eq!(format_latency(Duration::from_micros(999).as_millis()), "<1 ms");
    assert_eq!(format_latency(Duration::from_millis(12).as_millis()), "12 ms");
}

#[test]
fn mod_ping_success_and_failure_follow_the_locale() {
    assert_eq!(
        ping_text(Locale::English, PingText::Success, "12 ms"),
        "🏓 Pong: 12 ms"
    );
    assert_eq!(
        runtime_text(Locale::English, RuntimeText::PingFailed),
        "⚠️ Telegram ping failed"
    );
    assert_eq!(
        ping_text(Locale::Russian, PingText::Success, "12 ms"),
        "🏓 Понг: 12 ms"
    );
    assert_eq!(
        runtime_text(Locale::Russian, RuntimeText::PingFailed),
        "⚠️ Не удалось выполнить Telegram ping"
    );
}

#[test]
fn mod_categorizes_external_event_failures_without_exposing_error_details() {
    assert_eq!(
        external_event_error_category(&ExternalError::Unavailable),
        "unavailable"
    );
    assert_eq!(
        external_event_error_category(&ExternalError::ExecutionTimeout),
        "timeout"
    );
    assert_eq!(
        external_event_error_category(&ExternalError::ProtocolDecode),
        "protocol"
    );
    assert_eq!(
        external_event_error_category(&ExternalError::ModuleError),
        "module_error"
    );
    assert_eq!(
        external_event_error_category(&ExternalError::NotReadable),
        "other"
    );
}

#[test]
fn mod_reports_fastfetch_exit_codes_without_stderr() {
    assert_eq!(
        fastfetch_response(
            FastfetchResult::NonZero {
                code: 1,
                stderr: "sensitive diagnostic".to_owned(),
            },
            Locale::English,
            "!",
            "/tmp/fastfetch.json",
        )
        .text,
        "⚠️ Fastfetch failed (exit code 1). See !help fastfetch"
    );
}

#[test]
fn mod_parses_memory_kib_with_extra_whitespace() {
    assert_eq!(
        parse_memory_kib("Name:\tlavis\nVmRSS:\t  1234 kB\n"),
        Some(1234)
    );
}

#[test]
fn mod_parses_rss_from_a_status_fixture_with_unrelated_fields() {
    let status = "Name:\tlavis\nVmSize:\t 20480 kB\nVmRSS: 10624 kB\nThreads:\t2\n";

    assert_eq!(parse_memory_kib(status), Some(10624));
}

#[test]
fn mod_rejects_missing_or_malformed_memory_kib() {
    assert_eq!(parse_memory_kib("Name:\tlavis\n"), None);
    assert_eq!(parse_memory_kib("VmRSS: bad kB\n"), None);
    assert_eq!(parse_memory_kib("VmRSS: 1234 bytes\n"), None);
}

#[test]
fn mod_formats_stats_with_all_labels_and_values() {
    let output = format_stats(
        Locale::English,
        "12 ms",
        Duration::from_secs(61).as_secs(),
        &ProcStats {
            system_uptime: Some(Duration::from_secs(3_600).as_secs()),
            memory_kib: Some(10_650),
        },
        2,
        "0.1.0",
    );

    assert!(output.contains("📊 Lavis stats"));
    assert!(output.contains("Telegram: 12 ms"));
    assert!(output.contains("📊 Lavis stats\n\nTelegram"));
    assert!(output.contains("Lavis uptime: 1m 01s"));
    assert!(output.contains("System uptime: 1h 00m 00s"));
    assert!(output.contains("Memory: 10.4 MiB RSS"));
    assert!(output.contains("Commands: 2"));
    assert!(output.contains(&format!("Version: {}", "0.1.0")));
}

#[test]
fn mod_stats_unavailable_values_follow_the_locale() {
    let unavailable = ProcStats::default();
    let english = format_stats(
        Locale::English,
        "unavailable",
        Duration::from_secs(1).as_secs(),
        &unavailable,
        0,
        "0.1.0",
    );
    assert!(english.contains("📊 Lavis stats"));
    assert!(english.contains("Telegram: unavailable"));
    assert!(english.contains("System uptime: unavailable"));
    assert!(english.contains("Memory: unavailable"));

    let russian = format_stats(
        Locale::Russian,
        "недоступно",
        Duration::from_secs(1).as_secs(),
        &unavailable,
        0,
        "0.1.0",
    );
    assert!(russian.contains("📊 Статистика Lavis"));
    assert!(russian.contains("Telegram: недоступно"));
    assert!(russian.contains("Время работы системы: недоступно"));
    assert!(russian.contains("Память: недоступно"));
}

#[test]
fn mod_module_install_lists_are_bounded_and_mutation_denial_text_is_exact() {
    let values = (0..10)
        .map(|index| format!("value-{index}"))
        .collect::<Vec<_>>();
    assert_eq!(
        bounded_list(Locale::Russian, &values),
        "value-0, value-1, value-2, value-3, value-4, value-5, value-6, value-7, ещё 2"
    );
    assert_eq!(
        sensitive_text(Locale::Russian, SensitiveText::ModuleMutationDenied),
        "⚠️ Эта операция с модулями доступна только из нового собственного сообщения в Saved Messages."
    );
}

#[test]
fn mod_lm_install_gate_accepts_self_authored_saved_message_when_outgoing_is_false() {
    let self_user_id = user(1);
    let outgoing = false;

    assert!(!outgoing);
    assert_eq!(
        authorize_sensitive_message(
            SensitiveCommandPolicy::ModuleMutation,
            false,
            true,
            self_user_id,
            1,
            Some(self_user_id),
        ),
        Ok(())
    );
}

#[test]
fn mod_lm_install_gate_rejects_nonfresh_wrong_peer_and_nonself_messages() {
    let self_user_id = user(1);
    let other_user_id = user(2);

    assert_eq!(
        authorize_sensitive_message(
            SensitiveCommandPolicy::ModuleMutation,
            false,
            true,
            self_user_id,
            0,
            Some(self_user_id),
        ),
        Err(SensitiveCommandDenial::InvalidMessageId)
    );
    assert_eq!(
        authorize_sensitive_message(
            SensitiveCommandPolicy::ModuleMutation,
            false,
            true,
            other_user_id,
            1,
            Some(self_user_id),
        ),
        Err(SensitiveCommandDenial::NotSavedMessages)
    );
    assert_eq!(
        authorize_sensitive_message(
            SensitiveCommandPolicy::ModuleMutation,
            false,
            false,
            self_user_id,
            1,
            Some(self_user_id),
        ),
        Err(SensitiveCommandDenial::NotSelfAuthored)
    );
}

#[test]
fn mod_lm_usage_lists_each_supported_form() {
    assert_eq!(
        lm_usage(Locale::Russian, "."),
        "⚠️ Использование:\n.lm\n.lm list\n.lm info <id>\n.lm logs <id>\n.lm doctor [<id>]\n.lm install\n.lm confirm <ApprovalId>\n.lm cancel <ApprovalId>\n.lm enable <id>\n.lm disable <id>"
    );
}

