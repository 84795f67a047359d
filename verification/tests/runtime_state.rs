use lavis::i18n::{
    bilingual, lm_text, runtime_text, sensitive_text, setup_text, text, ExternalModuleRuntimeStatus,
    LmText, Locale, RuntimeText, SensitiveText, SetupText, Text,
};
use lavis::info::SelfIdentity;
use lavis::message_provenance::{SharedSelfEditLedger, MAX_ENTRIES};
use lavis::modules::modules;
use lavis::onboarding::OnboardingProgress;
use lavis::peer::PeerId;
use lavis::response::{MessageEntity, Response};
use lavis::runtime::alias::{
    execute_alias, Alias, AliasChange, AliasEntry, AliasRequest, AliasTable, ResolvedAlias,
};
use lavis::runtime::external::{
    ExternalInvocation, ExternalModuleDescriptor, ExternalRuntimeSnapshot,
};
use lavis::runtime::info::{
    fastfetch_answer, fastfetch_response, format_info, format_memory, FastfetchInputError,
    FastfetchProfileError, FastfetchResult, ModuleStatus, ProcStats, SummaryWords,
};
use lavis::runtime::lm::LmRequest;
use lavis::runtime::setup::{SetupPhase, SetupRequest};
use lavis::runtime::upstream::{RevisionRelation, UpstreamRevision, VersionRelation};
use lavis::runtime::{
    Action, InfoFacts, LanguageRequest, MessageContext, PostEditAction, PrefixRequest,
    RuntimeExecution, RuntimeState, SetupEntry, SetupRoute, StartRequest, StartStep, Task, Settings,
};

fn user(id: i64) -> PeerId {
    PeerId {
        dialog_id: Some(id),
    }
}

fn runtime_in(locale: Option<Locale>) -> RuntimeState {
    let mut aliases = AliasTable { entries: vec![] };
    aliases.add(
        "Mini",
        Alias {
            target: "fastfetch".to_owned(),
            args: vec!["--separator".to_owned(), " → ".to_owned()],
        },
    );
    RuntimeState::new(
        aliases,
        Settings {
            prefix: ",".to_owned(),
            locale,
            onboarding: OnboardingProgress::NotStarted,
        },
    )
}

fn context(peer_id: PeerId) -> MessageContext {
    MessageContext {
        peer_id,
        message_id: 5,
        edited: false,
        authored_by_self: true,
    }
}

fn plain(execution: &RuntimeExecution) -> &str {
    assert!(execution.provision.is_none());
    assert!(execution.shutdown.is_none());
    assert!(execution.post_edit.is_none());
    assert!(!execution.onboarding_page);
    assert!(execution.media.is_none());
    assert!(execution.response.entities.is_empty());
    &execution.response.text
}

fn replied(step: StartStep) -> RuntimeExecution {
    match step {
        StartStep::Reply(execution) => execution,
        StartStep::Setup => panic!("expected a reply"),
    }
}

fn answered(task: Task) -> RuntimeExecution {
    match task {
        Task::Answered(execution) => execution,
        _ => panic!("expected an answer"),
    }
}

#[test]
fn setup_timeout_ends_flow_without_an_inbound_botfather_update() {
    let mut runtime = runtime_in(Some(Locale::English));
    let saved_messages = user(1);
    let botfather = user(2);
    runtime.configure_setup(saved_messages);
    runtime.set_setup_botfather_peer(botfather);
    runtime.setup.as_mut().unwrap().phase = SetupPhase::AwaitingUsername {
        automatic: false,
        deadline: 1_001,
    };
    assert_eq!(runtime.setup_timeout_deadline(), Some(1_001));
    assert!(runtime.handle_setup_timeout(1_000).is_none());
    assert!(runtime.setup_protects_message(saved_messages, true));
    let response = runtime.handle_setup_timeout(1_001).unwrap();
    assert!(response.text.contains("timed out"));
    assert!(runtime.setup_timeout_deadline().is_none());
    assert!(runtime.setup_protects_message(botfather, false));
    assert!(!runtime.setup_protects_message(saved_messages, true));
    assert!(runtime.handle_setup_timeout(u64::MAX).is_none());
}

#[test]
fn messages_are_routed_by_the_setup() {
    let mut runtime = runtime_in(None);
    let route = |runtime: &RuntimeState, peer: i64, own: bool, edited: bool| {
        runtime.handle_setup_input(user(peer), own, own, edited)
    };
    assert_eq!(route(&runtime, 2, false, false), SetupRoute::Ignored);
    runtime.configure_setup(user(1));
    assert_eq!(route(&runtime, 2, false, false), SetupRoute::Ignored);
    runtime.set_setup_botfather_peer(user(2));
    assert_eq!(route(&runtime, 2, false, false), SetupRoute::BotFatherReply);
    assert_eq!(route(&runtime, 2, true, false), SetupRoute::Swallowed);
    assert_eq!(route(&runtime, 2, false, true), SetupRoute::Swallowed);
    assert_eq!(route(&runtime, 1, true, false), SetupRoute::Ignored);
    runtime.setup.as_mut().unwrap().phase = SetupPhase::Running {
        automatic: false,
        attempts: 1,
        deadline: 9,
    };
    assert_eq!(route(&runtime, 1, true, false), SetupRoute::OwnerInput);
    assert_eq!(route(&runtime, 1, false, false), SetupRoute::Ignored);
    assert_eq!(route(&runtime, 3, true, false), SetupRoute::Ignored);
}

#[test]
fn setup_commands_are_taken_in_saved_messages_only() {
    let mut runtime = runtime_in(Some(Locale::English));
    let refused = |runtime: &RuntimeState, peer: i64| match runtime.execute_setup(user(peer)) {
        SetupEntry::Reply(execution) => Some(plain(&execution).to_owned()),
        SetupEntry::Coordinator => None,
    };
    assert_eq!(
        refused(&runtime, 1).as_deref(),
        Some(setup_text(Locale::English, SetupText::Unavailable))
    );
    runtime.configure_setup(user(1));
    assert_eq!(
        refused(&runtime, 2).as_deref(),
        Some(setup_text(Locale::English, SetupText::SavedMessagesOnly))
    );
    assert_eq!(refused(&runtime, 1), None);
    assert!(!runtime.external_projection_permitted);
    runtime.after_setup_step();
    assert!(!runtime.external_projection_permitted);
    runtime.setup.as_mut().unwrap().botfather_peer = Some(user(2));
    runtime.after_setup_step();
    assert!(runtime.external_projection_permitted);
}

#[test]
fn the_language_is_shown_and_changed_once_it_is_stored() {
    let mut runtime = runtime_in(None);
    assert_eq!(runtime.locale(), Locale::Russian);
    assert_eq!(
        runtime
            .execute_language(&LanguageRequest::Show, false)
            .text,
        bilingual(Text::LanguageChoose, ",")
    );
    assert_eq!(
        runtime
            .execute_language(&LanguageRequest::Change(Locale::English), false)
            .text,
        text(Locale::English, Text::LanguageSaveFailed)
    );
    assert_eq!(runtime.locale(), Locale::Russian);
    assert_eq!(
        runtime
            .execute_language(&LanguageRequest::Change(Locale::English), true)
            .text,
        format!("🌐 {}: en", text(Locale::English, Text::LanguageChanged))
    );
    assert_eq!(runtime.locale(), Locale::English);
    assert_eq!(
        runtime
            .execute_language(&LanguageRequest::Show, false)
            .text,
        format!("🌐 {}: en", text(Locale::English, Text::LanguageCurrent))
    );
    assert_eq!(
        runtime
            .execute_language(&LanguageRequest::Invalid, false)
            .text,
        format!("⚠️ {}", text(Locale::English, Text::LanguageUsage))
    );
}

#[test]
fn the_tutorial_asks_for_a_language_first() {
    let mut runtime = runtime_in(None);
    for request in [StartRequest::Begin, StartRequest::Skip, StartRequest::Bot] {
        let changes = runtime.start_changes(&request);
        assert!(changes.locale.is_none() && changes.onboarding.is_none());
        let execution = replied(runtime.execute_start(&request, true, true));
        assert_eq!(plain(&execution), bilingual(Text::OnboardingSelect, ","));
    }
    assert_eq!(runtime.settings.onboarding, OnboardingProgress::NotStarted);
}

#[test]
fn the_tutorial_goes_on_only_with_what_was_stored() {
    let mut runtime = runtime_in(None);
    let request = StartRequest::Locale(Locale::English);
    let changes = runtime.start_changes(&request);
    assert_eq!(changes.locale, Some(Locale::English));
    assert_eq!(changes.onboarding, Some(OnboardingProgress::Intro));

    let failed = replied(runtime.execute_start(&request, false, false));
    assert_eq!(
        plain(&failed),
        text(Locale::English, Text::LanguageSaveFailed)
    );
    assert_eq!(runtime.settings.locale, None);

    let failed = replied(runtime.execute_start(&request, true, false));
    assert_eq!(
        plain(&failed),
        text(Locale::English, Text::OnboardingSaveFailed)
    );
    assert_eq!(runtime.settings.locale, Some(Locale::English));
    assert_eq!(runtime.settings.onboarding, OnboardingProgress::NotStarted);

    let page = replied(runtime.execute_start(&request, true, true));
    assert!(page.onboarding_page);
    assert_eq!(
        page.response.text,
        format!(
            "{}\n\n{}",
            OnboardingProgress::Intro.message(Locale::English, ","),
            text(Locale::English, Text::StartUsage).replace("{prefix}", ",")
        )
    );
    assert_eq!(runtime.settings.onboarding, OnboardingProgress::Intro);

    let next = runtime.delivered_onboarding();
    runtime.mark_onboarding_delivered(false);
    assert_eq!(runtime.settings.onboarding, OnboardingProgress::Intro);
    runtime.mark_onboarding_delivered(true);
    assert_eq!(runtime.settings.onboarding, next);
    assert_ne!(next, OnboardingProgress::Intro);
}

#[test]
fn the_tutorial_can_be_skipped_and_leads_to_the_setup() {
    let mut runtime = runtime_in(Some(Locale::English));
    assert!(matches!(
        runtime.execute_start(&StartRequest::Bot, false, false),
        StartStep::Setup
    ));
    let failed = replied(runtime.execute_start(&StartRequest::Skip, false, false));
    assert_eq!(
        plain(&failed),
        text(Locale::English, Text::OnboardingSaveFailed)
    );
    let skipped = replied(runtime.execute_start(&StartRequest::Skip, false, true));
    assert_eq!(
        plain(&skipped),
        OnboardingProgress::Skipped.message(Locale::English, ",")
    );
    assert_eq!(runtime.settings.onboarding, OnboardingProgress::Skipped);
    let usage = replied(runtime.execute_start(&StartRequest::Invalid, false, false));
    assert_eq!(
        plain(&usage),
        format!(
            "⚠️ {}",
            text(Locale::English, Text::StartUsage).replace("{prefix}", ",")
        )
    );
    assert_eq!(
        runtime.start_changes(&StartRequest::Begin).onboarding,
        Some(OnboardingProgress::Intro)
    );
}

#[test]
fn prefix_changes_persist_reset_and_fail_without_changing_runtime_state() {
    let mut runtime = runtime_in(None);
    assert_eq!(runtime.prefix(), ",");
    assert_eq!(
        runtime
            .execute_prefix(&PrefixRequest::Change(".".to_owned()), true)
            .text,
        "⚙️ Префикс команд изменён: ."
    );
    assert_eq!(runtime.prefix(), ".");
    assert_eq!(
        runtime.execute_prefix(&PrefixRequest::Reset, true).text,
        "⚙️ Префикс сброшен: ,"
    );
    assert_eq!(runtime.prefix(), ",");
    assert!(runtime
        .execute_prefix(&PrefixRequest::Change("bad".to_owned()), false)
        .text
        .contains("Не удалось изменить"));
    assert_eq!(runtime.prefix(), ",");
    assert!(runtime
        .execute_prefix(&PrefixRequest::Reset, false)
        .text
        .contains("Не удалось сбросить"));
}

fn alias_text_of(runtime: &mut RuntimeState, request: AliasRequest, change: AliasChange) -> String {
    runtime.execute_alias(&request, change).text
}

#[test]
fn prefix_and_alias_responses_follow_the_locale_without_internal_errors() {
    let mut runtime = runtime_in(None);
    for (locale, current, usage, added, listed, shown, deleted, missing, invalid_alias) in [
        (
            Locale::English,
            "⚙️ Active prefix: ,",
            "⚠️ Usage: ,prefix [new-prefix|reset]",
            "🔗 Added alias: ,new",
            "🔗 Aliases\n\n,mini → ,fastfetch --separator ' → '\n,new → ,ping",
            "🔗 ,new\n\nAlias for:\n,ping",
            "🔗 Deleted alias: ,new",
            "❓ Alias not found: missing",
            "⚠️ Usage: ,alias [list|add <name> <command> [arguments...]|show <name>|del <name>]",
        ),
        (
            Locale::Russian,
            "⚙️ Текущий префикс: ,",
            "⚠️ Использование: ,prefix [new-prefix|reset]",
            "🔗 Добавлен псевдоним: ,new",
            "🔗 Псевдонимы\n\n,mini → ,fastfetch --separator ' → '\n,new → ,ping",
            "🔗 ,new\n\nПсевдоним для:\n,ping",
            "🔗 Псевдоним удалён: ,new",
            "❓ Псевдоним не найден: missing",
            "⚠️ Использование: ,alias [list|add <name> <command> [arguments...]|show <name>|del <name>]",
        ),
    ] {
        runtime.settings.locale = Some(locale);
        assert_eq!(
            runtime.execute_prefix(&PrefixRequest::Show, false).text,
            current
        );
        assert_eq!(
            runtime.execute_prefix(&PrefixRequest::Invalid, false).text,
            usage
        );
        let add = AliasRequest::Add {
            name: "new".to_owned(),
            target: "ping".to_owned(),
            args: vec![],
        };
        assert_eq!(alias_text_of(&mut runtime, add, AliasChange::Made), added);
        assert_eq!(
            alias_text_of(&mut runtime, AliasRequest::List, AliasChange::Made),
            listed
        );
        let show = AliasRequest::Show {
            name: "new".to_owned(),
        };
        assert_eq!(alias_text_of(&mut runtime, show, AliasChange::Made), shown);
        let delete = |name: &str| AliasRequest::Delete {
            name: name.to_owned(),
        };
        assert_eq!(
            alias_text_of(&mut runtime, delete("new"), AliasChange::Made),
            deleted
        );
        assert_eq!(
            alias_text_of(&mut runtime, delete("missing"), AliasChange::NotFound),
            missing
        );
        assert_eq!(
            alias_text_of(&mut runtime, AliasRequest::Invalid, AliasChange::Made),
            invalid_alias
        );
    }
    for (locale, prefix_error, alias_error) in [
        (
            Locale::English,
            "⚠️ Could not change prefix.",
            "⚠️ Could not add alias.",
        ),
        (
            Locale::Russian,
            "⚠️ Не удалось изменить префикс.",
            "⚠️ Не удалось добавить псевдоним.",
        ),
    ] {
        runtime.settings.locale = Some(locale);
        assert_eq!(
            runtime
                .execute_prefix(&PrefixRequest::Change("bad".to_owned()), false)
                .text,
            prefix_error
        );
        let add = AliasRequest::Add {
            name: "ping".to_owned(),
            target: "stats".to_owned(),
            args: vec![],
        };
        assert_eq!(
            alias_text_of(&mut runtime, add, AliasChange::Failed),
            alias_error
        );
    }
}

#[test]
fn alias_changes_take_effect_once_they_are_stored() {
    let mut runtime = runtime_in(Some(Locale::English));
    let add = |name: &str, target: &str, args: &[&str]| AliasRequest::Add {
        name: name.to_owned(),
        target: target.to_owned(),
        args: args.iter().map(|word| (*word).to_owned()).collect(),
    };
    let delete = |name: &str| AliasRequest::Delete {
        name: name.to_owned(),
    };
    let names = |runtime: &RuntimeState| -> Vec<String> {
        let entries = &runtime.aliases.entries;
        entries.iter().map(|entry| entry.name.clone()).collect()
    };
    for change in [AliasChange::Failed, AliasChange::NotFound] {
        runtime.execute_alias(&add("new", "ping", &[]), change);
        runtime.execute_alias(&delete("mini"), change);
        assert_eq!(names(&runtime), ["mini"]);
    }
    runtime.execute_alias(&add("NEW", "ping", &["two words"]), AliasChange::Made);
    runtime.execute_alias(&add("a", "stats", &[]), AliasChange::Made);
    runtime.execute_alias(&add("minimum", "help", &[]), AliasChange::Made);
    assert_eq!(names(&runtime), ["a", "mini", "minimum", "new"]);
    match runtime.resolve_alias("New", "x") {
        Some(ResolvedAlias::Command { name, args }) => {
            assert_eq!(name, "ping");
            assert_eq!(args, "'two words' x");
        }
        _ => panic!("the alias is known"),
    }
    assert_eq!(
        alias_text_of(&mut runtime, AliasRequest::List, AliasChange::Made),
        "🔗 Aliases\n\n,a → ,stats\n,mini → ,fastfetch --separator ' → '\n,minimum → ,help\n\
         ,new → ,ping 'two words'"
    );
    runtime.execute_alias(&add("new", "info", &[]), AliasChange::Made);
    assert_eq!(names(&runtime), ["a", "mini", "minimum", "new"]);
    assert_eq!(runtime.aliases.lookup("NEW").unwrap().target, "info");
    runtime.execute_alias(&delete("nEW"), AliasChange::Made);
    assert_eq!(names(&runtime), ["a", "mini", "minimum"]);
    assert!(runtime.resolve_alias("new", "").is_none());
    assert_eq!(runtime.aliases.lookup("mini").unwrap().target, "fastfetch");
}

#[test]
fn shows_existing_alias_with_utf16_safe_collapsed_body() {
    let runtime = runtime_in(Some(Locale::English));
    let response = execute_alias(
        Locale::English,
        "🦀",
        &runtime.aliases,
        &AliasRequest::Show {
            name: "MINI".to_owned(),
        },
        AliasChange::Made,
    );
    let units = response.text.encode_utf16().collect::<Vec<_>>();
    let MessageEntity::Blockquote(entity) = &response.entities[0] else {
        panic!("expected a blockquote entity");
    };
    assert_eq!(
        response.text,
        "🔗 🦀mini\n\nAlias for:\n🦀fastfetch --separator ' → '"
    );
    assert_eq!(response.entities.len(), 1);
    assert!(entity.collapsed);
    let offset = usize::try_from(entity.offset).unwrap();
    let length = usize::try_from(entity.length).unwrap();
    assert_eq!(
        String::from_utf16(&units[..offset]).unwrap(),
        "🔗 🦀mini\n\n"
    );
    assert_eq!(
        String::from_utf16(&units[offset..offset + length]).unwrap(),
        "Alias for:\n🦀fastfetch --separator ' → '"
    );
}

#[test]
fn reports_missing_alias_and_invalid_show_usage() {
    let runtime = runtime_in(Some(Locale::English));
    let told = |request: AliasRequest| {
        execute_alias(
            Locale::English,
            "!",
            &runtime.aliases,
            &request,
            AliasChange::Made,
        )
    };
    assert_eq!(
        told(AliasRequest::Show {
            name: "MISSING".to_owned()
        }),
        Response::plain("⚠️ Alias does not exist: !missing")
    );
    assert_eq!(
        told(AliasRequest::Invalid),
        Response::plain(
            "⚠️ Usage: !alias [list|add <name> <command> [arguments...]|show <name>|del <name>]"
        )
    );
}

#[test]
fn aliases_resolve_to_their_target_with_all_arguments() {
    let runtime = runtime_in(None);
    match runtime.resolve_alias("Mini", "--logo 'two words'") {
        Some(ResolvedAlias::Command { name, args }) => {
            assert_eq!(name, "fastfetch");
            assert_eq!(args, "--separator ' → ' --logo 'two words'");
            assert_eq!(
                shell_words::split(&args).unwrap(),
                ["--separator", " → ", "--logo", "two words"]
            );
        }
        _ => panic!("the alias is known"),
    }
    assert!(runtime.resolve_alias("absent", "x").is_none());
    assert!(runtime.resolve_alias("absent", "'").is_none());
}

#[test]
fn fastfetch_errors_use_prefix_and_malformed_aliases_are_visible() {
    let mut runtime = runtime_in(None);
    assert_eq!(
        fastfetch_response(
            FastfetchResult::InvalidArguments(FastfetchInputError::InvalidLogo),
            Locale::English,
            "🦀",
            "/tmp/fastfetch.json",
        ),
        Response::plain("⚠️ Fastfetch input error: invalid --logo value. See 🦀help fastfetch")
    );
    let profile_path = std::path::PathBuf::from("/tmp/profile\nfastfetch.json");
    let response = fastfetch_response(
        FastfetchResult::ProfileError(FastfetchProfileError::Malformed),
        Locale::English,
        "🦀",
        profile_path.to_str().unwrap(),
    );
    assert!(response.text.contains("profile is malformed"));
    assert!(response.text.contains(&format!("{profile_path:?}")));
    assert!(!response.text.contains("/tmp/profile\nfastfetch.json"));
    assert!(response.text.contains("🦀help fastfetch"));
    assert!(matches!(
        runtime.resolve_alias("mini", "'"),
        Some(ResolvedAlias::Fastfetch { arguments }) if arguments == "'"
    ));
    runtime.aliases.entries[0].alias.target = "ping".to_owned();
    assert!(runtime.resolve_alias("mini", "'").is_none());
}

#[test]
fn profile_paths_are_quoted_in_every_message_that_shows_them() {
    let error = || FastfetchResult::ProfileError(FastfetchProfileError::NotReadable);
    assert_eq!(
        fastfetch_response(error(), Locale::English, "!", "/tmp/a \"b\"\n.json").text,
        "⚠️ Fastfetch profile cannot be read at \"/tmp/a \\\"b\\\"\\n.json\". See !help fastfetch"
    );
    assert_eq!(
        fastfetch_answer(error(), Locale::English, "!", "as told").text,
        "⚠️ Fastfetch profile cannot be read at as told. See !help fastfetch"
    );
}

#[test]
fn bounds_rejects_saturation_and_cleans_up_expected_self_edits() {
    let mut runtime = runtime_in(None);
    let peer = user(1);
    for message_id in 0..MAX_ENTRIES as i32 {
        runtime
            .register_expected_self_edit(peer, message_id, format!("response {message_id}"))
            .unwrap();
    }
    assert!(runtime
        .register_expected_self_edit(peer, 128, "response 128".to_owned())
        .is_err());
    assert!(runtime.consume_expected_self_edit(peer, 0, "response 0"));
    assert!(runtime.consume_expected_self_edit(peer, 1, "response 1"));

    runtime
        .register_expected_self_edit(peer, 42, "old response".to_owned())
        .unwrap();
    runtime
        .register_expected_self_edit(peer, 42, "new response".to_owned())
        .unwrap();
    assert!(runtime.consume_expected_self_edit(peer, 42, "old response"));
    assert!(runtime.consume_expected_self_edit(peer, 42, "new response"));

    runtime
        .register_expected_self_edit(peer, 43, "failed response".to_owned())
        .unwrap();
    runtime.remove_expected_self_edit(peer, 43, "failed response");
    assert!(!runtime.consume_expected_self_edit(peer, 43, "failed response"));

    runtime
        .register_expected_self_edit(peer, 44, "duplicate response".to_owned())
        .unwrap();
    runtime
        .register_expected_self_edit(peer, 44, "duplicate response".to_owned())
        .unwrap();
    assert!(runtime.consume_expected_self_edit(peer, 44, "duplicate response"));
    assert!(runtime.consume_expected_self_edit(peer, 44, "duplicate response"));
    assert!(!runtime.consume_expected_self_edit(peer, 44, "duplicate response"));

    let mut ledger = SharedSelfEditLedger::default();
    ledger.register(peer, 1, "shared".to_owned()).unwrap();
    runtime.set_self_edit_ledger(ledger);
    assert!(runtime.consume_expected_self_edit(peer, 1, "shared"));
}

#[test]
fn setup_edit_fallback_is_deduplicated_per_source() {
    let mut runtime = runtime_in(None);
    assert!(runtime.claim_setup_edit_fallback(user(1), 7));
    assert!(!runtime.claim_setup_edit_fallback(user(1), 7));
    assert!(runtime.claim_setup_edit_fallback(user(1), 8));
    assert!(runtime.claim_setup_edit_fallback(user(2), 7));
    runtime.register_setup_notification(user(1), 3);
    assert!(!runtime.consume_setup_notification(user(1), 4));
    assert!(runtime.consume_setup_notification(user(1), 3));
    assert!(!runtime.consume_setup_notification(user(1), 3));
}

#[test]
fn reboots_are_granted_to_new_messages_of_the_owner() {
    let runtime = runtime_in(Some(Locale::English));
    let granted = runtime.execute_reboot(context(user(4)));
    assert_eq!(granted.post_edit, Some(PostEditAction::ArmRebootReceipt));
    assert_eq!(
        granted.response.text,
        runtime_text(Locale::English, RuntimeText::Rebooting)
    );
    let denied = runtime.execute_reboot(MessageContext {
        edited: true,
        ..context(user(4))
    });
    assert_eq!(
        plain(&denied),
        sensitive_text(Locale::English, SensitiveText::RebootDenied)
    );
}

#[test]
fn commands_are_counted_and_lead_to_their_tasks() {
    let mut runtime = runtime_in(Some(Locale::English));
    let here = context(user(1));
    assert!(matches!(
        runtime.execute(&Action::Ping, here),
        Task::MeasureLatency
    ));
    assert!(matches!(
        runtime.execute(&Action::Stats, here),
        Task::MeasureStats
    ));
    assert!(matches!(
        runtime.execute(&Action::Info, here),
        Task::GatherFacts
    ));
    assert!(matches!(
        runtime.execute(&Action::Help(String::new()), here),
        Task::RenderHelp
    ));
    assert!(matches!(
        runtime.execute(&Action::Fastfetch(String::new()), here),
        Task::RunFastfetch
    ));
    assert!(matches!(
        runtime.execute(&Action::Modules { understood: true }, here),
        Task::RenderModules
    ));
    assert!(matches!(
        runtime.execute(
            &Action::External(ExternalInvocation {
                module_id: "a".to_owned(),
                command_name: "b".to_owned(),
                arguments: String::new(),
                argument_entities: vec![],
            }),
            here
        ),
        Task::RunExternal
    ));
    assert!(matches!(
        runtime.execute(
            &Action::Language(LanguageRequest::Change(Locale::Russian)),
            here
        ),
        Task::StoreLocale(Locale::Russian)
    ));
    let shown = answered(runtime.execute(&Action::Language(LanguageRequest::Show), here));
    assert!(plain(&shown).ends_with(": en"));
    assert!(matches!(
        runtime.execute(&Action::Prefix(PrefixRequest::Reset), here),
        Task::StorePrefix(prefix) if prefix == ","
    ));
    let shown = answered(runtime.execute(&Action::Prefix(PrefixRequest::Show), here));
    assert_eq!(plain(&shown), "⚙️ Active prefix: ,");
    assert!(matches!(
        runtime.execute(
            &Action::Alias(AliasRequest::Delete {
                name: "x".to_owned()
            }),
            here
        ),
        Task::StoreAlias
    ));
    let listed = answered(runtime.execute(&Action::Alias(AliasRequest::List), here));
    assert!(plain(&listed).contains(",mini"));
    assert!(matches!(
        runtime.execute(&Action::Start(StartRequest::Skip), here),
        Task::StoreStart(changes) if changes.onboarding == Some(OnboardingProgress::Skipped)
    ));
    let setup = answered(runtime.execute(&Action::Setup(SetupRequest::Start), here));
    assert_eq!(
        plain(&setup),
        setup_text(Locale::English, SetupText::Unavailable)
    );
    let reboot = answered(runtime.execute(&Action::Reboot, here));
    assert!(reboot.post_edit.is_some());
    assert_eq!(runtime.recognized_commands, 16);
    runtime.recognized_commands = u64::MAX;
    runtime.count_command();
    assert_eq!(runtime.recognized_commands, u64::MAX);
}

#[test]
fn modules_are_changed_from_saved_messages_only() {
    let mut runtime = runtime_in(Some(Locale::English));
    runtime.configure_module_control(user(1));
    runtime.configure_module_installation(user(1));
    assert_eq!(runtime.module_installation, Some(user(1)));
    assert!(matches!(
        runtime.execute(&Action::Lm(LmRequest::Install), context(user(1))),
        Task::ManageModules
    ));
    let denied = answered(runtime.execute(&Action::Lm(LmRequest::Install), context(user(2))));
    assert_eq!(
        plain(&denied),
        sensitive_text(Locale::English, SensitiveText::ModuleMutationDenied)
    );
    assert!(matches!(
        runtime.execute(&Action::Lm(LmRequest::List), context(user(2))),
        Task::ManageModules
    ));
    let usage = answered(runtime.execute(&Action::Lm(LmRequest::Invalid), context(user(2))));
    assert_eq!(
        plain(&usage),
        lm_text(Locale::English, LmText::Usage).replace("{prefix}", ",")
    );
}

#[test]
fn latency_and_statistics_are_told() {
    let mut runtime = runtime_in(Some(Locale::English));
    runtime.recognized_commands = 2;
    assert!(runtime.execute_ping(Some(12)).text.contains("12 ms"));
    assert!(runtime.execute_ping(Some(0)).text.contains("<1 ms"));
    assert_eq!(
        runtime.execute_ping(None).text,
        runtime_text(Locale::English, RuntimeText::PingFailed)
    );
    let stats = runtime.execute_stats(
        None,
        61,
        &ProcStats {
            system_uptime: Some(3_600),
            memory_kib: Some(10_624),
        },
        "0.1.0",
    );
    assert!(stats.text.contains("1m 01s"));
    assert!(stats.text.contains("1h 00m 00s"));
    assert!(stats.text.contains("10.4 MiB RSS"));
    assert!(stats.text.contains("unavailable"));
}

#[test]
fn memory_is_rounded_like_the_decimal_format() {
    for kib in (0..20_000u64)
        .chain([1_048_575, 10_000_000_000, 1 << 50, (1 << 53) - 1])
        .chain((0..2_000).map(|n| 51 + n * 1024 / 10))
    {
        assert_eq!(
            format_memory(kib),
            format!("{:.1} MiB RSS", kib as f64 / 1024.0),
            "{kib}"
        );
    }
}

fn facts() -> InfoFacts<'static> {
    InfoFacts {
        version: "0.1.0",
        version_relation: VersionRelation::Unavailable,
        build_rev: "0123456789abcdef",
        host: "standalone",
        os: "NixOS 25.05",
        words: None,
    }
}

#[test]
fn info_caption_computes_module_counts_from_runtime_state() {
    let descriptor = |id: &str| ExternalModuleDescriptor {
        id: id.to_owned(),
        display_name: id.to_owned(),
        version: "test".to_owned(),
        capabilities: vec![],
        receives: vec![],
    };
    let mut snapshot = ExternalRuntimeSnapshot::new();
    let built_in_modules = modules().len();
    snapshot.descriptors.push(descriptor("alpha"));
    snapshot.descriptors.push(descriptor("beta"));
    snapshot.module_statuses.push(ModuleStatus {
        id: "alpha".to_owned(),
        status: ExternalModuleRuntimeStatus::Running,
    });
    snapshot.module_statuses.push(ModuleStatus {
        id: "beta".to_owned(),
        status: ExternalModuleRuntimeStatus::InstalledDisabled,
    });
    let mut runtime = runtime_in(Some(Locale::English));
    runtime.set_external_manager(snapshot);
    let execution = runtime.execute_info(facts(), Some("info.png".to_owned()));
    assert!(execution.response.text.contains(&format!(
        "Modules: {} ({} active)",
        built_in_modules + 2,
        built_in_modules + 1
    )));
    assert!(execution.response.text.contains("Host: standalone"));
    assert!(execution.response.text.contains("OS: NixOS 25.05"));
    assert!(execution.response.text.contains("Owner: unknown"));
    assert_eq!(execution.media.as_deref(), Some("info.png"));
}

#[test]
fn info_names_the_owner_and_the_build() {
    let mut runtime = runtime_in(Some(Locale::English));
    assert!(runtime.self_identity().is_none());
    runtime.set_self_identity(SelfIdentity {
        username: Some("owner".to_owned()),
        display_name: None,
        id: 7,
    });
    assert_eq!(runtime.self_identity().unwrap().id, 7);
    let execution = runtime.execute_info(facts(), None);
    assert!(execution.response.text.contains("Owner: @owner"));
    assert!(execution.response.text.contains("Version: 0.1.0"));
    assert!(execution.response.text.contains("Current commit: 0123456\n"));
    assert!(execution.response.text.contains("Upstream main: unavailable"));
    assert!(execution.response.text.contains("Prefix: ,"));
    assert!(execution.media.is_none());
}

#[test]
fn text_only_summaries_count_the_modules() {
    assert_eq!(
        format_info(Locale::English, "0.1.0", "!", 4),
        format!(
            "ℹ️ Lavis — really your userbot\n\nVersion: 0.1.0\nMTProto: grammers\nModule API: v6\nPrefix: !\nBuilt-in modules: {}\nInstalled external modules: 4\nSource: https://tangled.org/zumuvik.tngl.sh/lavis",
            modules().len()
        )
    );
    assert!(format_info(Locale::Russian, "0.1.0", "!", 0)
        .contains("Установленные внешние модули: 0\n"));
}

#[test]
fn summaries_of_four_sections_are_quoted_and_tell_the_relation_to_upstream() {
    let words = || SummaryWords {
        caption: "Owner: {owner}\nVersion: {version}\n\nCurrent commit: {commit}\n\
                  Upstream main: {upstream}, {upstream_status}\n\n\
                  Prefix: {prefix}\nModules: {total} ({active} active)\n\nHost: {host}\nOS: {os}",
        unavailable: "not compared",
        current: "the same",
        ahead: "{commits} ahead",
        behind: "{commits} behind",
        diverged: "{ahead} ahead, {behind} behind",
    };
    let mut runtime = runtime_in(Some(Locale::English));
    assert!(runtime.execute_info(facts(), None).response.entities.is_empty());
    runtime.set_self_identity(SelfIdentity {
        username: Some("owner".to_owned()),
        display_name: None,
        id: 7,
    });
    let told = |runtime: &RuntimeState| {
        let facts = InfoFacts {
            version_relation: VersionRelation::Current,
            words: Some(words()),
            ..facts()
        };
        let response = runtime.execute_info(facts, None).response;
        assert_eq!(response.entities.len(), 4);
        response.text
    };
    assert!(told(&runtime).contains("Upstream main: unavailable, unavailable\n"));
    for (relation, status) in [
        (RevisionRelation::Unavailable, "not compared"),
        (RevisionRelation::Current, "the same"),
        (RevisionRelation::Ahead { commits: 2 }, "2 ahead"),
        (RevisionRelation::Behind { commits: 3 }, "3 behind"),
        (
            RevisionRelation::Diverged {
                ahead: 4,
                behind: 5,
            },
            "4 ahead, 5 behind",
        ),
    ] {
        runtime.publish_upstream_revision(Some(UpstreamRevision {
            revision: "b1d18f8ef407d043506c983b0d68e96c282eb1c9".to_owned(),
            relation,
            version: Some("0.1.0".to_owned()),
        }));
        assert_eq!(
            told(&runtime),
            format!(
                "Owner: @owner\nVersion: 0.1.0 (current ✅)\n\nCurrent commit: 0123456\n\
                 Upstream main: b1d18f8, {status}\n\n\
                 Prefix: ,\nModules: {0} ({0} active)\n\nHost: standalone\nOS: NixOS 25.05",
                modules().len()
            )
        );
    }
}

#[test]
fn aliases_and_defaults_are_found_by_their_names() {
    let entry = |name: &str, target: &str| AliasEntry {
        name: name.to_owned(),
        alias: Alias {
            target: target.to_owned(),
            args: vec![],
        },
    };
    let table = AliasTable {
        entries: vec![entry("one", "ping"), entry("two", "info")],
    };
    for (name, target) in [("one", "ping"), ("TWO", "info"), ("One", "ping")] {
        assert_eq!(table.lookup(name).unwrap().target, target);
    }
    assert!(table.lookup("three").is_none());

    let mut snapshot = ExternalRuntimeSnapshot::new();
    snapshot.active_defaults = vec![
        ("alpha".to_owned(), "start".to_owned()),
        ("beta".to_owned(), "run".to_owned()),
    ];
    for (module, command) in [("alpha", "start"), ("beta", "run")] {
        let found = snapshot.resolve_external_default(module, "x").unwrap();
        assert_eq!(found.module_id, module);
        assert_eq!(found.command_name, command);
    }
    assert!(snapshot.resolve_external_default("gamma", "x").is_none());
}
