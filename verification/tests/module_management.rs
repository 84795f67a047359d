use lavis::i18n::{
    lm_format, lm_label, lm_runtime_status, lm_text, ExternalModuleRuntimeStatus, InspectionWarning, LmLabel, LmText,
    Locale,
};
use lavis::onboarding::OnboardingProgress;
use lavis::peer::PeerId;
use lavis::response::Response;
use lavis::runtime::alias::AliasTable;
use lavis::runtime::info::{
    capabilities_label, commands_label, fresh_runtime_status, ModuleDiagnostic, ModuleManagement,
    ModuleStatus,
};
use lavis::runtime::install::{
    cancel_module_install, inspect_module_install, render_install_plan, ApprovalFailure,
    ArchiveStatistics, InspectionOutcome, InstallAction, InstallConfirmation, InstallFailure,
    InstallReply, ModuleInstallPlan, RegisteredModules, RevokeOutcome, SourceIdentity, UpdateWords,
};
use lavis::runtime::lm::{
    lm_doctor, lm_info, lm_invalid_usage_response, lm_logs, lm_request_mutates, lm_set_enabled,
    render_lm_list, LmRequest, ModuleCatalog, ModuleEntry, ModuleFailure, ModuleInfo, ModuleListing,
    ModuleLookup, SwitchOutcome,
};
use lavis::runtime::{RuntimeState, Settings};

fn module(id: &str) -> ModuleInfo {
    ModuleInfo {
        display_name: format!("Name of {id}"),
        id: id.to_owned(),
        version: "1".to_owned(),
        author: "A".to_owned(),
        enabled: true,
        management: ModuleManagement::Manual,
        entrypoint: "run".to_owned(),
        protocol_version: 6,
        capabilities: vec!["message.read".to_owned()],
        commands: vec!["go".to_owned(), "stop".to_owned()],
    }
}

fn installed(id: &str) -> ModuleEntry {
    ModuleEntry {
        id: Some(id.to_owned()),
        module: Some(module(id)),
        diagnostic: None,
        enabled: true,
        management: ModuleManagement::Manual,
    }
}

fn listing(installed_ids: &[&str], enabled_ids: &[&str]) -> ModuleListing {
    ModuleListing::Listed(ModuleCatalog {
        entries: installed_ids.iter().map(|id| installed(id)).collect(),
        enabled_ids: enabled_ids.iter().map(|id| id.to_string()).collect(),
    })
}

#[test]
fn lm_doctor_reports_installed_modules_and_unknown_targets() {
    let listing = listing(&["sample"], &[]);
    let doctor = |id| lm_doctor(Locale::Russian, id, &listing, &vec![], &vec![]).text;
    let all = doctor(None);
    assert!(all.contains("🩺 Диагностика внешних модулей"));
    assert!(all.contains("sample"));
    assert!(all.contains("Runtime: не запущен"));
    assert!(!all.contains("Последний сбой"));
    let one = doctor(Some("sample"));
    assert!(one.contains("🩺 Диагностика модуля sample"));
    let missing = doctor(Some("absent"));
    assert!(missing.contains("Модуль absent не найден."));
}

#[test]
fn lm_doctor_reports_missing_catalog_only_for_absent_ids() {
    let listing = listing(&["installed"], &["installed", "ghost"]);
    let doctor = |id| lm_doctor(Locale::Russian, id, &listing, &vec![], &vec![]).text;
    let all = doctor(None);
    assert!(all.contains("Name of installed"));
    assert_eq!(all.matches("каталог отсутствует").count(), 1, "{all}");
    assert!(all.contains("ghost"));
    let one = doctor(Some("installed"));
    assert!(one.contains("Name of installed"));
    assert_eq!(one.matches("каталог отсутствует").count(), 0);
    assert_eq!(
        doctor(Some("ghost")).matches("каталог отсутствует").count(),
        1
    );
}

#[test]
fn lm_doctor_tells_the_last_failure_and_the_runtime_status() {
    let failures = vec![ModuleFailure {
        id: "sample".to_owned(),
        summary: "exited with code 7".to_owned(),
    }];
    let statuses = vec![ModuleStatus {
        id: "sample".to_owned(),
        status: ExternalModuleRuntimeStatus::Failed,
    }];
    let told = lm_doctor(
        Locale::English,
        None,
        &listing(&["sample"], &[]),
        &statuses,
        &failures,
    );
    assert!(told.text.contains("exited with code 7"));
    assert_eq!(
        fresh_runtime_status(Locale::English, Some(&statuses), &vec![], "sample"),
        fresh_runtime_status(Locale::English, None, &statuses, "sample")
    );
    assert_eq!(
        fresh_runtime_status(Locale::English, Some(&vec![]), &statuses, "sample"),
        lm_label(Locale::English, LmLabel::NotRunning)
    );
}

#[test]
fn lm_info_logs_and_doctor_empty_responses_follow_the_locale() {
    for (locale, info_missing, logs_empty, doctor_all, doctor_missing) in [
        (
            Locale::Russian,
            "⚠️ Модуль не установлен.",
            "ℹ️ Для модуля missing нет сохранённой runtime-ошибки.",
            "🩺 Диагностика внешних модулей\n\nВнешние модули не установлены.",
            "ℹ️ Модуль missing не найден.",
        ),
        (
            Locale::English,
            "⚠️ Module is not installed.",
            "ℹ️ Module missing has no retained runtime error.",
            "🩺 External module diagnostics\n\nNo external modules are installed.",
            "ℹ️ Module missing was not found.",
        ),
    ] {
        assert_eq!(
            lm_info(locale, &ModuleLookup::ModuleNotInstalled, &vec![], None),
            Response::plain(info_missing)
        );
        assert_eq!(
            lm_logs(locale, true, "missing", None),
            Response::plain(logs_empty)
        );
        let empty = listing(&[], &[]);
        assert_eq!(
            lm_doctor(locale, None, &empty, &vec![], &vec![]),
            Response::plain(doctor_all)
        );
        assert_eq!(
            lm_doctor(locale, Some("missing"), &empty, &vec![], &vec![]),
            Response::plain(doctor_missing)
        );
    }
}

#[test]
fn bare_lm_and_lm_list_empty_responses_follow_the_locale() {
    let empty = listing(&[], &[]);
    assert_eq!(
        render_lm_list(Locale::Russian, ",", &empty, &vec![]),
        Response::plain(
            "📦 Внешние модули не установлены.\n\nПрикрепите .lmod к сообщению, затем используйте:\n,lm install",
        )
    );
    assert_eq!(
        render_lm_list(Locale::English, ",", &empty, &vec![]),
        Response::plain(
            "📦 No external modules are installed.\n\nAttach a .lmod document to a message, then use:\n,lm install",
        )
    );
}

#[test]
fn invalid_lm_usage_response_follows_the_locale() {
    assert_eq!(
        lm_invalid_usage_response(Locale::Russian, ","),
        Response::plain(
            "⚠️ Использование:\n,lm\n,lm list\n,lm info <id>\n,lm logs <id>\n,lm doctor [<id>]\n,lm install\n,lm confirm <ApprovalId>\n,lm cancel <ApprovalId>\n,lm enable <id>\n,lm disable <id>"
        )
    );
    assert_eq!(
        lm_invalid_usage_response(Locale::English, ","),
        Response::plain(
            "⚠️ Usage:\n,lm\n,lm list\n,lm info <id>\n,lm logs <id>\n,lm doctor [<id>]\n,lm install\n,lm confirm <ApprovalId>\n,lm cancel <ApprovalId>\n,lm enable <id>\n,lm disable <id>"
        )
    );
}

#[test]
fn the_list_shows_readable_broken_and_missing_modules() {
    let broken = ModuleEntry {
        id: None,
        module: None,
        diagnostic: Some(ModuleDiagnostic::InvalidManifest),
        enabled: false,
        management: ModuleManagement::DeclarativeNixOs,
    };
    let catalog = ModuleListing::Listed(ModuleCatalog {
        entries: vec![installed("one"), broken],
        enabled_ids: vec!["one".to_owned(), "ghost".to_owned()],
    });
    let statuses = vec![ModuleStatus {
        id: "one".to_owned(),
        status: ExternalModuleRuntimeStatus::Running,
    }];
    let label = |key| lm_label(Locale::English, key);
    let told = render_lm_list(Locale::English, ",", &catalog, &statuses).text;
    let expected = format!(
        "{heading}\n\n• Name of one\n  {id}: one\n  {version}: 1\n  {status}: {enabled}\n  {source}: {manual}\n  {runtime}: {running}\n  {author}: A\n  {commands}: 2\n\n• {invalid}\n  {diagnostic}: {manifest}\n  {status}: {disabled}\n  {source}: {declarative}\n\n• ghost\n  {status}: {missing}",
        heading = lm_text(Locale::English, LmText::ListHeading),
        id = label(LmLabel::Id),
        version = label(LmLabel::Version),
        status = label(LmLabel::Status),
        enabled = label(LmLabel::Enabled),
        disabled = label(LmLabel::Disabled),
        source = label(LmLabel::Source),
        manual = label(LmLabel::Manual),
        declarative = label(LmLabel::Declarative),
        runtime = label(LmLabel::Runtime),
        running = fresh_runtime_status(Locale::English, None, &statuses, "one"),
        author = label(LmLabel::Author),
        commands = label(LmLabel::Commands),
        invalid = label(LmLabel::InvalidId),
        diagnostic = label(LmLabel::Diagnostic),
        manifest = label(LmLabel::InvalidManifest),
        missing = label(LmLabel::MissingCatalog),
    );
    assert_eq!(told, expected);
}

#[test]
fn unavailable_listings_are_told_apart() {
    for (listing, key) in [
        (ModuleListing::Unavailable, LmText::Unavailable),
        (ModuleListing::StateUnavailable, LmText::StateUnavailable),
        (ModuleListing::ListUnavailable, LmText::ListUnavailable),
    ] {
        let expected = lm_text(Locale::English, key);
        assert_eq!(
            render_lm_list(Locale::English, ",", &listing, &vec![]).text,
            expected
        );
        assert_eq!(
            lm_doctor(Locale::English, Some("x"), &listing, &vec![], &vec![]).text,
            expected
        );
    }
    for (lookup, key) in [
        (ModuleLookup::Unavailable, LmText::Unavailable),
        (ModuleLookup::StateUnavailable, LmText::StateUnavailable),
        (ModuleLookup::InvalidInstalledModule, LmText::InvalidManifest),
        (ModuleLookup::Failed, LmText::NotInstalledOrUnavailable),
    ] {
        assert_eq!(
            lm_info(Locale::English, &lookup, &vec![], None).text,
            lm_text(Locale::English, key)
        );
    }
}

#[test]
fn module_details_list_capabilities_and_commands() {
    let told = lm_info(
        Locale::English,
        &ModuleLookup::Found(module("one")),
        &vec![],
        Some("it broke"),
    );
    for part in ["Name of one", "message.read", "go, stop", "it broke", "run"] {
        assert!(told.text.contains(part), "{part}");
    }
    let absent = lm_label(Locale::English, LmLabel::Absent);
    assert_eq!(capabilities_label(Locale::English, &vec![]), absent);
    assert_eq!(commands_label(Locale::English, &vec![]), absent);
}

#[test]
fn logs_tell_the_retained_error() {
    assert_eq!(
        lm_logs(Locale::English, false, "x", Some("it broke")).text,
        lm_text(Locale::English, LmText::RuntimeUnavailable)
    );
    assert_eq!(
        lm_logs(Locale::English, true, "x", Some("it {id} broke")).text,
        lm_format(
            Locale::English,
            LmText::LastModuleError,
            "x",
            "it {id} broke"
        )
    );
    assert!(lm_logs(Locale::English, true, "x", Some("it {id} broke"))
        .text
        .contains("it {id} broke"));
}

#[test]
fn switching_modules_is_answered() {
    for (outcome, key) in [
        (SwitchOutcome::Unavailable, LmText::Unavailable),
        (SwitchOutcome::StateUnavailable, LmText::StateUnavailable),
        (SwitchOutcome::DeclarativelyManaged, LmText::Declarative),
        (SwitchOutcome::Failed, LmText::StateChangeFailed),
    ] {
        assert_eq!(
            lm_set_enabled(Locale::English, ",", &outcome, true).text,
            lm_text(Locale::English, key)
        );
    }
    let switched = |changed| {
        lm_set_enabled(
            Locale::English,
            ",",
            &SwitchOutcome::Switched {
                changed,
                display_name: "One".to_owned(),
            },
            false,
        )
        .text
    };
    assert!(switched(true).contains("One"));
    assert_ne!(switched(true), switched(false));
}

#[test]
fn only_changes_are_sensitive() {
    let id = || "x".to_owned();
    for request in [
        LmRequest::Install,
        LmRequest::Confirm { approval_id: id() },
        LmRequest::Cancel { approval_id: id() },
        LmRequest::Enable { id: id() },
        LmRequest::Disable { id: id() },
    ] {
        assert!(lm_request_mutates(&request));
    }
    for request in [
        LmRequest::Overview,
        LmRequest::List,
        LmRequest::Info { id: id() },
        LmRequest::Logs { id: id() },
        LmRequest::Doctor { id: None },
        LmRequest::Invalid,
    ] {
        assert!(!lm_request_mutates(&request));
    }
}

const WORDS: UpdateWords<'static> = UpdateWords {
    planned: "{id} replaces v{detail}",
    updated: "{id} changed: {detail}",
    failed: "{id} stays: {detail}",
};

fn plan() -> ModuleInstallPlan {
    ModuleInstallPlan {
        source_identity: SourceIdentity::PinnedRepository {
            repository: "https://example.invalid/repo".to_owned(),
            revision: "abc123".to_owned(),
        },
        module_id: "one".to_owned(),
        module_version: "2.0".to_owned(),
        protocol_version: 6,
        entrypoint: "run".to_owned(),
        default_command: Some("main".to_owned()),
        archive_digest: "d".repeat(64),
        fingerprint: "fingerprint".to_owned(),
        archive: ArchiveStatistics {
            archive_bytes: 101,
            file_count: 102,
            compressed_bytes: 103,
            expanded_bytes: 104,
        },
        warnings: vec![InspectionWarning::StoredOnlyArchive],
        capabilities: (0..10).map(|number| format!("capability{number}")).collect(),
        subscriptions: vec![],
        telegram_methods: vec![],
        actions: vec!["{prefix}".to_owned()],
    }
}

#[test]
fn install_plans_show_everything_that_is_asked_for() {
    let told = render_install_plan(Locale::English, &plan(), "approval", ",");
    for part in [
        "https://example.invalid/repo @ abc123",
        "2.0",
        "main",
        "fingerprint",
        "101",
        "102",
        "103",
        "104",
        "capability0, capability1",
        "capability7, +2",
        "approval",
        "{prefix}",
    ] {
        assert!(told.contains(part), "{part}");
    }
    assert!(!told.contains("capability8"));
    let planned = |installed: Option<&str>| {
        inspect_module_install(
            Locale::English,
            ",",
            &WORDS,
            InspectionOutcome::Planned {
                plan: plan(),
                approval_id: "approval".to_owned(),
                installed: installed.map(str::to_owned),
            },
        )
    };
    assert_eq!(planned(None).text, told);
    assert_eq!(
        planned(Some("1.{detail}")).text,
        format!("{told}\none replaces v1.{{detail}}")
    );
    assert_eq!(
        planned(Some(&"9".repeat(5_000))),
        Response::plain(&format!("{told}\none replaces v{}", "9".repeat(5_000)))
    );
}

#[test]
fn inspections_and_cancellations_are_answered() {
    for (outcome, key) in [
        (
            InspectionOutcome::InstallUnavailable,
            LmText::InstallUnavailable,
        ),
        (InspectionOutcome::NoPackage, LmText::AttachPackage),
        (InspectionOutcome::UnsafePackage, LmText::UnsafePackage),
        (InspectionOutcome::NoApproval, LmText::PlanUnavailable),
    ] {
        assert_eq!(
            inspect_module_install(Locale::English, ",", &WORDS, outcome).text,
            lm_text(Locale::English, key)
        );
    }
    for (outcome, key) in [
        (RevokeOutcome::Revoked, LmText::Cancelled),
        (RevokeOutcome::Failed, LmText::PlanUnavailable),
        (RevokeOutcome::InvalidId, LmText::ApprovalInvalid),
        (RevokeOutcome::Unknown, LmText::ApprovalInvalid),
    ] {
        assert_eq!(
            cancel_module_install(Locale::English, outcome).text,
            lm_text(Locale::English, key)
        );
    }
}

fn begin(control: bool, manager: bool) -> InstallConfirmation {
    InstallConfirmation::begin(true, true, control, manager, RegisteredModules::Update)
        .unwrap_or_else(|_| panic!("the approval is acceptable"))
        .0
}

fn redeemed(control: bool, manager: bool) -> InstallConfirmation {
    let mut confirmation = begin(control, manager);
    let action = confirmation.redeemed(Ok(("one".to_owned(), "2.0".to_owned())));
    assert!(matches!(action, InstallAction::TakeStage));
    confirmation
}

/// The message of the end of an installation, and whether the stage is cleaned up.
fn refused(action: InstallAction) -> (LmText, bool) {
    match action {
        InstallAction::Finish {
            cleanup_stage,
            restart: false,
            refresh: false,
            reply: InstallReply::Message(key),
        } => (key, cleanup_stage),
        _ => panic!("expected a refusal"),
    }
}

fn concluded(action: InstallAction) -> (LmText, String) {
    match action {
        InstallAction::Finish {
            cleanup_stage: false,
            restart: false,
            refresh: true,
            reply,
        } => {
            let told = reply.render(Locale::English, &WORDS).text;
            match reply {
                InstallReply::About { key, module_id } => {
                    assert_eq!(told, lm_format(Locale::English, key, &module_id, ""));
                    (key, module_id)
                }
                _ => panic!("expected a message about the module"),
            }
        }
        _ => panic!("expected the end"),
    }
}

#[test]
fn confirmations_need_an_approval_and_a_place_to_install() {
    let refused = |valid, installation| {
        InstallConfirmation::begin(valid, installation, true, true, RegisteredModules::Update).err()
    };
    assert_eq!(refused(false, true), Some(LmText::ApprovalInvalid));
    assert_eq!(refused(false, false), Some(LmText::ApprovalInvalid));
    assert_eq!(refused(true, false), Some(LmText::InstallUnavailable));
    assert_eq!(refused(true, true), None);
}

#[test]
fn refused_installations_clean_up_what_they_took_over() {
    assert_eq!(
        self::refused(begin(true, true).redeemed(Err(ApprovalFailure::Unavailable))),
        (LmText::ApprovalInvalid, false)
    );
    assert_eq!(
        self::refused(begin(true, true).redeemed(Err(ApprovalFailure::Failed))),
        (LmText::PlanUnavailable, false)
    );
    assert_eq!(
        self::refused(redeemed(true, true).stage_taken(false)),
        (LmText::VerifiedPackageUnavailable, false)
    );
    let checking = || {
        let mut confirmation = redeemed(true, true);
        assert!(matches!(
            confirmation.stage_taken(true),
            InstallAction::CheckDeclarative
        ));
        confirmation
    };
    assert_eq!(
        self::refused(checking().declarative_checked(Some(true))),
        (LmText::Declarative, true)
    );
    assert_eq!(
        self::refused(checking().declarative_checked(None)),
        (LmText::PlanUnavailable, true)
    );
    let mut loading = checking();
    assert!(matches!(
        loading.declarative_checked(Some(false)),
        InstallAction::LoadState
    ));
    assert_eq!(
        self::refused(loading.state_loaded(None)),
        (LmText::StateUnavailable, true)
    );
    for (failure, key) in [
        (InstallFailure::TargetCleanup, LmText::InstallRollbackFailed),
        (
            InstallFailure::PostInstallValidation,
            LmText::InstallValidationFailed,
        ),
        (InstallFailure::Other, LmText::InstallFailed),
    ] {
        let mut installing = redeemed(false, true);
        assert!(matches!(
            installing.stage_taken(true),
            InstallAction::InstallFresh
        ));
        assert_eq!(
            self::refused(installing.confirm_fresh_install(Err(failure))),
            (key, true)
        );
    }
}

#[test]
fn new_modules_are_installed_and_registered() {
    let mut confirmation = redeemed(true, true);
    confirmation.stage_taken(true);
    confirmation.declarative_checked(Some(false));
    assert!(matches!(
        confirmation.state_loaded(Some((true, None))),
        InstallAction::InstallFresh
    ));
    assert!(matches!(
        confirmation.confirm_fresh_install(Ok(())),
        InstallAction::Register
    ));
    assert_eq!(
        concluded(confirmation.registered(true)),
        (LmText::InstalledDisabled, "one".to_owned())
    );

    let mut conflict = redeemed(false, true);
    conflict.stage_taken(true);
    conflict.confirm_fresh_install(Ok(()));
    assert_eq!(
        concluded(conflict.registered(false)).0,
        LmText::RegistrationConflict
    );

    let mut unmanaged = redeemed(false, false);
    unmanaged.stage_taken(true);
    assert_eq!(
        concluded(unmanaged.confirm_fresh_install(Ok(()))).0,
        LmText::InstalledDisabled
    );
}

#[test]
fn registered_modules_are_updated_and_started_again() {
    let updating = || {
        let mut confirmation = redeemed(true, true);
        confirmation.stage_taken(true);
        confirmation.declarative_checked(Some(false));
        assert!(matches!(
            confirmation.state_loaded(Some((true, Some("1.0".to_owned())))),
            InstallAction::Update
        ));
        confirmation
    };
    match updating().confirm_update(None) {
        InstallAction::Finish {
            cleanup_stage: false,
            restart: true,
            refresh: true,
            reply,
        } => {
            assert_eq!(
                reply.render(Locale::English, &WORDS).text,
                "one changed: v1.0 → v2.0"
            );
            assert!(matches!(reply, InstallReply::Updated { .. }));
        }
        _ => panic!("expected an update"),
    }
    match updating().confirm_update(Some("disk full".to_owned())) {
        InstallAction::Finish {
            restart: true,
            reply,
            ..
        } => {
            assert_eq!(
                reply.render(Locale::Russian, &WORDS).text,
                "one stays: disk full"
            );
            assert!(matches!(
                reply,
                InstallReply::UpdateFailed { reason, .. } if reason == "disk full"
            ));
        }
        _ => panic!("expected a failed update"),
    }
}

#[test]
fn where_registered_modules_are_refused_the_package_is_installed_at_once() {
    for manager in [true, false] {
        let mut confirmation =
            InstallConfirmation::begin(true, true, true, manager, RegisteredModules::Refuse)
                .unwrap_or_else(|_| panic!("the approval is acceptable"))
                .0;
        assert!(matches!(
            confirmation.plan_read("one".to_owned(), Ok(false)),
            InstallAction::Redeem
        ));
        confirmation.redeemed(Ok(("one".to_owned(), "2.0".to_owned())));
        assert!(matches!(
            confirmation.stage_taken(true),
            InstallAction::InstallFresh
        ));
    }
}

#[test]
fn registered_modules_may_be_refused_before_the_approval_is_used() {
    let reading = |manager| {
        InstallConfirmation::begin(true, true, true, manager, RegisteredModules::Refuse)
            .unwrap_or_else(|_| panic!("the approval is acceptable"))
            .0
    };
    match reading(true).plan_read("one".to_owned(), Ok(true)) {
        InstallAction::Finish {
            refresh: false,
            reply: InstallReply::About { key, module_id },
            ..
        } => {
            assert_eq!(key, LmText::AlreadyRegistered);
            assert_eq!(module_id, "one");
        }
        _ => panic!("expected a refusal"),
    }
    assert!(matches!(
        reading(true).plan_read("one".to_owned(), Ok(false)),
        InstallAction::Redeem
    ));
    assert!(matches!(
        reading(false).plan_read("one".to_owned(), Ok(true)),
        InstallAction::Redeem
    ));
    assert_eq!(
        self::refused(
            reading(true).plan_read(String::new(), Err(ApprovalFailure::Unavailable))
        ),
        (LmText::ApprovalInvalid, false)
    );
}

fn runtime(control: bool, manager: bool) -> RuntimeState {
    let saved = PeerId { dialog_id: Some(1) };
    let mut runtime = RuntimeState::new(
        AliasTable { entries: vec![] },
        Settings {
            prefix: ",".to_owned(),
            locale: Some(Locale::English),
            onboarding: OnboardingProgress::NotStarted,
        },
    );
    runtime.external_snapshot.module_statuses.push(ModuleStatus {
        id: "one".to_owned(),
        status: ExternalModuleRuntimeStatus::Failed,
    });
    runtime.external_manager = manager;
    if control {
        runtime.configure_module_control(saved);
        runtime.configure_module_installation(saved);
    }
    runtime
}

#[test]
fn the_state_decides_what_is_available() {
    let bare = runtime(false, false);
    let unavailable = lm_text(Locale::English, LmText::Unavailable);
    let one = || listing(&["one"], &[]);
    assert_eq!(bare.render_lm_list(&one(), &vec![]).text, unavailable);
    assert_eq!(
        bare.lm_doctor(None, &one(), &vec![], &vec![]).text,
        unavailable
    );
    assert_eq!(
        bare.lm_info(&ModuleLookup::Failed, &vec![], None).text,
        unavailable
    );
    assert_eq!(
        bare.lm_set_enabled(&SwitchOutcome::Failed, true).text,
        unavailable
    );
    assert_eq!(
        bare.lm_logs("one", None).text,
        lm_text(Locale::English, LmText::RuntimeUnavailable)
    );
    assert_eq!(
        bare.lm_invalid_usage_response(),
        lm_invalid_usage_response(Locale::English, ",")
    );
    assert_eq!(
        bare.inspect_module_install(&WORDS, InspectionOutcome::NoPackage)
            .text,
        lm_text(Locale::English, LmText::InstallUnavailable)
    );
    let refused = |runtime: &RuntimeState, valid| {
        runtime
            .confirm_module_install(valid, RegisteredModules::Update)
            .err()
            .map(|response| response.text)
    };
    assert_eq!(
        refused(&bare, true).as_deref(),
        Some(lm_text(Locale::English, LmText::InstallUnavailable))
    );
    let ready = runtime(true, true);
    assert_eq!(
        refused(&ready, false).as_deref(),
        Some(lm_text(Locale::English, LmText::ApprovalInvalid))
    );
    let (confirmation, action) = ready
        .confirm_module_install(true, RegisteredModules::Update)
        .unwrap_or_else(|_| panic!("the installation may begin"));
    assert!(confirmation.control && confirmation.manager);
    assert!(matches!(action, InstallAction::Redeem));
    assert_eq!(
        ready.cancel_module_install(RevokeOutcome::Revoked).text,
        lm_text(Locale::English, LmText::Cancelled)
    );
}

#[test]
fn lm_status_commands_use_a_fresh_snapshot() {
    let fresh = vec![ModuleStatus {
        id: "one".to_owned(),
        status: ExternalModuleRuntimeStatus::Running,
    }];
    let failures = vec![ModuleFailure {
        id: "one".to_owned(),
        summary: "it broke".to_owned(),
    }];
    let failed = lm_runtime_status(Locale::English, ExternalModuleRuntimeStatus::Failed);
    let running = lm_runtime_status(Locale::English, ExternalModuleRuntimeStatus::Running);
    for (manager, shown, hidden) in [(true, running, failed), (false, failed, running)] {
        let runtime = runtime(true, manager);
        let one = listing(&["one"], &[]);
        for told in [
            runtime.render_lm_list(&one, &fresh),
            runtime.lm_doctor(None, &one, &fresh, &failures),
            runtime.lm_info(&ModuleLookup::Found(module("one")), &fresh, Some("it broke")),
        ] {
            assert!(told.text.contains(shown) && !told.text.contains(hidden));
            if !manager {
                assert!(!told.text.contains("it broke"));
            }
        }
    }
}
