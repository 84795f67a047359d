use lavis::i18n::{setup_text, Locale, SetupText};
use lavis::peer::PeerId;
use lavis::response::Response;
use lavis::runtime::setup::{
    asks_for_generated_username, check_identity, has_created_bot, identities_to_store,
    may_store_identity,
    repair_execution, repair_preflight, repair_target, retry_step, setup_status_response, status,
    BotFatherProgress, BotFatherStep, BotIdentities, BotIdentity, Confirmation, FlowStart,
    InputStep, RepairData, RepairStep, RepairTarget, SetupCoordinator, SetupPhase, SetupReply,
    SetupRequest, SetupStep, StoredSetup, MAX_AUTOMATIC_ATTEMPTS, SETUP_STAGE_TIMEOUT,
};

fn user(id: i64) -> PeerId {
    PeerId {
        dialog_id: Some(id),
    }
}

fn coordinator(phase: SetupPhase) -> SetupCoordinator {
    SetupCoordinator {
        saved_messages_peer: user(1),
        botfather_peer: None,
        phase,
    }
}

fn asking() -> SetupPhase {
    SetupPhase::AwaitingUsername {
        automatic: false,
        deadline: 5,
    }
}

fn running(automatic: bool, attempts: u8) -> SetupPhase {
    SetupPhase::Running {
        automatic,
        attempts,
        deadline: 5,
    }
}

fn said(step: SetupStep) -> Option<SetupText> {
    match step {
        SetupStep::Reply(SetupReply::Message(key)) => Some(key),
        _ => None,
    }
}

fn told(step: InputStep) -> Option<SetupText> {
    match step {
        InputStep::Reply(SetupReply::Message(key)) => Some(key),
        _ => None,
    }
}

#[test]
fn generated_username_has_no_botfather_side_effect_before_confirmation() {
    let mut setup = coordinator(SetupPhase::Idle);
    let reply = setup.confirm_or_start("lavis_0123_bot".to_owned(), true, 1, 10);
    assert!(reply.render(Locale::Russian).text.contains("confirm"));
    assert!(matches!(
        &setup.phase,
        SetupPhase::AwaitingConfirmation { username, automatic: true, attempts: 1, deadline }
            if username == "lavis_0123_bot" && *deadline == 10 + SETUP_STAGE_TIMEOUT
    ));
    assert!(setup.botfather_peer.is_none());
}

#[test]
fn interactive_username_transitions_to_confirmation_while_flow_is_active() {
    let mut setup = coordinator(asking());
    let step = setup.handle_input(None, false, Some("lavis_test_bot".to_owned()), 0);
    let InputStep::Reply(reply) = step else {
        panic!("expected the plan");
    };
    assert_eq!(
        reply.render(Locale::Russian).text,
        "📋 План настройки\n\n• Создать companion-бота @lavis_test_bot с именем «Lavis — really your userbot».\n• Создать или восстановить приватный Lavis workspace.\n• Присоединить ваш Telegram-аккаунт к официальному публичному сообществу @lavis_userbot.\n• Добавить workspace, бота и сообщество в папку Lavis.\n\nНапишите confirm для подтверждения или cancel для отмены."
    );
    assert!(matches!(
        setup.phase,
        SetupPhase::AwaitingConfirmation {
            automatic: false,
            ..
        }
    ));
}

#[test]
fn pending_setup_renders_with_the_locale_selected_at_response_time() {
    let mut setup = coordinator(asking());
    let InputStep::Reply(reply) = setup.handle_input(None, false, None, 0) else {
        panic!("expected a reply");
    };
    assert_eq!(
        reply.render(Locale::English),
        Response::plain(
            "⚠️ The username must contain 5–32 ASCII letters, digits, or _ and end in _bot."
        )
    );
    assert!(matches!(setup.phase, SetupPhase::AwaitingUsername { .. }));
}

#[test]
fn setup_commands_follow_the_phase() {
    let mut setup = coordinator(SetupPhase::Idle);
    assert_eq!(
        said(setup.handle_command(&SetupRequest::Cancel, false, None, 0)),
        Some(SetupText::NoActiveSetup)
    );
    assert_eq!(
        said(setup.handle_command(&SetupRequest::Start, true, None, 0)),
        Some(SetupText::ExistingBot)
    );
    assert_eq!(
        said(setup.handle_command(&SetupRequest::Invalid, false, None, 0)),
        Some(SetupText::Usage)
    );
    assert_eq!(
        said(setup.handle_command(&SetupRequest::Auto, false, None, 0)),
        Some(SetupText::UsernameGenerationFailed)
    );
    let named = SetupRequest::Username("x".to_owned());
    assert_eq!(
        said(setup.handle_command(&named, false, None, 0)),
        Some(SetupText::UsernameInvalid)
    );
    assert!(!setup.is_active());
    assert_eq!(
        said(setup.handle_command(&SetupRequest::Start, false, None, 7)),
        Some(SetupText::UsernamePrompt)
    );
    assert_eq!(setup.deadline(), Some(7 + SETUP_STAGE_TIMEOUT));
    assert_eq!(
        said(setup.handle_command(&SetupRequest::Start, false, None, 0)),
        Some(SetupText::AlreadyActive)
    );
    assert!(matches!(
        setup.handle_command(&SetupRequest::Status, false, None, 0),
        SetupStep::TellStatus
    ));
    assert!(matches!(
        setup.handle_command(&SetupRequest::Repair, false, None, 0),
        SetupStep::Repair
    ));
    assert!(setup.is_active());
    assert_eq!(
        said(setup.handle_command(&SetupRequest::Cancel, false, None, 0)),
        Some(SetupText::Cancelled)
    );
    assert!(!setup.is_active());
    let step = setup.handle_command(&SetupRequest::Auto, false, Some("a_bot".to_owned()), 0);
    assert!(matches!(
        step,
        SetupStep::Reply(SetupReply::Plan { username }) if username == "a_bot"
    ));
    assert!(matches!(
        setup.phase,
        SetupPhase::AwaitingConfirmation {
            automatic: true,
            attempts: 1,
            ..
        }
    ));
}

#[test]
fn owner_input_confirms_cancels_or_waits() {
    let mut setup = coordinator(SetupPhase::AwaitingConfirmation {
        username: "a_bot".to_owned(),
        automatic: true,
        attempts: 3,
        deadline: 5,
    });
    assert_eq!(
        told(setup.handle_input(None, false, None, 0)),
        Some(SetupText::ConfirmOrCancel)
    );
    assert!(matches!(
        setup.handle_input(Some(Confirmation::Confirmed), false, None, 0),
        InputStep::StartFlow { username, automatic: true, attempts: 3 } if username == "a_bot"
    ));
    assert_eq!(
        setup.flow_started(true, 3, FlowStart::Unavailable, 0),
        SetupText::BotFatherUnavailable
    );
    assert_eq!(
        setup.flow_started(true, 3, FlowStart::Failed, 0),
        SetupText::BotFatherStartFailed
    );
    assert!(setup.botfather_peer.is_none());
    assert_eq!(
        setup.flow_started(true, 3, FlowStart::Started(user(2)), 0),
        SetupText::Started
    );
    assert_eq!(setup.botfather_peer, Some(user(2)));
    assert_eq!(
        told(setup.handle_input(Some(Confirmation::Confirmed), false, None, 0)),
        Some(SetupText::WaitingBotFather)
    );
    assert_eq!(
        told(setup.handle_input(Some(Confirmation::Cancelled), false, None, 0)),
        Some(SetupText::Cancelled)
    );
    assert!(!setup.is_active());
}

#[test]
fn generated_usernames_make_the_setup_automatic() {
    for wish in ["-", " AUTO ", "auto"] {
        assert!(asks_for_generated_username(wish));
    }
    for name in ["lavis_bot", "", "--", "автo"] {
        assert!(!asks_for_generated_username(name));
    }
    let mut setup = coordinator(asking());
    setup.handle_input(None, true, Some("a_bot".to_owned()), 0);
    assert!(matches!(
        setup.phase,
        SetupPhase::AwaitingConfirmation {
            automatic: true,
            ..
        }
    ));
}

#[test]
fn taken_usernames_are_retried_a_bounded_number_of_times() {
    let mut setup = coordinator(running(true, 1));
    let mut starts = 1;
    loop {
        match setup.handle_botfather_reply(BotFatherProgress::UsernameOccupied, 0) {
            BotFatherStep::Retry { attempts } => {
                let InputStep::StartFlow {
                    automatic,
                    attempts,
                    ..
                } = retry_step(Some("next_bot".to_owned()), attempts)
                else {
                    panic!("expected another start");
                };
                setup.flow_started(automatic, attempts, FlowStart::Started(user(2)), 0);
                starts += 1;
            }
            step => {
                assert_eq!(step, BotFatherStep::Tell(SetupText::BotUsernameRejected));
                break;
            }
        }
    }
    assert_eq!(starts, MAX_AUTOMATIC_ATTEMPTS);
    assert!(matches!(setup.phase, SetupPhase::AwaitingUsername { .. }));
    assert_eq!(
        told(retry_step(None, 2)),
        Some(SetupText::UsernameGenerationFailed)
    );
}

#[test]
fn botfather_outcomes_end_or_continue_the_setup() {
    for (progress, key) in [
        (
            BotFatherProgress::CheckUnavailable,
            SetupText::BotCheckUnavailable,
        ),
        (BotFatherProgress::LimitReached, SetupText::BotLimitReached),
        (BotFatherProgress::FloodWait, SetupText::BotRetryLater),
        (BotFatherProgress::Unexpected, SetupText::BotUnexpected),
        (BotFatherProgress::Storage, SetupText::BotStorageFailed),
        (BotFatherProgress::Timeout, SetupText::BotTimedOut),
        (BotFatherProgress::Failed, SetupText::BotVerificationFailed),
    ] {
        let mut setup = coordinator(running(false, 1));
        assert_eq!(
            setup.handle_botfather_reply(progress, 0),
            BotFatherStep::Tell(key)
        );
        assert!(!setup.is_active());
    }
    let mut setup = coordinator(running(false, 1));
    assert_eq!(
        setup.handle_botfather_reply(BotFatherProgress::Pending, 100),
        BotFatherStep::Nothing
    );
    assert_eq!(setup.deadline(), Some(100 + SETUP_STAGE_TIMEOUT));
    for progress in [
        BotFatherProgress::UsernameOccupied,
        BotFatherProgress::UsernameInvalid,
    ] {
        let mut setup = coordinator(running(false, 1));
        assert_eq!(
            setup.handle_botfather_reply(progress, 0),
            BotFatherStep::Tell(SetupText::BotUsernameRejected)
        );
    }
    assert_eq!(
        setup.handle_botfather_reply(BotFatherProgress::ProvisionReady, 0),
        BotFatherStep::Provision
    );
    assert_eq!(
        setup.handle_botfather_reply(BotFatherProgress::ProvisionReady, 0),
        BotFatherStep::Nothing
    );
}

fn stored(name: Option<&str>, id: Option<i64>) -> BotIdentities {
    BotIdentities {
        bot_username: name.map(str::to_owned),
        bot_user_id: id,
    }
}

fn target(id: Option<i64>) -> RepairTarget {
    repair_target(RepairData::Loaded {
        identities: stored(Some("lavis_test_bot"), id),
        username_valid: true,
    })
    .unwrap_or_else(|_| panic!("the stored bot is acceptable"))
}

fn bot(id: i64, username: &str) -> Option<BotIdentity> {
    Some(BotIdentity {
        id,
        username: username.to_owned(),
    })
}

#[test]
fn repair_requires_a_verified_persisted_bot_identity() {
    assert_eq!(
        check_identity(&target(Some(7)), &bot(8, "lavis_test_bot")),
        RepairStep::Refuse(SetupText::RepairTokenMismatch)
    );
    let step = check_identity(&target(Some(7)), &bot(7, "LAVIS_TEST_BOT"));
    assert_eq!(
        repair_preflight(target(Some(7)), step, false),
        Ok("lavis_test_bot".to_owned())
    );
    assert_eq!(
        check_identity(&target(Some(7)), &None),
        RepairStep::Refuse(SetupText::RepairTokenUnsafe)
    );
    for (data, reason) in [
        (
            RepairData::CheckUnavailable,
            SetupText::RepairCheckUnavailable,
        ),
        (RepairData::Missing, SetupText::RepairNoData),
        (RepairData::Unreadable, SetupText::RepairDataUnsafe),
        (
            RepairData::Loaded {
                identities: stored(None, Some(7)),
                username_valid: true,
            },
            SetupText::RepairIdentityUnsafe,
        ),
        (
            RepairData::Loaded {
                identities: stored(Some("bad"), Some(7)),
                username_valid: false,
            },
            SetupText::RepairIdentityUnsafe,
        ),
    ] {
        assert_eq!(repair_target(data).err(), Some(reason));
    }
}

#[test]
fn repair_migrates_a_missing_id_only_after_matching_token_validation() {
    assert_eq!(
        check_identity(&target(None), &bot(7, "other_bot")),
        RepairStep::Refuse(SetupText::RepairTokenMismatch)
    );
    let step = check_identity(&target(None), &bot(7, "LAVIS_TEST_BOT"));
    assert_eq!(step, RepairStep::StoreIdentity);
    assert!(may_store_identity(
        &target(None),
        &stored(Some("lavis_test_bot"), None)
    ));
    let kept = identities_to_store(
        &target(None),
        &bot(7, "LAVIS_TEST_BOT").unwrap(),
        &stored(Some("lavis_test_bot"), None),
    )
    .unwrap();
    assert_eq!(kept.bot_user_id, Some(7));
    assert_eq!(kept.bot_username.as_deref(), Some("LAVIS_TEST_BOT"));
    for changed in [
        stored(Some("lavis_test_bot"), Some(9)),
        stored(Some("LAVIS_TEST_BOT"), None),
        stored(None, None),
    ] {
        assert!(!may_store_identity(&target(None), &changed));
        let verified = bot(7, "LAVIS_TEST_BOT").unwrap();
        assert!(identities_to_store(&target(None), &verified, &changed).is_none());
    }
    assert_eq!(
        repair_preflight(target(None), step, true),
        Ok("lavis_test_bot".to_owned())
    );
    assert_eq!(
        repair_preflight(target(None), step, false),
        Err(SetupText::RepairIdentitySaveFailed)
    );
}

#[test]
fn repairs_are_answered_and_provisioned() {
    let begun = repair_execution(Locale::English, Ok("a_bot".to_owned()));
    assert_eq!(
        begun.response.text,
        setup_text(Locale::English, SetupText::RepairStarted)
    );
    assert_eq!(begun.provision.unwrap().username, "a_bot");
    let refused = repair_execution(Locale::English, Err(SetupText::RepairNoData));
    assert_eq!(
        refused.response.text,
        setup_text(Locale::English, SetupText::RepairNoData)
    );
    assert!(refused.provision.is_none());
}

#[test]
fn recorded_identity_blocks_new_botfather_flow_when_token_is_missing() {
    let loaded = |name, id| StoredSetup::Loaded {
        status: "bot_validated".to_owned(),
        identities: stored(name, id),
    };
    assert!(has_created_bot(&loaded(Some("lavis_test_bot"), Some(7))));
    assert!(!has_created_bot(&loaded(Some("lavis_test_bot"), None)));
    assert!(!has_created_bot(&loaded(None, Some(7))));
    assert!(!has_created_bot(&StoredSetup::Missing));
    assert!(!has_created_bot(&StoredSetup::Unreadable));
    assert_eq!(
        status(Locale::English, &loaded(Some("lavis_test_bot"), Some(7))),
        setup_status_response(Locale::English, "bot_validated", Some("lavis_test_bot"))
    );
    assert_eq!(
        status(Locale::English, &StoredSetup::Missing).text,
        setup_text(Locale::English, SetupText::StatusIdle)
    );
    assert_eq!(
        status(Locale::English, &StoredSetup::Unreadable).text,
        setup_text(Locale::English, SetupText::StatusUnavailable)
    );
}
