use lavis::i18n::{ExternalModuleRuntimeStatus, Locale};
use lavis::message_provenance::InvocationFailure;
use lavis::onboarding::OnboardingProgress;
use lavis::peer::PeerId;
use lavis::response::Response;
use lavis::runtime::alias::AliasTable;
use lavis::runtime::dispatch::{
    stable_message_key, CreatedEventDispatchResult, EventMessage, EventNames,
};
use lavis::runtime::external::{
    invocation_error_category, CustomEmojiEntity, ExternalCapability, ExternalError, ExternalInvocation,
    ExternalModuleDescriptor, ExternalOutcome, ExternalRuntimeSnapshot, MessageEventKind,
};
use lavis::runtime::info::ModuleStatus;
use lavis::runtime::{Action, RuntimeState, Settings};
use std::collections::hash_map::DefaultHasher;
use std::hash::{Hash, Hasher};

fn descriptor(id: &str, receives: bool, capability: ExternalCapability) -> ExternalModuleDescriptor {
    ExternalModuleDescriptor {
        id: id.to_owned(),
        display_name: format!("Module {id}"),
        version: "1.2".to_owned(),
        capabilities: vec![ExternalCapability::MessageRead, capability],
        receives: if receives {
            vec![MessageEventKind::Created]
        } else {
            vec![MessageEventKind::Other(1)]
        },
    }
}

fn snapshot() -> ExternalRuntimeSnapshot {
    ExternalRuntimeSnapshot {
        descriptors: vec![
            descriptor("first", true, ExternalCapability::MessagePeerId),
            descriptor("unsubscribed", false, ExternalCapability::MessagePeerId),
            descriptor("second", true, ExternalCapability::Other(3)),
        ],
        active_commands: vec!["first.go".to_owned(), "plain".to_owned()],
        active_defaults: vec![("second".to_owned(), "main".to_owned())],
        module_statuses: vec![ModuleStatus {
            id: "first".to_owned(),
            status: ExternalModuleRuntimeStatus::Running,
        }],
    }
}

fn runtime() -> RuntimeState {
    let mut runtime = RuntimeState::new(
        AliasTable { entries: vec![] },
        Settings {
            prefix: ",".to_owned(),
            locale: Some(Locale::English),
            onboarding: OnboardingProgress::NotStarted,
        },
    );
    runtime.set_external_manager(snapshot());
    runtime
}

fn names() -> Vec<EventNames> {
    (0..3)
        .map(|number| EventNames {
            event_id: format!("event-{number}"),
            message_ref: Some(format!("ref-{number}")),
        })
        .collect()
}

fn grammers_user(id: i64) -> grammers_session::types::PeerId {
    grammers_session::types::PeerId::user(id).unwrap()
}

fn entities() -> Vec<CustomEmojiEntity> {
    vec![CustomEmojiEntity {
        offset: 1,
        length: 2,
        document_id: 3,
    }]
}

fn message(event: MessageEventKind, entities: &Vec<CustomEmojiEntity>) -> EventMessage<'_> {
    EventMessage {
        peer_id: PeerId {
            dialog_id: grammers_user(7).bot_api_dialog_id(),
        },
        message_id: 42,
        event,
        text: "event",
        outgoing: true,
        entities,
    }
}

#[test]
fn only_subscribed_modules_are_told_of_a_message() {
    let requests = runtime()
        .prepare_message_event_dispatch(&names(), &message(MessageEventKind::Created, &entities()))
        .unwrap()
        .requests;
    let told: Vec<&str> = requests
        .iter()
        .map(|request| request.module_id.as_str())
        .collect();
    assert_eq!(told, ["first", "second"]);
    assert_eq!(requests[0].payload.peer_id, Some(7));
    assert_eq!(requests[1].payload.peer_id, None);
    assert_eq!(requests[1].payload.event_id, "event-2");
    assert_eq!(requests[1].payload.message_ref, "ref-2");
    assert_eq!(requests[0].payload.text, "event");
    assert!(requests[0].payload.outgoing);
    assert_eq!(requests[1].payload.entities, entities());
    assert_ne!(
        requests[0].payload.message_key,
        requests[1].payload.message_key
    );
    assert!(runtime()
        .prepare_message_event_dispatch(&names(), &message(MessageEventKind::Other(2), &entities()))
        .is_none());
}

#[test]
fn modules_without_a_reference_are_told_nothing() {
    let mut names = names();
    names[0].message_ref = None;
    let requests = runtime()
        .prepare_message_event_dispatch(&names, &message(MessageEventKind::Created, &entities()))
        .unwrap()
        .requests;
    assert_eq!(requests.len(), 1);
    assert_eq!(requests[0].module_id, "second");
}

#[test]
fn restart_without_botfather_resolution_fails_closed_for_token_text() {
    let mut runtime = runtime();
    let saved = PeerId { dialog_id: Some(1) };
    let botfather = PeerId { dialog_id: Some(2) };
    runtime.configure_setup(saved);
    assert!(!runtime.external_projection_permitted);
    assert!(runtime
        .prepare_message_event_dispatch(&names(), &message(MessageEventKind::Created, &entities()))
        .is_none());
    runtime.set_setup_botfather_peer(botfather);
    assert!(runtime
        .prepare_message_event_dispatch(&names(), &message(MessageEventKind::Created, &entities()))
        .is_some());
}

#[test]
fn nothing_is_dispatched_without_a_module_runtime() {
    let mut runtime = RuntimeState::new(
        AliasTable { entries: vec![] },
        Settings {
            prefix: ",".to_owned(),
            locale: None,
            onboarding: OnboardingProgress::NotStarted,
        },
    );
    runtime.refresh_snapshot(snapshot());
    assert!(runtime.external_descriptors().is_empty());
    assert!(runtime
        .prepare_message_event_dispatch(&names(), &message(MessageEventKind::Created, &entities()))
        .is_none());
}

/// The key as it comes about from hashing the values themselves.
fn hashed_key(peer: grammers_session::types::PeerId, message_id: i32, module_id: &str) -> String {
    let half = |domain: &str| {
        let mut hasher = DefaultHasher::new();
        domain.hash(&mut hasher);
        peer.hash(&mut hasher);
        message_id.hash(&mut hasher);
        module_id.hash(&mut hasher);
        hasher.finish()
    };
    format!(
        "{:016x}{:016x}",
        half("lavis-message-key-v1/a"),
        half("lavis-message-key-v1/b")
    )
}

#[test]
fn message_keys_are_stable_and_tell_messages_and_modules_apart() {
    let peers = [
        grammers_user(7),
        grammers_session::types::PeerId::chat(3).unwrap(),
        grammers_session::types::PeerId::channel(4).unwrap(),
        grammers_session::types::PeerId::self_user(),
    ];
    for peer in peers {
        let own = PeerId {
            dialog_id: peer.bot_api_dialog_id(),
        };
        for message_id in [0, 1, -1, i32::MAX] {
            for module_id in ["", "first", "модуль"] {
                let key = stable_message_key(own, message_id, module_id);
                assert_eq!(key, hashed_key(peer, message_id, module_id));
                assert_eq!(key.len(), 32);
            }
        }
    }
    let user = PeerId { dialog_id: Some(7) };
    assert_ne!(
        stable_message_key(user, 1, "a"),
        stable_message_key(user, 2, "a")
    );
    assert_ne!(
        stable_message_key(user, 1, "a"),
        stable_message_key(user, 1, "b")
    );
}

#[test]
fn accepted_actions_and_failures_are_gathered_in_order() {
    let mut runtime = runtime();
    runtime.external_snapshot.descriptors[1]
        .receives
        .push(MessageEventKind::Created);
    let dispatch = runtime
        .prepare_message_event_dispatch(&names(), &message(MessageEventKind::Created, &entities()))
        .unwrap();
    let result = dispatch.execute(&vec![
        Ok(vec![(3, true), (1, false), (2, true)]),
        Err(ExternalError::ExecutionTimeout),
        Ok(vec![(9, true)]),
    ]);
    assert_eq!(result.actions, [3, 2, 9]);
    assert_eq!(result.failures.len(), 1);
    assert_eq!(result.failures[0].module_id, "unsubscribed");
    assert_eq!(result.failures[0].category, "timeout");
    let empty = CreatedEventDispatchResult::default();
    assert!(empty.actions.is_empty() && empty.failures.is_empty());
}

fn external(action: Option<Action>) -> Option<(String, String, String)> {
    match action {
        Some(Action::External(invocation)) => Some((
            invocation.module_id,
            invocation.command_name,
            invocation.arguments,
        )),
        _ => None,
    }
}

#[test]
fn external_commands_are_resolved_by_their_names() {
    let runtime = runtime();
    assert_eq!(
        external(runtime.resolve_external("first.go", "a b")),
        Some(("first".to_owned(), "go".to_owned(), "a b".to_owned()))
    );
    assert!(runtime.resolve_external("first.stop", "").is_none());
    assert!(runtime.resolve_external("plain", "").is_none());
    assert!(runtime.has_active_external_command("plain"));
    assert!(!runtime.has_active_external_command("first"));
    assert_eq!(
        external(runtime.resolve_external_default("second", "x")),
        Some(("second".to_owned(), "main".to_owned(), "x".to_owned()))
    );
    assert!(runtime.resolve_external_default("first", "x").is_none());
    assert!(runtime.has_external_module("unsubscribed"));
    assert!(!runtime.has_external_module("absent"));
    assert!(runtime.external_has_capability("first", ExternalCapability::MessagePeerId));
    assert!(!runtime.external_has_capability("second", ExternalCapability::MessagePeerId));
    assert!(!runtime.external_has_capability("absent", ExternalCapability::MessageRead));
}

fn invocation(module_id: &str) -> ExternalInvocation {
    ExternalInvocation {
        module_id: module_id.to_owned(),
        command_name: "go".to_owned(),
        arguments: String::new(),
                argument_entities: vec![],
    }
}

fn failure(error: ExternalError) -> ExternalOutcome {
    ExternalOutcome::Failure {
        error,
        detail: "secret detail".to_owned(),
    }
}

#[test]
fn external_failures_are_told_by_kind_and_the_modules_looked_at_anew() {
    for (error, told) in [
        (ExternalError::Unavailable, false),
        (ExternalError::ExecutionTimeout, false),
        (ExternalError::ProtocolDecode, false),
        (ExternalError::WrongRequestId, false),
        (ExternalError::ModuleError, false),
        (ExternalError::ResultTooLarge, false),
        (ExternalError::LineTooLarge, true),
        (ExternalError::WrongModuleId, true),
        (ExternalError::NotReadable, true),
        (ExternalError::Other, true),
    ] {
        let mut runtime = runtime();
        let answer = runtime.execute_external(
            &invocation("first"),
            failure(error),
            ExternalRuntimeSnapshot::new(),
        );
        assert_eq!(answer.text.contains("secret detail"), told, "{error:?}");
        assert!(runtime.external_descriptors().is_empty());
    }
}

#[test]
fn external_results_name_their_module_and_keep_the_snapshot() {
    let mut runtime = runtime();
    let outcome = ExternalOutcome::Success {
        text: "done\u{202e}".to_owned(),
    };
    let answer = runtime.execute_external(
        &invocation("second"),
        outcome,
        ExternalRuntimeSnapshot::new(),
    );
    assert!(answer.text.starts_with("done"));
    assert!(answer.text.contains("«Module second» (second v1.2)"));
    assert!(!answer.text.contains('\u{202e}'));
    assert_eq!(runtime.external_descriptors().len(), 3);
    let missing = runtime.execute_external(
        &invocation("absent"),
        ExternalOutcome::Success {
            text: "done".to_owned(),
        },
        ExternalRuntimeSnapshot::new(),
    );
    assert!(missing.text.starts_with("done\n\n"));
    assert!(missing.text.contains("absent"));
}

#[test]
fn external_commands_without_a_runtime_are_unavailable() {
    let mut runtime = runtime();
    runtime.external_manager = false;
    let answer: Response = runtime.execute_external(
        &invocation("first"),
        failure(ExternalError::Other),
        ExternalRuntimeSnapshot::new(),
    );
    assert!(!answer.text.contains("secret detail"));
    assert_eq!(runtime.external_descriptors().len(), 3);
}

#[test]
fn telegram_failures_have_categories() {
    for (failure, category) in [
        (InvocationFailure::Session, "session"),
        (InvocationFailure::Rpc, "rpc"),
        (InvocationFailure::Io, "io"),
        (InvocationFailure::Deserialize, "deserialize"),
        (InvocationFailure::Transport, "transport"),
        (InvocationFailure::Dropped, "dropped"),
        (InvocationFailure::InvalidDc, "invalid_dc"),
        (InvocationFailure::Authentication, "authentication"),
    ] {
        assert_eq!(invocation_error_category(&failure), category);
    }
}
