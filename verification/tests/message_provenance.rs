use lavis::message_provenance::{
    edit_definitely_rejected, InvocationFailure, SharedBotFormLedger, SharedSelfEditLedger,
    MAX_ENTRIES,
};
use lavis::peer::PeerId;
use std::sync::{Arc, Mutex};

fn user(id: i64) -> PeerId {
    PeerId {
        dialog_id: grammers_session::types::PeerId::user(id)
            .unwrap()
            .bot_api_dialog_id(),
    }
}

#[test]
fn clones_share_bounded_consumable_state() {
    let first = Arc::new(Mutex::new(SharedSelfEditLedger::default()));
    let second = first.clone();
    let first_peer = user(1);
    let second_peer = user(2);
    first
        .lock()
        .unwrap()
        .register(first_peer, 2, "ok".into())
        .unwrap();
    assert!(second.lock().unwrap().consume(first_peer, 2, "ok"));
    assert!(!first.lock().unwrap().consume(first_peer, 2, "ok"));
    assert!(!first.lock().unwrap().consume(second_peer, 2, "ok"));
}

#[test]
fn saturation_is_rejected_without_evicting_unresolved_entries() {
    let mut ledger = SharedSelfEditLedger::default();
    let peer = user(9);
    for index in 0..MAX_ENTRIES {
        ledger
            .register(peer, index as i32, index.to_string())
            .unwrap();
    }
    assert!(ledger.register(peer, 999, "new".into()).is_err());
    assert!(ledger.consume(peer, 0, "0"));
    assert!(!ledger.consume(peer, 999, "new"));
}

#[test]
fn bot_form_ledger_is_bounded_and_shared() {
    let ledger = Arc::new(Mutex::new(SharedBotFormLedger::default()));
    let mirror = ledger.clone();
    let peer = user(3);
    // One extra registration evicts the oldest entry.
    for index in 0..=MAX_ENTRIES as i32 {
        ledger.lock().unwrap().register(peer, index);
    }
    assert!(!mirror.lock().unwrap().consume(peer, 0));
    assert!(mirror.lock().unwrap().consume(peer, MAX_ENTRIES as i32));
    assert!(!ledger.lock().unwrap().consume(peer, MAX_ENTRIES as i32));
}

#[test]
fn equal_edits_are_consumed_one_by_one() {
    let mut ledger = SharedSelfEditLedger::default();
    ledger.register(user(1), 5, "same".into()).unwrap();
    ledger.register(user(1), 5, "same".into()).unwrap();
    ledger.register(user(1), 5, "other".into()).unwrap();
    assert!(!ledger.consume(user(1), 5, "Same"));
    assert!(ledger.consume(user(1), 5, "same"));
    assert!(ledger.consume(user(1), 5, "same"));
    assert!(!ledger.consume(user(1), 5, "same"));
    assert_eq!(ledger.len(), 1);
    ledger.remove(user(1), 5, "other");
    assert_eq!(ledger.len(), 0);
}

#[test]
fn the_own_account_without_a_number_is_a_peer_of_its_own() {
    let own = PeerId {
        dialog_id: grammers_session::types::PeerId::self_user().bot_api_dialog_id(),
    };
    assert_eq!(own.dialog_id, None);
    let mut ledger = SharedBotFormLedger::default();
    ledger.register(own, 1);
    assert!(!ledger.contains(user(1), 1));
    assert!(ledger.contains(own, 1));
    assert!(ledger.consume(own, 1));
    assert_eq!(ledger.len(), 0);
}

#[test]
fn only_an_answer_of_telegram_is_a_definite_rejection() {
    assert!(edit_definitely_rejected(&InvocationFailure::Rpc));
    for failure in [
        InvocationFailure::Session,
        InvocationFailure::Io,
        InvocationFailure::Deserialize,
        InvocationFailure::Transport,
        InvocationFailure::Dropped,
        InvocationFailure::InvalidDc,
        InvocationFailure::Authentication,
    ] {
        assert!(!edit_definitely_rejected(&failure));
    }
}

#[test]
fn entries_are_found_exactly_as_often_as_they_were_registered() {
    for times in 0..5 {
        let mut ledger = SharedSelfEditLedger::default();
        for index in 0..times {
            ledger.register(user(1), 5, "same".into()).unwrap();
            ledger.register(user(1), index, "other".into()).unwrap();
        }
        for _ in 0..times {
            assert!(ledger.consume(user(1), 5, "same"));
        }
        assert!(!ledger.consume(user(1), 5, "same"));
        assert_eq!(ledger.len(), times as usize);
    }
}
