use lavis::i18n::Locale;
use lavis::reboot_receipt::{
    arm_outcome, check_before_arming, check_receipt_file, check_state_directory, clock_millis,
    is_receipt_temporary, load_at, receipt_size_fits, reboot_completion_text, removes_file,
    stale_temporaries, temporary_name, temporary_name_from, temporary_name_of, AfterEdit,
    ArmFailure, ArmOutcome,
    ClockError, DiscardReason, LinkOutcome, LoadOutcome, LoadedReceipt, PendingRebootReceipt,
    ReceiptCoordinator, ReceiptEditOutcome, ReceiptFile, ReceiptStoreError, ReceiptTarget,
    ReceiptValidationError, RebootReceiptCompletion, RebootReceiptEditIntent,
    RebootReceiptRetryPolicy, TemporaryCleanup, MAX_FUTURE_MILLIS, MAX_RECEIPT_BYTES,
    REBOOT_RECEIPT_MAX_ATTEMPTS, REBOOT_RECEIPT_RETRY_BACKOFF, RECEIPT_TTL_MILLIS,
    RECEIPT_VERSION,
};

const NOW: u64 = 1_700_000_000_000;

fn receipt() -> PendingRebootReceipt {
    PendingRebootReceipt::new(
        ReceiptTarget::Channel {
            id: 42,
            access_hash: -7,
        },
        99,
        NOW,
    )
    .unwrap_or_else(|_| panic!("the fixture is valid"))
}

#[test]
fn validates_target_and_message_constraints() {
    assert!(PendingRebootReceipt::new(ReceiptTarget::SelfUser, 1, NOW).is_ok());
    assert!(PendingRebootReceipt::new(
        ReceiptTarget::User {
            id: 1,
            access_hash: 2
        },
        1,
        NOW
    )
    .is_ok());
    assert!(PendingRebootReceipt::new(ReceiptTarget::Chat { id: 1 }, 1, NOW).is_ok());
    assert!(matches!(
        PendingRebootReceipt::new(ReceiptTarget::Chat { id: 0 }, 1, NOW),
        Err(ReceiptValidationError::InvalidTargetId)
    ));
    assert!(PendingRebootReceipt::new(
        ReceiptTarget::Channel {
            id: 1,
            access_hash: 0
        },
        1,
        NOW
    )
    .is_ok());
    assert!(matches!(
        PendingRebootReceipt::new(ReceiptTarget::SelfUser, 0, NOW),
        Err(ReceiptValidationError::InvalidMessageId)
    ));
}

#[test]
fn elapsed_saturates_small_future_skew_and_rejects_large_future_skew() {
    assert_eq!(receipt().elapsed_millis(NOW - 1).unwrap(), 0);
    assert!(matches!(
        receipt().elapsed_millis(NOW - MAX_FUTURE_MILLIS - 1),
        Err(ReceiptValidationError::TooFarInFuture)
    ));
}

#[test]
fn receipts_live_for_their_time_and_no_longer() {
    let file = ReceiptFile::Parsed(receipt());
    assert!(load_at(file, NOW + 5)
        == LoadOutcome::Pending(LoadedReceipt {
            receipt: receipt(),
            elapsed_millis: 5
        }));
    assert!(matches!(
        load_at(file, NOW + RECEIPT_TTL_MILLIS),
        LoadOutcome::Pending(_)
    ));
    assert!(
        load_at(file, NOW + RECEIPT_TTL_MILLIS + 1)
            == LoadOutcome::Discarded(DiscardReason::Expired)
    );
    assert!(matches!(
        load_at(file, NOW - MAX_FUTURE_MILLIS),
        LoadOutcome::Pending(LoadedReceipt {
            elapsed_millis: 0,
            ..
        })
    ));
    assert!(
        load_at(file, NOW - MAX_FUTURE_MILLIS - 1)
            == LoadOutcome::Discarded(DiscardReason::Invalid(
                ReceiptValidationError::TooFarInFuture
            ))
    );
}

#[test]
fn unusable_receipt_files_are_discarded_and_missing_ones_are_absent() {
    assert!(load_at(ReceiptFile::Missing, NOW) == LoadOutcome::Absent);
    assert!(
        load_at(ReceiptFile::Malformed, NOW) == LoadOutcome::Discarded(DiscardReason::Malformed)
    );
    assert!(
        load_at(ReceiptFile::Unsafe, NOW) == LoadOutcome::Discarded(DiscardReason::UnsafeState)
    );
    let unknown = PendingRebootReceipt::from_parts(2, ReceiptTarget::SelfUser, 1, 1);
    assert!(
        load_at(ReceiptFile::Parsed(unknown), NOW)
            == LoadOutcome::Discarded(DiscardReason::UnsupportedVersion(2))
    );
    let invalid = PendingRebootReceipt::from_parts(1, ReceiptTarget::SelfUser, -1, NOW);
    assert!(
        load_at(ReceiptFile::Parsed(invalid), NOW)
            == LoadOutcome::Discarded(DiscardReason::Invalid(
                ReceiptValidationError::InvalidMessageId
            ))
    );
    assert!(!removes_file(&LoadOutcome::Absent));
    assert!(removes_file(&LoadOutcome::Discarded(
        DiscardReason::Malformed
    )));
}

fn pending() -> LoadOutcome {
    load_at(ReceiptFile::Parsed(receipt()), NOW)
}

fn begin(policy: RebootReceiptRetryPolicy) -> ReceiptCoordinator {
    ReceiptCoordinator::begin(pending(), policy, Locale::Russian)
        .unwrap_or_else(|_| panic!("the receipt is pending"))
}

#[test]
fn a_temporary_failure_is_retried_and_success_consumes_the_receipt() {
    let mut coordinator = begin(RebootReceiptRetryPolicy::default());
    assert_eq!(
        coordinator.after_edit(ReceiptEditOutcome::Temporary),
        AfterEdit::RetryAfter(REBOOT_RECEIPT_RETRY_BACKOFF)
    );
    assert_eq!(
        coordinator.after_edit(ReceiptEditOutcome::Applied),
        AfterEdit::Finish {
            completion: RebootReceiptCompletion::Applied,
            remove_receipt: true
        }
    );
}

#[test]
fn exhausted_tries_leave_the_receipt_armed() {
    let mut coordinator = begin(RebootReceiptRetryPolicy::default());
    let mut retries = 0;
    let end = loop {
        match coordinator.after_edit(ReceiptEditOutcome::Temporary) {
            AfterEdit::RetryAfter(_) => retries += 1,
            end => break end,
        }
    };
    assert_eq!(retries + 1, REBOOT_RECEIPT_MAX_ATTEMPTS);
    assert_eq!(
        end,
        AfterEdit::Finish {
            completion: RebootReceiptCompletion::TemporaryExhausted,
            remove_receipt: false
        }
    );
}

#[test]
fn a_policy_without_attempts_still_tries_once() {
    let mut coordinator = begin(RebootReceiptRetryPolicy {
        max_attempts: 0,
        backoff: 5,
    });
    assert_eq!(
        coordinator.after_edit(ReceiptEditOutcome::Temporary),
        AfterEdit::Finish {
            completion: RebootReceiptCompletion::TemporaryExhausted,
            remove_receipt: false
        }
    );
}

#[test]
fn terminal_and_already_applied_edits_consume_the_receipt() {
    for (outcome, completion) in [
        (
            ReceiptEditOutcome::Terminal,
            RebootReceiptCompletion::Terminal,
        ),
        (
            ReceiptEditOutcome::AlreadyApplied,
            RebootReceiptCompletion::AlreadyApplied,
        ),
    ] {
        let mut coordinator = begin(RebootReceiptRetryPolicy::default());
        assert_eq!(
            coordinator.after_edit(outcome),
            AfterEdit::Finish {
                completion,
                remove_receipt: true
            }
        );
    }
}

#[test]
fn nothing_is_confirmed_without_a_pending_receipt() {
    let policy = RebootReceiptRetryPolicy::default();
    assert!(matches!(
        ReceiptCoordinator::begin(LoadOutcome::Absent, policy, Locale::English),
        Err(RebootReceiptCompletion::Absent)
    ));
    assert!(matches!(
        ReceiptCoordinator::begin(
            LoadOutcome::Discarded(DiscardReason::Expired),
            policy,
            Locale::English
        ),
        Err(RebootReceiptCompletion::Discarded)
    ));
}

#[test]
fn each_try_tells_the_time_anew() {
    let coordinator = begin(RebootReceiptRetryPolicy::default());
    let intent = coordinator
        .intent(NOW + 10)
        .unwrap_or_else(|_| panic!("in time"));
    assert_eq!(
        intent.text,
        "✅ Lavis перезагрузился\n\nВремя перезагрузки: 0 с"
    );
    let later = coordinator
        .intent(NOW + 35_999)
        .unwrap_or_else(|_| panic!("in time"));
    assert_eq!(
        later.text,
        "✅ Lavis перезагрузился\n\nВремя перезагрузки: 35 с"
    );
    assert_eq!(
        later.text,
        reboot_completion_text(Locale::Russian, 35_999)
    );
    assert!(later.receipt == receipt());
    assert!(coordinator.intent(NOW - MAX_FUTURE_MILLIS - 1).is_err());
}

#[test]
fn only_exact_temporary_names_are_stale() {
    assert!(is_receipt_temporary(
        ".reboot-receipt-0123456789abcdef0123456789abcdef.tmp"
    ));
    assert!(is_receipt_temporary(
        ".reboot-receipt-0123456789ABCDEF0123456789ABCDEF.tmp"
    ));
    for name in [
        ".reboot-receipt-not-a-nonce.tmp",
        ".reboot-receipt-0123456789abcdef0123456789abcde.tmp",
        ".reboot-receipt-0123456789abcdef0123456789abcdefa.tmp",
        ".reboot-receipt-0123456789abcdef0123456789abcdeg.tmp",
        "reboot-receipt-0123456789abcdef0123456789abcdef.tmp",
        "reboot-receipt.json",
        "",
    ] {
        assert!(!is_receipt_temporary(name), "{name}");
    }
}

#[test]
fn cleanup_looks_at_a_bounded_listing() {
    let stale = ".reboot-receipt-0123456789abcdef0123456789abcdef.tmp".to_owned();
    let mut names = vec!["keep".to_owned(); 15];
    names.push(stale.clone());
    names.push(stale.clone());
    assert_eq!(stale_temporaries(&names), vec![stale]);
    let mut cleanup = TemporaryCleanup::default();
    cleanup.record(true);
    cleanup.record(false);
    cleanup.record(false);
    assert_eq!(
        cleanup,
        TemporaryCleanup {
            removed: 1,
            failures: 2
        }
    );
    for _ in 0..300 {
        cleanup.record(true);
    }
    assert_eq!(cleanup.removed, u8::MAX);
}

#[test]
fn temporary_names_hold_their_nonce() {
    assert_eq!(
        temporary_name_of(0x0123_4567_89ab_cdef_0123_4567_89ab_cdef),
        ".reboot-receipt-123456789abcdef0123456789abcdef.tmp"
    );
    assert_eq!(temporary_name_of(0), ".reboot-receipt-0.tmp");
    assert!(is_receipt_temporary(&temporary_name_of(1 << 124)));
    assert!(is_receipt_temporary(&temporary_name_of(u128::MAX)));
    assert!(!is_receipt_temporary(&temporary_name_of((1 << 124) - 1)));
    let first = temporary_name().unwrap();
    let second = temporary_name().unwrap();
    assert!(first.starts_with(".reboot-receipt-") && first.ends_with(".tmp"));
    assert_ne!(first, second);
}

#[test]
fn private_files_and_directories_are_told_apart_from_others() {
    assert_eq!(check_state_directory(true, false, 0o40700), None);
    assert_eq!(
        check_state_directory(true, true, 0o700),
        Some("state directory is not a real directory")
    );
    assert_eq!(
        check_state_directory(false, false, 0o700),
        Some("state directory is not a real directory")
    );
    assert_eq!(
        check_state_directory(true, false, 0o40755),
        Some("state directory permissions are not 0700")
    );
    assert_eq!(check_receipt_file(true, 0o100600), None);
    assert_eq!(
        check_receipt_file(false, 0o600),
        Some("receipt is not a regular file")
    );
    assert_eq!(
        check_receipt_file(true, 0o100644),
        Some("receipt permissions are not 0600")
    );
    assert!(receipt_size_fits(MAX_RECEIPT_BYTES));
    assert!(!receipt_size_fits(MAX_RECEIPT_BYTES + 1));
}

#[test]
fn arming_never_forgets_a_link_that_was_made() {
    let linked = |temporary_removed, directory_synced| LinkOutcome::Linked {
        temporary_removed,
        directory_synced,
    };
    assert_eq!(arm_outcome(linked(true, true)), Ok(ArmOutcome::Armed));
    for link in [linked(true, false), linked(false, true), linked(false, false)] {
        assert_eq!(arm_outcome(link), Err(ArmFailure::DurabilityUnknown));
    }
    assert_eq!(
        arm_outcome(LinkOutcome::AlreadyExists),
        Ok(ArmOutcome::Conflict)
    );
    assert_eq!(
        arm_outcome(LinkOutcome::Failed),
        Err(ArmFailure::NotInstalled)
    );
}

#[test]
fn armed_receipts_load_until_their_time_is_over() {
    let made = PendingRebootReceipt::new(ReceiptTarget::Chat { id: 9 }, 3, NOW).unwrap();
    assert!(check_before_arming(&made).is_ok());
    let mut file = ReceiptFile::Missing;
    for link in [
        LinkOutcome::Linked {
            temporary_removed: true,
            directory_synced: true,
        },
        LinkOutcome::AlreadyExists,
        LinkOutcome::Failed,
    ] {
        if arm_outcome(link) == Ok(ArmOutcome::Armed) {
            file = ReceiptFile::Parsed(made);
        }
        for elapsed_millis in [0, 5, RECEIPT_TTL_MILLIS] {
            let outcome = load_at(file, NOW + elapsed_millis);
            assert!(
                outcome
                    == LoadOutcome::Pending(LoadedReceipt {
                        receipt: made,
                        elapsed_millis
                    })
            );
            assert!(!removes_file(&outcome));
        }
    }
    assert!(removes_file(&load_at(file, NOW + RECEIPT_TTL_MILLIS + 1)));
}

#[test]
fn only_valid_receipts_are_armed() {
    assert!(check_before_arming(&receipt()).is_ok());
    let invalid = PendingRebootReceipt::from_parts(
        RECEIPT_VERSION,
        ReceiptTarget::User {
            id: -1,
            access_hash: 3,
        },
        1,
        NOW,
    );
    assert_eq!(
        check_before_arming(&invalid),
        Err(ReceiptStoreError::Validation(
            ReceiptValidationError::InvalidTargetId
        ))
    );
}

#[test]
fn clocks_tell_saturated_milliseconds() {
    assert_eq!(clock_millis(Some(17)), Ok(17));
    assert_eq!(clock_millis(Some(u128::MAX)), Ok(u64::MAX));
    assert_eq!(clock_millis(None), Err(ClockError::BeforeUnixEpoch));
    assert_eq!(
        ClockError::BeforeUnixEpoch.message(),
        "system clock is before the Unix epoch"
    );
}

#[test]
fn descriptions_keep_secrets_to_themselves() {
    assert_eq!(receipt().target().describe(), "Channel { id: 42 }");
    assert_eq!(ReceiptTarget::SelfUser.describe(), "SelfUser");
    assert_eq!(
        ReceiptTarget::User {
            id: -3,
            access_hash: 77
        }
        .describe(),
        "User { id: -3 }"
    );
    assert_eq!(ReceiptTarget::Chat { id: 5 }.describe(), "Chat { id: 5 }");
    assert_eq!(
        receipt().describe(),
        "PendingRebootReceipt { version: 1, target: Channel { id: 42 }, message_id: 99, started_unix_ms: 1700000000000 }"
    );
    let intent = RebootReceiptEditIntent {
        receipt: receipt(),
        text: "secret".to_owned(),
    };
    assert!(intent.describe().ends_with(", text: \"[redacted]\" }"));
    assert!(!intent.describe().contains("secret"));
    assert_eq!(receipt().version(), 1);
    assert_eq!(receipt().message_id(), 99);
    assert_eq!(receipt().started_unix_ms(), NOW);
}

#[test]
fn errors_tell_what_went_wrong() {
    for (error, message) in [
        (
            ReceiptValidationError::UnsupportedVersion(7),
            "unsupported reboot receipt version 7",
        ),
        (
            ReceiptValidationError::InvalidMessageId,
            "reboot receipt message id must be positive",
        ),
        (
            ReceiptValidationError::InvalidTargetId,
            "reboot receipt target id must be positive",
        ),
        (
            ReceiptValidationError::TooFarInFuture,
            "reboot receipt timestamp is too far in the future",
        ),
    ] {
        assert_eq!(error.message(), message);
        assert_eq!(ReceiptStoreError::Validation(error).message(), message);
    }
    assert_eq!(
        ReceiptStoreError::UnsafeState { detail: "d" }.message(),
        "unsafe reboot receipt state: d"
    );
    assert_eq!(
        ReceiptStoreError::Io {
            operation: "o",
            source: "s".to_owned()
        }
        .message(),
        "reboot receipt storage is unavailable while o: s"
    );
    assert_eq!(
        ReceiptStoreError::ArmDurabilityUnknown {
            source: "s".to_owned()
        }
        .message(),
        "reboot receipt may have been installed, but syncing its directory failed: s"
    );
    assert_eq!(
        ReceiptStoreError::DeleteDurabilityUnknown {
            source: "s".to_owned()
        }
        .message(),
        "reboot receipt may have been deleted, but syncing its directory failed: s"
    );
    assert_eq!(
        ReceiptStoreError::TaskCancelled.message(),
        "reboot receipt task was cancelled"
    );
}

#[test]
fn random_bytes_name_the_temporary_lowest_first() {
    let mut bytes = vec![0_u8; 16];
    bytes[0] = 0xcd;
    bytes[1] = 0xab;
    assert_eq!(
        temporary_name_from(Ok(bytes)).as_deref(),
        Some(".reboot-receipt-abcd.tmp")
    );
    assert_eq!(
        temporary_name_from(Ok((0..16).collect())).as_deref(),
        Some(".reboot-receipt-f0e0d0c0b0a09080706050403020100.tmp")
    );
    assert_eq!(
        temporary_name_from(Err(getrandom::Error::UNSUPPORTED)),
        None
    );
}
