//! What holds of the receipts that confirm a restart.
use super::text::{numeral_value, of_digits};
use crate::i18n::{reboot_template, Locale, RebootText};
use crate::reboot_receipt;
use crate::reboot_receipt::{
    AfterEdit, ArmFailure, ArmOutcome, ClockError, CoordinatorView, DiscardReason, LinkOutcome, LoadOutcome,
    LoadedReceipt, PendingRebootReceipt, ReceiptEditOutcome, ReceiptFile, ReceiptTarget,
    ReceiptValidationError, ReceiptView, RebootReceiptCompletion, RebootReceiptRetryPolicy,
};
use crate::text;
use vstd::prelude::*;

verus! {

/// A receipt is acceptable in the first format alone, for a message with a positive number in a dialog with a
/// positive number or with oneself; else the first thing that is wrong is named.
pub proof fn acceptable_receipts_name_a_message(receipt: ReceiptView)
    ensures
        ({
            let target = match receipt.target {
                ReceiptTarget::SelfUser => 1i64,
                ReceiptTarget::User { id, .. } => id,
                ReceiptTarget::Chat { id } => id,
                ReceiptTarget::Channel { id, .. } => id,
            };
            &&& receipt.shape() is Ok <==> receipt.version == 1 && receipt.message_id >= 1 && target >= 1
            &&& receipt.version != 1 ==> receipt.shape() == Err::<(), _>(
                ReceiptValidationError::UnsupportedVersion(receipt.version),
            )
            &&& receipt.version == 1 && receipt.message_id < 1 ==> receipt.shape() == Err::<(), _>(
                ReceiptValidationError::InvalidMessageId,
            )
            &&& receipt.version == 1 && receipt.message_id >= 1 && target < 1 ==> receipt.shape() == Err::<
                (),
                _,
            >(ReceiptValidationError::InvalidTargetId)
        }),
{
}

/// The time since a restart is the difference of the clocks. A clock that was set back by at most a minute
/// counts as no time at all; one that was set back further is not believed.
pub proof fn elapsed_time_is_the_difference(receipt: ReceiptView, now: u64)
    ensures
        now >= receipt.started_unix_ms ==> receipt.elapsed(now) == Ok::<u64, ReceiptValidationError>(
            (now - receipt.started_unix_ms) as u64,
        ),
        now < receipt.started_unix_ms <= now + 60_000 ==> receipt.elapsed(now) == Ok::<
            u64,
            ReceiptValidationError,
        >(0),
        receipt.started_unix_ms > now + 60_000 ==> receipt.elapsed(now) == Err::<u64, _>(
            ReceiptValidationError::TooFarInFuture,
        ),
{
}

/// An acceptable receipt is pending for ten minutes, with the time since the restart, and then has expired.
pub proof fn receipts_expire_after_ten_minutes(receipt: PendingRebootReceipt, now: u64)
    requires
        receipt@.shape() is Ok,
        now >= receipt@.started_unix_ms,
    ensures
        ({
            let outcome = reboot_receipt::loaded(ReceiptFile::Parsed(receipt), now);
            let elapsed = now - receipt@.started_unix_ms;
            &&& elapsed <= 600_000 ==> (outcome matches LoadOutcome::Pending(pending) && pending.receipt
                == receipt && pending.elapsed_millis == elapsed)
            &&& elapsed > 600_000 ==> outcome == LoadOutcome::Discarded(DiscardReason::Expired)
        }),
{
}

/// What cannot be used is thrown away for its own reason, and is then gone; where there is nothing, nothing is
/// thrown away.
pub proof fn useless_receipts_are_thrown_away(receipt: PendingRebootReceipt, now: u64)
    ensures
        reboot_receipt::loaded(ReceiptFile::Missing, now) == LoadOutcome::Absent,
        reboot_receipt::loaded(ReceiptFile::Unsafe, now) == LoadOutcome::Discarded(
            DiscardReason::UnsafeState,
        ),
        reboot_receipt::loaded(ReceiptFile::Malformed, now) == LoadOutcome::Discarded(
            DiscardReason::Malformed,
        ),
        receipt@.version != 1 ==> reboot_receipt::loaded(ReceiptFile::Parsed(receipt), now)
            == LoadOutcome::Discarded(DiscardReason::UnsupportedVersion(receipt@.version)),
        receipt@.shape() == Err::<(), _>(ReceiptValidationError::InvalidMessageId)
            ==> reboot_receipt::loaded(ReceiptFile::Parsed(receipt), now) == LoadOutcome::Discarded(
            DiscardReason::Invalid(ReceiptValidationError::InvalidMessageId),
        ),
        receipt@.shape() == Err::<(), _>(ReceiptValidationError::InvalidTargetId)
            ==> reboot_receipt::loaded(ReceiptFile::Parsed(receipt), now) == LoadOutcome::Discarded(
            DiscardReason::Invalid(ReceiptValidationError::InvalidTargetId),
        ),
        receipt@.shape() is Ok && receipt@.started_unix_ms > now + 60_000 ==> reboot_receipt::loaded(
            ReceiptFile::Parsed(receipt),
            now,
        ) == LoadOutcome::Discarded(DiscardReason::Invalid(ReceiptValidationError::TooFarInFuture)),
        forall|file: ReceiptFile|
            #[trigger] reboot_receipt::loaded(file, now) is Discarded ==> reboot_receipt::left_by_loading(
                file,
                now,
            ) is Missing,
        forall|file: ReceiptFile|
            !(#[trigger] reboot_receipt::loaded(file, now) is Discarded)
                ==> reboot_receipt::left_by_loading(file, now) == file,
{
}

/// A confirmation that was shown, was there already or can never be shown is over, and the receipt is gone. One
/// that failed for the time being is tried again after the wait, and after the last try the receipt stays.
pub proof fn confirmations_are_tried_again(left: nat, wait: u64)
    ensures
        reboot_receipt::after_edit(left, wait, ReceiptEditOutcome::Applied) == (AfterEdit::Finish {
            completion: RebootReceiptCompletion::Applied,
            remove_receipt: true,
        }),
        reboot_receipt::after_edit(left, wait, ReceiptEditOutcome::AlreadyApplied) == (AfterEdit::Finish {
            completion: RebootReceiptCompletion::AlreadyApplied,
            remove_receipt: true,
        }),
        reboot_receipt::after_edit(left, wait, ReceiptEditOutcome::Terminal) == (AfterEdit::Finish {
            completion: RebootReceiptCompletion::Terminal,
            remove_receipt: true,
        }),
        left >= 2 ==> reboot_receipt::after_edit(left, wait, ReceiptEditOutcome::Temporary)
            == AfterEdit::RetryAfter(wait),
        left <= 1 ==> reboot_receipt::after_edit(left, wait, ReceiptEditOutcome::Temporary) == (
        AfterEdit::Finish {
            completion: RebootReceiptCompletion::TemporaryExhausted,
            remove_receipt: false,
        }),
{
}

/// A confirmation tells the whole seconds that the restart took.
pub proof fn confirmations_tell_whole_seconds(locale: Locale, elapsed_millis: u64) -> (seconds: Seq<char>)
    ensures
        reboot_receipt::completion_text(locale, elapsed_millis) == text::replaced(
            reboot_template(locale, RebootText::Completed)@,
            "{elapsed}"@,
            seconds,
        ),
        of_digits(seconds),
        1000 * numeral_value(seconds, 10) <= elapsed_millis < 1000 * numeral_value(seconds, 10) + 1000,
{
    let whole = (elapsed_millis / 1000) as nat;
    super::text::decimals_read_back(whole);
    text::decimal(whole)
}

/// Of the first sixteen names of a directory those of temporary receipts are stale, in order, and no other.
pub proof fn stale_names_are_among_the_first_sixteen(names: Seq<Seq<char>>)
    ensures
        names.len() <= 16 ==> reboot_receipt::stale_among(names) == names.filter(
            |name: Seq<char>| reboot_receipt::receipt_temporary(name),
        ),
        names.len() > 16 ==> reboot_receipt::stale_among(names) == reboot_receipt::stale_among(
            names.take(16),
        ),
    decreases names.len(),
{
    reveal(Seq::filter);
    if names.len() > 0 {
        let shorter = names.drop_last();
        stale_names_are_among_the_first_sixteen(shorter);
        if names.len() == 17 {
            assert(names.take(16) == shorter);
        } else if names.len() > 17 {
            assert(shorter.take(16) == names.take(16));
        }
    }
}

/// The name of a temporary receipt is its prefix, 32 hexadecimal digits and its ending.
pub proof fn temporary_names_hold_a_nonce(nonce: Seq<char>, other: Seq<char>)
    ensures
        nonce.len() == 32 && (forall|i: int|
            0 <= i < 32 ==> ('0' <= #[trigger] nonce[i] && nonce[i] <= '9') || ('a' <= nonce[i] && nonce[i]
                <= 'f') || ('A' <= nonce[i] && nonce[i] <= 'F')) ==> reboot_receipt::receipt_temporary(
            ".reboot-receipt-"@ + nonce + ".tmp"@,
        ),
        other.len() != 52 ==> !reboot_receipt::receipt_temporary(other),
        !super::text::stands_at(other, ".reboot-receipt-"@, 0) ==> !reboot_receipt::receipt_temporary(
            other,
        ),
        !super::text::stands_at(other, ".tmp"@, other.len() - 4) ==> !reboot_receipt::receipt_temporary(
            other,
        ),
{
    reveal_strlit(".reboot-receipt-");
    reveal_strlit(".tmp");
    if nonce.len() == 32 && (forall|i: int|
        0 <= i < 32 ==> ('0' <= #[trigger] nonce[i] && nonce[i] <= '9') || ('a' <= nonce[i] && nonce[i]
            <= 'f') || ('A' <= nonce[i] && nonce[i] <= 'F')) {
        assert(reboot_receipt::full_nonce(nonce));
        assert(reboot_receipt::temporary_named(nonce) == ".reboot-receipt-"@ + nonce + ".tmp"@);
    }
    if reboot_receipt::receipt_temporary(other) {
        let own = choose|own: Seq<char>|
            reboot_receipt::full_nonce(own) && other == #[trigger] reboot_receipt::temporary_named(own);
        assert(other == ".reboot-receipt-"@ + own + ".tmp"@);
        assert(".reboot-receipt-"@.len() == 16 && ".tmp"@.len() == 4);
        assert(super::text::stands_at(other, ".reboot-receipt-"@, 0)) by {
            assert forall|i: int| 0 <= i < 16 implies other[0 + i] == #[trigger] ".reboot-receipt-"@[i] by {}
        }
        assert(super::text::stands_at(other, ".tmp"@, 48)) by {
            assert forall|i: int| 0 <= i < 4 implies other[48 + i] == #[trigger] ".tmp"@[i] by {}
        }
    }
}

/// A pending receipt is confirmed with as many tries as the policy allows, and with one at least; without a
/// receipt there is nothing to confirm.
pub proof fn pending_receipts_are_confirmed(
    pending: LoadedReceipt,
    reason: DiscardReason,
    policy: RebootReceiptRetryPolicy,
    locale: Locale,
)
    ensures
        reboot_receipt::beginning(LoadOutcome::Pending(pending), policy, locale) matches Ok(begun)
            && begun.receipt == pending.receipt && begun.locale == locale && begun.backoff
            == policy.backoff && begun.left >= 1 && (policy.max_attempts >= 1 ==> begun.left
            == policy.max_attempts) && (policy.max_attempts == 0 ==> begun.left == 1),
        reboot_receipt::beginning(LoadOutcome::Absent, policy, locale) == Err::<CoordinatorView, _>(
            RebootReceiptCompletion::Absent,
        ),
        reboot_receipt::beginning(LoadOutcome::Discarded(reason), policy, locale) == Err::<
            CoordinatorView,
            _,
        >(RebootReceiptCompletion::Discarded),
{
}

/// A receipt is armed for sure only where it was linked, the temporary file is gone and the directory was
/// written; a link after which either failed leaves it open whether it survives.
pub proof fn links_decide_about_arming(removed: bool, synced: bool)
    ensures
        ({
            let outcome = reboot_receipt::armed(
                LinkOutcome::Linked { temporary_removed: removed, directory_synced: synced },
            );
            &&& removed && synced ==> outcome == Ok::<_, ArmFailure>(ArmOutcome::Armed)
            &&& !(removed && synced) ==> outcome == Err::<ArmOutcome, _>(ArmFailure::DurabilityUnknown)
        }),
        reboot_receipt::armed(LinkOutcome::AlreadyExists) == Ok::<_, ArmFailure>(ArmOutcome::Conflict),
        reboot_receipt::armed(LinkOutcome::Failed) == Err::<ArmOutcome, _>(ArmFailure::NotInstalled),
{
}

/// Bytes stand for a number with the lowest first: a byte more counts 256 times as much as the one before it.
pub proof fn bytes_count_from_the_lowest(low: u8, rest: Seq<u8>)
    ensures
        reboot_receipt::little_endian(seq![low] + rest) == low as nat + 256
            * reboot_receipt::little_endian(rest),
        reboot_receipt::little_endian(Seq::empty()) == 0,
{
    assert((seq![low] + rest).skip(1) == rest);
}

/// The description of a receipt tells its format, its dialog, its message and its time, as numbers.
pub proof fn descriptions_tell_the_receipt(receipt: ReceiptView)
    ensures
        reboot_receipt::described_receipt(receipt) == "PendingRebootReceipt { version: "@ + text::decimal(
            receipt.version as nat,
        ) + ", target: "@ + (match receipt.target {
            ReceiptTarget::SelfUser => "SelfUser"@,
            ReceiptTarget::User { id, .. } => "User { id: "@ + text::signed_decimal(id as int) + " }"@,
            ReceiptTarget::Chat { id } => "Chat { id: "@ + text::signed_decimal(id as int) + " }"@,
            ReceiptTarget::Channel { id, .. } => "Channel { id: "@ + text::signed_decimal(id as int)
                + " }"@,
        }) + ", message_id: "@ + text::signed_decimal(receipt.message_id as int)
            + ", started_unix_ms: "@ + text::decimal(receipt.started_unix_ms as nat) + " }"@,
{
}

/// A directory is fit for receipts where it is a real one for its owner alone, and a file where it is a regular
/// one for its owner alone: the owner may do everything, or read and write, and nobody else anything.
pub proof fn receipts_are_private(directory: bool, symlink: bool, regular: bool, mode: u32)
    ensures
        reboot_receipt::directory_problem(directory, symlink, mode) is None <==> directory && !symlink && mode
            & 0o700 == 0o700 && mode & 0o077 == 0,
        reboot_receipt::file_problem(regular, mode) is None <==> regular && mode & 0o600 == 0o600 && mode
            & 0o177 == 0,
{
    assert(mode & 0o777 == 0o700 <==> mode & 0o700 == 0o700 && mode & 0o077 == 0) by (bit_vector);
    assert(mode & 0o777 == 0o600 <==> mode & 0o600 == 0o600 && mode & 0o177 == 0) by (bit_vector);
}

/// The clock is told in milliseconds since the epoch, up to what 64 bits hold; before the epoch there are none.
pub proof fn clocks_tell_milliseconds(distance: u128)
    ensures
        distance <= 0xffff_ffff_ffff_ffff ==> reboot_receipt::millis_since_epoch(Some(distance)) == Ok::<
            u64,
            ClockError,
        >(distance as u64),
        distance > 0xffff_ffff_ffff_ffff ==> reboot_receipt::millis_since_epoch(Some(distance)) == Ok::<
            u64,
            ClockError,
        >(0xffff_ffff_ffff_ffff),
        reboot_receipt::millis_since_epoch(None) == Err::<u64, _>(ClockError::BeforeUnixEpoch),
{
}

/// Each try that is to be repeated uses one up; nothing else about a confirmation changes.
pub proof fn repeated_tries_are_counted(confirmation: CoordinatorView, outcome: ReceiptEditOutcome)
    ensures
        ({
            let next = confirmation.after_try(outcome);
            &&& next.receipt == confirmation.receipt && next.locale == confirmation.locale
                && next.backoff == confirmation.backoff
            &&& outcome == ReceiptEditOutcome::Temporary && confirmation.left > 1 ==> next.left
                == confirmation.left - 1
            &&& outcome != ReceiptEditOutcome::Temporary || confirmation.left <= 1 ==> next.left
                == confirmation.left
        }),
{
}

} // verus!
