//! Durable, transport-independent acknowledgement of a restart command.
//!
//! A receipt holds only what is needed to edit the command message once the process runs again.
//! Reading and writing the receipt file, asking the clock and editing the message are up to the
//! caller; every decision in between is taken here.
use crate::i18n::{reboot_text, reboot_template, Locale, RebootText};
use crate::text;
use vstd::prelude::*;
use vstd::string::*;

verus! {

/// The receipt format that this version writes and reads.
pub const RECEIPT_VERSION: u32 = 1;

/// How long a receipt stays valid, in milliseconds.
pub const RECEIPT_TTL_MILLIS: u64 = 600_000;

/// How far in the future a receipt may seem to start, in milliseconds.
pub const MAX_FUTURE_MILLIS: u64 = 60_000;

/// The most bytes that a receipt file may hold.
pub const MAX_RECEIPT_BYTES: usize = 1024;

/// How many directory entries one cleanup looks at.
pub const MAX_CLEANUP_ENTRIES: usize = 16;

/// How often the confirmation is tried by default.
pub const REBOOT_RECEIPT_MAX_ATTEMPTS: u8 = 3;

/// How long to wait between tries by default, in milliseconds.
pub const REBOOT_RECEIPT_RETRY_BACKOFF: u64 = 100;

/// A stable, transport-neutral target for the message to edit after restart.
#[derive(Clone, Copy, PartialEq, Eq, Structural)]
pub enum ReceiptTarget {
    SelfUser,
    User { id: i64, access_hash: i64 },
    Chat { id: i64 },
    Channel { id: i64, access_hash: i64 },
}

/// Why a receipt is not acceptable.
#[derive(Clone, Copy, Debug, PartialEq, Eq, Structural)]
pub enum ReceiptValidationError {
    UnsupportedVersion(u32),
    InvalidMessageId,
    InvalidTargetId,
    TooFarInFuture,
}

/// The message to edit after a restart, and when the restart began.
#[derive(Clone, Copy, PartialEq, Eq, Structural)]
pub struct PendingRebootReceipt {
    version: u32,
    target: ReceiptTarget,
    message_id: i32,
    started_unix_ms: u64,
}

/// The model of a [`PendingRebootReceipt`].
pub struct ReceiptView {
    pub version: u32,
    pub target: ReceiptTarget,
    pub message_id: i32,
    pub started_unix_ms: u64,
}

impl View for PendingRebootReceipt {
    type V = ReceiptView;

    closed spec fn view(&self) -> ReceiptView {
        ReceiptView {
            version: self.version,
            target: self.target,
            message_id: self.message_id,
            started_unix_ms: self.started_unix_ms,
        }
    }
}

/// Whether a target names a peer that can exist.
pub open spec fn valid_target(target: ReceiptTarget) -> bool {
    match target {
        ReceiptTarget::SelfUser => true,
        ReceiptTarget::User { id, .. } => id > 0,
        ReceiptTarget::Chat { id } => id > 0,
        ReceiptTarget::Channel { id, .. } => id > 0,
    }
}

impl ReceiptView {
    /// What is wrong with the receipt, looked at without a clock.
    pub open spec fn shape(self) -> Result<(), ReceiptValidationError> {
        if self.version != RECEIPT_VERSION {
            Err(ReceiptValidationError::UnsupportedVersion(self.version))
        } else if self.message_id <= 0 {
            Err(ReceiptValidationError::InvalidMessageId)
        } else if !valid_target(self.target) {
            Err(ReceiptValidationError::InvalidTargetId)
        } else {
            Ok(())
        }
    }

    /// How long ago the restart began. A start slightly in the future counts as now; one that is
    /// further ahead is refused.
    pub open spec fn elapsed(self, now_unix_ms: u64) -> Result<u64, ReceiptValidationError> {
        if self.started_unix_ms > now_unix_ms + MAX_FUTURE_MILLIS {
            Err(ReceiptValidationError::TooFarInFuture)
        } else if now_unix_ms < self.started_unix_ms {
            Ok(0u64)
        } else {
            Ok((now_unix_ms - self.started_unix_ms) as u64)
        }
    }
}

impl ReceiptValidationError {
    /// What the error tells.
    pub open spec fn told(self) -> Seq<char> {
        match self {
            ReceiptValidationError::UnsupportedVersion(version) =>
                "unsupported reboot receipt version "@ + text::decimal(version as nat),
            ReceiptValidationError::InvalidMessageId =>
                "reboot receipt message id must be positive"@,
            ReceiptValidationError::InvalidTargetId => "reboot receipt target id must be positive"@,
            ReceiptValidationError::TooFarInFuture =>
                "reboot receipt timestamp is too far in the future"@,
        }
    }

    /// [`ReceiptValidationError::told`] as a string.
    pub fn message(&self) -> (message: String)
        ensures
            message@ == self.told(),
    {
        match *self {
            ReceiptValidationError::UnsupportedVersion(version) => {
                let mut message = "unsupported reboot receipt version ".to_owned();
                message.append(text::to_decimal(version as u128).as_str());
                message
            },
            ReceiptValidationError::InvalidMessageId =>
                "reboot receipt message id must be positive".to_owned(),
            ReceiptValidationError::InvalidTargetId =>
                "reboot receipt target id must be positive".to_owned(),
            ReceiptValidationError::TooFarInFuture =>
                "reboot receipt timestamp is too far in the future".to_owned(),
        }
    }
}

impl ReceiptTarget {
    /// The target without its access hash.
    pub open spec fn described(self) -> Seq<char> {
        match self {
            ReceiptTarget::SelfUser => "SelfUser"@,
            ReceiptTarget::User { id, .. } => "User { id: "@ + text::signed_decimal(id as int)
                + " }"@,
            ReceiptTarget::Chat { id } => "Chat { id: "@ + text::signed_decimal(id as int) + " }"@,
            ReceiptTarget::Channel { id, .. } => "Channel { id: "@ + text::signed_decimal(id as int)
                + " }"@,
        }
    }

    /// [`ReceiptTarget::described`] as a string.
    pub fn describe(&self) -> (description: String)
        ensures
            description@ == self.described(),
    {
        match *self {
            ReceiptTarget::SelfUser => "SelfUser".to_owned(),
            ReceiptTarget::User { id, .. } => describe_peer("User { id: ", id),
            ReceiptTarget::Chat { id } => describe_peer("Chat { id: ", id),
            ReceiptTarget::Channel { id, .. } => describe_peer("Channel { id: ", id),
        }
    }
}

fn describe_peer(opening: &str, id: i64) -> (description: String)
    ensures
        description@ == opening@ + text::signed_decimal(id as int) + " }"@,
{
    let mut description = opening.to_owned();
    description.append(text::to_signed_decimal(id).as_str());
    description.append(" }");
    description
}

impl PendingRebootReceipt {
    /// A receipt of the current version, where its parts are acceptable.
    pub fn new(target: ReceiptTarget, message_id: i32, started_unix_ms: u64) -> (result: Result<
        Self,
        ReceiptValidationError,
    >)
        ensures
            ({
                let made = ReceiptView {
                    version: RECEIPT_VERSION,
                    target,
                    message_id,
                    started_unix_ms,
                };
                match made.shape() {
                    Ok(()) => result is Ok && result->Ok_0@ == made,
                    Err(error) => result == Err::<Self, _>(error),
                }
            }),
    {
        let receipt = PendingRebootReceipt::from_parts(
            RECEIPT_VERSION,
            target,
            message_id,
            started_unix_ms,
        );
        match receipt.validate_shape() {
            Ok(()) => Ok(receipt),
            Err(error) => Err(error),
        }
    }

    /// A receipt as it was read, before anything was checked.
    pub fn from_parts(
        version: u32,
        target: ReceiptTarget,
        message_id: i32,
        started_unix_ms: u64,
    ) -> (receipt: Self)
        ensures
            receipt@ == (ReceiptView { version, target, message_id, started_unix_ms }),
    {
        PendingRebootReceipt { version, target, message_id, started_unix_ms }
    }

    /// The format version.
    pub fn version(&self) -> (version: u32)
        ensures
            version == self@.version,
    {
        self.version
    }

    /// Where the message to edit is.
    pub fn target(&self) -> (target: &ReceiptTarget)
        ensures
            *target == self@.target,
    {
        &self.target
    }

    /// The message to edit.
    pub fn message_id(&self) -> (message_id: i32)
        ensures
            message_id == self@.message_id,
    {
        self.message_id
    }

    /// When the restart began.
    pub fn started_unix_ms(&self) -> (started: u64)
        ensures
            started == self@.started_unix_ms,
    {
        self.started_unix_ms
    }

    /// [`ReceiptView::elapsed`], computed.
    pub fn elapsed_millis(&self, now_unix_ms: u64) -> (result: Result<u64, ReceiptValidationError>)
        ensures
            result == self@.elapsed(now_unix_ms),
    {
        if self.started_unix_ms > now_unix_ms.saturating_add(MAX_FUTURE_MILLIS) {
            return Err(ReceiptValidationError::TooFarInFuture);
        }
        Ok(now_unix_ms.saturating_sub(self.started_unix_ms))
    }

    /// [`ReceiptView::shape`], computed.
    pub fn validate_shape(&self) -> (result: Result<(), ReceiptValidationError>)
        ensures
            result == self@.shape(),
    {
        if self.version != RECEIPT_VERSION {
            return Err(ReceiptValidationError::UnsupportedVersion(self.version));
        }
        if self.message_id <= 0 {
            return Err(ReceiptValidationError::InvalidMessageId);
        }
        let id: i64 = match self.target {
            ReceiptTarget::SelfUser => 1,
            ReceiptTarget::User { id, .. } => id,
            ReceiptTarget::Chat { id } => id,
            ReceiptTarget::Channel { id, .. } => id,
        };
        if id <= 0 {
            Err(ReceiptValidationError::InvalidTargetId)
        } else {
            Ok(())
        }
    }

    /// The receipt in words, without access hashes.
    pub fn describe(&self) -> (description: String)
        ensures
            description@ == described_receipt(self@),
    {
        let mut description = "PendingRebootReceipt { version: ".to_owned();
        description.append(text::to_decimal(self.version as u128).as_str());
        description.append(", target: ");
        description.append(self.target.describe().as_str());
        description.append(", message_id: ");
        description.append(text::to_signed_decimal(self.message_id as i64).as_str());
        description.append(", started_unix_ms: ");
        description.append(text::to_decimal(self.started_unix_ms as u128).as_str());
        description.append(" }");
        description
    }
}

/// What [`PendingRebootReceipt::describe`] tells.
pub open spec fn described_receipt(receipt: ReceiptView) -> Seq<char> {
    "PendingRebootReceipt { version: "@ + text::decimal(receipt.version as nat) + ", target: "@
        + receipt.target.described() + ", message_id: "@ + text::signed_decimal(
        receipt.message_id as int,
    ) + ", started_unix_ms: "@ + text::decimal(receipt.started_unix_ms as nat) + " }"@
}

/// Descriptions do not depend on access hashes.
pub proof fn descriptions_hide_access_hashes(id: i64, one: i64, other: i64)
    ensures
        (ReceiptTarget::User { id, access_hash: one }).described() == (ReceiptTarget::User {
            id,
            access_hash: other,
        }).described(),
        (ReceiptTarget::Channel { id, access_hash: one }).described() == (ReceiptTarget::Channel {
            id,
            access_hash: other,
        }).described(),
{
}

/// The clock stands before the Unix epoch.
#[derive(Clone, Copy, Debug, PartialEq, Eq, Structural)]
pub enum ClockError {
    BeforeUnixEpoch,
}

impl ClockError {
    /// What the error tells.
    pub fn message(&self) -> (message: String)
        ensures
            message@ == "system clock is before the Unix epoch"@,
    {
        "system clock is before the Unix epoch".to_owned()
    }
}

/// The milliseconds since the Unix epoch, as far as 64 bits go.
pub open spec fn millis_since_epoch(since_epoch: Option<u128>) -> Result<u64, ClockError> {
    match since_epoch {
        Some(distance) => Ok(
            if distance <= u64::MAX {
                distance as u64
            } else {
                u64::MAX
            },
        ),
        None => Err(ClockError::BeforeUnixEpoch),
    }
}

/// The milliseconds that a clock tells, given its distance from the Unix epoch where it is past
/// it.
pub fn clock_millis(since_epoch: Option<u128>) -> (millis: Result<u64, ClockError>)
    ensures
        millis == millis_since_epoch(since_epoch),
        millis == (match since_epoch {
            Some(distance) => Ok::<u64, ClockError>(
                if distance <= u64::MAX {
                    distance as u64
                } else {
                    u64::MAX
                },
            ),
            None => Err(ClockError::BeforeUnixEpoch),
        }),
{
    match since_epoch {
        Some(distance) => if distance <= u64::MAX as u128 {
            Ok(distance as u64)
        } else {
            Ok(u64::MAX)
        },
        None => Err(ClockError::BeforeUnixEpoch),
    }
}

/// A receipt that was found and accepted.
#[derive(Clone, Copy, PartialEq, Eq, Structural)]
pub struct LoadedReceipt {
    pub receipt: PendingRebootReceipt,
    pub elapsed_millis: u64,
}

/// Why a receipt file was thrown away.
#[derive(Clone, Copy, Debug, PartialEq, Eq, Structural)]
pub enum DiscardReason {
    Malformed,
    UnsupportedVersion(u32),
    Invalid(ReceiptValidationError),
    Expired,
    UnsafeState,
}

/// What a look at the receipt file gave.
#[derive(Clone, Copy, PartialEq, Eq, Structural)]
pub enum LoadOutcome {
    Absent,
    Pending(LoadedReceipt),
    Discarded(DiscardReason),
}

/// What reading the receipt file gave.
#[derive(Clone, Copy, PartialEq, Eq, Structural)]
pub enum ReceiptFile {
    Missing,
    /// Not a private regular file of acceptable size.
    Unsafe,
    Malformed,
    Parsed(PendingRebootReceipt),
}

/// What is to be done about a receipt that was read at the time `now_unix_ms`.
pub open spec fn judged(receipt: PendingRebootReceipt, now_unix_ms: u64) -> LoadOutcome {
    match receipt@.shape() {
        Err(ReceiptValidationError::UnsupportedVersion(version)) => LoadOutcome::Discarded(
            DiscardReason::UnsupportedVersion(version),
        ),
        Err(error) => LoadOutcome::Discarded(DiscardReason::Invalid(error)),
        Ok(()) => match receipt@.elapsed(now_unix_ms) {
            Err(error) => LoadOutcome::Discarded(DiscardReason::Invalid(error)),
            Ok(elapsed_millis) => if elapsed_millis > RECEIPT_TTL_MILLIS {
                LoadOutcome::Discarded(DiscardReason::Expired)
            } else {
                LoadOutcome::Pending(LoadedReceipt { receipt, elapsed_millis })
            },
        },
    }
}

/// What a look at the receipt file gives at the time `now_unix_ms`.
pub open spec fn loaded(file: ReceiptFile, now_unix_ms: u64) -> LoadOutcome {
    match file {
        ReceiptFile::Missing => LoadOutcome::Absent,
        ReceiptFile::Unsafe => LoadOutcome::Discarded(DiscardReason::UnsafeState),
        ReceiptFile::Malformed => LoadOutcome::Discarded(DiscardReason::Malformed),
        ReceiptFile::Parsed(receipt) => judged(receipt, now_unix_ms),
    }
}

/// The receipt file after a look at it: what was thrown away is gone.
pub open spec fn left_by_loading(file: ReceiptFile, now_unix_ms: u64) -> ReceiptFile {
    if loaded(file, now_unix_ms) is Discarded {
        ReceiptFile::Missing
    } else {
        file
    }
}

/// Decides what a look at the receipt file gives at the time `now_unix_ms`.
pub fn load_at(file: ReceiptFile, now_unix_ms: u64) -> (outcome: LoadOutcome)
    ensures
        outcome == loaded(file, now_unix_ms),
{
    let receipt = match file {
        ReceiptFile::Missing => return LoadOutcome::Absent,
        ReceiptFile::Unsafe => return LoadOutcome::Discarded(DiscardReason::UnsafeState),
        ReceiptFile::Malformed => return LoadOutcome::Discarded(DiscardReason::Malformed),
        ReceiptFile::Parsed(receipt) => receipt,
    };
    match receipt.validate_shape() {
        Err(ReceiptValidationError::UnsupportedVersion(version)) => {
            return LoadOutcome::Discarded(DiscardReason::UnsupportedVersion(version));
        },
        Err(error) => return LoadOutcome::Discarded(DiscardReason::Invalid(error)),
        Ok(()) => {},
    }
    let elapsed_millis: u64 = match receipt.elapsed_millis(now_unix_ms) {
        Ok(elapsed) => elapsed,
        Err(error) => return LoadOutcome::Discarded(DiscardReason::Invalid(error)),
    };
    if elapsed_millis > RECEIPT_TTL_MILLIS {
        return LoadOutcome::Discarded(DiscardReason::Expired);
    }
    LoadOutcome::Pending(LoadedReceipt { receipt, elapsed_millis })
}

/// Whether the receipt file is to be removed: exactly where it was thrown away.
pub fn removes_file(outcome: &LoadOutcome) -> (remove: bool)
    ensures
        remove == (outcome is Discarded),
{
    matches!(*outcome, LoadOutcome::Discarded(_))
}

/// A receipt made by [`PendingRebootReceipt::new`] loads as pending from a minute before it
/// began until its time to live is over, and at no other time.
pub proof fn new_receipts_load_while_they_live(receipt: PendingRebootReceipt, now_unix_ms: u64)
    requires
        receipt@.shape() is Ok,
    ensures
        judged(receipt, now_unix_ms) is Pending <==> receipt@.started_unix_ms <= now_unix_ms
            + MAX_FUTURE_MILLIS && now_unix_ms <= receipt@.started_unix_ms + RECEIPT_TTL_MILLIS,
        judged(receipt, now_unix_ms) matches LoadOutcome::Pending(loaded) ==> loaded.receipt
            == receipt,
{
}

/// Whether Unix permissions grant the owner, and only the owner, exactly `expected`.
pub open spec fn permissions_are(mode: u32, expected: u32) -> bool {
    mode & 0o777 == expected
}

/// What is wrong with a state directory.
pub open spec fn directory_problem(is_directory: bool, is_symlink: bool, mode: u32) -> Option<
    Seq<char>,
> {
    if !is_directory || is_symlink {
        Some("state directory is not a real directory"@)
    } else if !permissions_are(mode, 0o700) {
        Some("state directory permissions are not 0700"@)
    } else {
        None
    }
}

/// What is wrong with a receipt file.
pub open spec fn file_problem(is_regular: bool, mode: u32) -> Option<Seq<char>> {
    if !is_regular {
        Some("receipt is not a regular file"@)
    } else if !permissions_are(mode, 0o600) {
        Some("receipt permissions are not 0600"@)
    } else {
        None
    }
}

/// What is wrong with the state directory, where it is not a private real directory.
pub fn check_state_directory(is_directory: bool, is_symlink: bool, mode: u32) -> (problem: Option<
    &'static str,
>)
    ensures
        directory_problem(is_directory, is_symlink, mode) == (match problem {
            Some(problem) => Some(problem@),
            None => None,
        }),
        problem == (if !is_directory || is_symlink {
            Some("state directory is not a real directory")
        } else if !permissions_are(mode, 0o700) {
            Some("state directory permissions are not 0700")
        } else {
            None
        }),
{
    if !is_directory || is_symlink {
        Some("state directory is not a real directory")
    } else if mode & 0o777 != 0o700 {
        Some("state directory permissions are not 0700")
    } else {
        None
    }
}

/// What is wrong with the receipt file, where it is not a private regular file.
pub fn check_receipt_file(is_regular: bool, mode: u32) -> (problem: Option<&'static str>)
    ensures
        file_problem(is_regular, mode) == (match problem {
            Some(problem) => Some(problem@),
            None => None,
        }),
        problem == (if !is_regular {
            Some("receipt is not a regular file")
        } else if !permissions_are(mode, 0o600) {
            Some("receipt permissions are not 0600")
        } else {
            None
        }),
{
    if !is_regular {
        Some("receipt is not a regular file")
    } else if mode & 0o777 != 0o600 {
        Some("receipt permissions are not 0600")
    } else {
        None
    }
}

/// Whether a receipt of that many bytes may be written or read.
pub fn receipt_size_fits(bytes: usize) -> (fits: bool)
    ensures
        fits == (bytes <= MAX_RECEIPT_BYTES),
{
    bytes <= MAX_RECEIPT_BYTES
}

/// Whether a receipt was put in place.
#[derive(Clone, Copy, Debug, PartialEq, Eq, Structural)]
pub enum ArmOutcome {
    Armed,
    Conflict,
}

/// What linking the written receipt into place gave.
#[derive(Clone, Copy, Debug, PartialEq, Eq, Structural)]
pub enum LinkOutcome {
    Linked { temporary_removed: bool, directory_synced: bool },
    AlreadyExists,
    Failed,
}

/// Why a receipt was not put in place, or may not have been.
#[derive(Clone, Copy, Debug, PartialEq, Eq, Structural)]
pub enum ArmFailure {
    /// Nothing was put in place.
    NotInstalled,
    /// The receipt is in place, but may not survive a crash.
    DurabilityUnknown,
}

/// How arming a receipt ended.
pub open spec fn armed(link: LinkOutcome) -> Result<ArmOutcome, ArmFailure> {
    match link {
        LinkOutcome::Linked { temporary_removed, directory_synced } => if temporary_removed
            && directory_synced {
            Ok(ArmOutcome::Armed)
        } else {
            Err(ArmFailure::DurabilityUnknown)
        },
        LinkOutcome::AlreadyExists => Ok(ArmOutcome::Conflict),
        LinkOutcome::Failed => Err(ArmFailure::NotInstalled),
    }
}

/// Whether linking a receipt into place can give `link` where `file` is what the place holds: a link
/// is made only where there is nothing, and something is in the way only where there is something.
pub open spec fn link_fits(file: ReceiptFile, link: LinkOutcome) -> bool {
    match link {
        LinkOutcome::Linked { .. } => file is Missing,
        LinkOutcome::AlreadyExists => !(file is Missing),
        LinkOutcome::Failed => true,
    }
}

/// The receipt file after `receipt` was to be linked into place.
pub open spec fn left_by_arming(
    file: ReceiptFile,
    receipt: PendingRebootReceipt,
    link: LinkOutcome,
) -> ReceiptFile {
    if link is Linked {
        ReceiptFile::Parsed(receipt)
    } else {
        file
    }
}

/// Where linking does not fail, a receipt is armed exactly where there is no file yet; what is there
/// already stays as it is and is reported as a conflict.
pub proof fn arming_never_replaces_a_receipt(
    file: ReceiptFile,
    receipt: PendingRebootReceipt,
    link: LinkOutcome,
)
    requires
        link_fits(file, link),
    ensures
        !(file is Missing) ==> left_by_arming(file, receipt, link) == file,
        !(file is Missing) && !(link is Failed) ==> armed(link) == Ok::<_, ArmFailure>(
            ArmOutcome::Conflict,
        ),
        file is Missing && link == (LinkOutcome::Linked {
            temporary_removed: true,
            directory_synced: true,
        }) ==> armed(link) == Ok::<_, ArmFailure>(ArmOutcome::Armed),
        armed(link) == Err::<ArmOutcome, _>(ArmFailure::NotInstalled) ==> left_by_arming(
            file,
            receipt,
            link,
        ) == file,
{
}

/// A receipt that was armed, or that may not survive a crash, is what the file holds. While it lives,
/// every look at the file gives it with the time since the restart began, and leaves it there; arming
/// another receipt meanwhile leaves it there too.
pub proof fn armed_receipts_load_while_they_live(
    file: ReceiptFile,
    receipt: PendingRebootReceipt,
    link: LinkOutcome,
    other: PendingRebootReceipt,
    other_link: LinkOutcome,
    now_unix_ms: u64,
    elapsed_millis: u64,
)
    requires
        receipt@.shape() is Ok,
        link_fits(file, link),
        armed(link) == Ok::<_, ArmFailure>(ArmOutcome::Armed) || armed(link) == Err::<
            ArmOutcome,
            _,
        >(ArmFailure::DurabilityUnknown),
        link_fits(left_by_arming(file, receipt, link), other_link),
        receipt@.elapsed(now_unix_ms) == Ok::<u64, ReceiptValidationError>(elapsed_millis),
        elapsed_millis <= RECEIPT_TTL_MILLIS,
    ensures
        ({
            let next = left_by_arming(file, receipt, link);
            &&& loaded(next, now_unix_ms) == LoadOutcome::Pending(
                LoadedReceipt { receipt, elapsed_millis },
            )
            &&& left_by_loading(next, now_unix_ms) == next
            &&& left_by_arming(next, other, other_link) == next
        }),
{
}

/// Decides how arming a receipt ended. The link is the point of no return: once it is made, a
/// failure can no longer mean that nothing was armed.
pub fn arm_outcome(link: LinkOutcome) -> (outcome: Result<ArmOutcome, ArmFailure>)
    ensures
        outcome == armed(link),
        outcome == Err::<ArmOutcome, _>(ArmFailure::NotInstalled) ==> link !is Linked,
{
    match link {
        LinkOutcome::Linked { temporary_removed, directory_synced } => if temporary_removed
            && directory_synced {
            Ok(ArmOutcome::Armed)
        } else {
            Err(ArmFailure::DurabilityUnknown)
        },
        LinkOutcome::AlreadyExists => Ok(ArmOutcome::Conflict),
        LinkOutcome::Failed => Err(ArmFailure::NotInstalled),
    }
}

/// Why the receipt storage could not do its work; `source` is the cause in the system's words.
#[derive(Debug, PartialEq, Eq)]
pub enum ReceiptStoreError {
    UnsafeState { detail: &'static str },
    Io { operation: &'static str, source: String },
    ArmDurabilityUnknown { source: String },
    DeleteDurabilityUnknown { source: String },
    TaskCancelled,
    Validation(ReceiptValidationError),
}

impl ReceiptStoreError {
    /// What the error tells.
    pub open spec fn told(self) -> Seq<char> {
        match self {
            ReceiptStoreError::UnsafeState { detail } => "unsafe reboot receipt state: "@ + detail@,
            ReceiptStoreError::Io { operation, source } =>
                "reboot receipt storage is unavailable while "@ + operation@ + ": "@ + source@,
            ReceiptStoreError::ArmDurabilityUnknown { source } =>
                "reboot receipt may have been installed, but syncing its directory failed: "@
                + source@,
            ReceiptStoreError::DeleteDurabilityUnknown { source } =>
                "reboot receipt may have been deleted, but syncing its directory failed: "@
                + source@,
            ReceiptStoreError::TaskCancelled => "reboot receipt task was cancelled"@,
            ReceiptStoreError::Validation(error) => error.told(),
        }
    }

    /// [`ReceiptStoreError::told`] as a string.
    pub fn message(&self) -> (message: String)
        ensures
            message@ == self.told(),
    {
        match self {
            ReceiptStoreError::UnsafeState { detail } => {
                let mut message = "unsafe reboot receipt state: ".to_owned();
                message.append(detail);
                message
            },
            ReceiptStoreError::Io { operation, source } => {
                let mut message = "reboot receipt storage is unavailable while ".to_owned();
                message.append(operation);
                message.append(": ");
                message.append(source.as_str());
                message
            },
            ReceiptStoreError::ArmDurabilityUnknown { source } => {
                let mut message =
                    "reboot receipt may have been installed, but syncing its directory failed: ".to_owned();
                message.append(source.as_str());
                message
            },
            ReceiptStoreError::DeleteDurabilityUnknown { source } => {
                let mut message =
                    "reboot receipt may have been deleted, but syncing its directory failed: ".to_owned();
                message.append(source.as_str());
                message
            },
            ReceiptStoreError::TaskCancelled => "reboot receipt task was cancelled".to_owned(),
            ReceiptStoreError::Validation(error) => error.message(),
        }
    }
}

/// Checks a receipt before it is written.
pub fn check_before_arming(receipt: &PendingRebootReceipt) -> (result: Result<(), ReceiptStoreError>)
    ensures
        result == (match receipt@.shape() {
            Ok(()) => Ok::<(), ReceiptStoreError>(()),
            Err(error) => Err(ReceiptStoreError::Validation(error)),
        }),
{
    match receipt.validate_shape() {
        Ok(()) => Ok(()),
        Err(error) => Err(ReceiptStoreError::Validation(error)),
    }
}

/// How many stale temporary files were removed, and how many could not be.
#[derive(Clone, Copy, Debug, PartialEq, Eq, Structural)]
pub struct TemporaryCleanup {
    pub removed: u8,
    pub failures: u8,
}

impl Default for TemporaryCleanup {
    fn default() -> (cleanup: TemporaryCleanup)
        ensures
            cleanup.removed == 0,
            cleanup.failures == 0,
    {
        TemporaryCleanup { removed: 0, failures: 0 }
    }
}

impl TemporaryCleanup {
    /// Counts one attempt to remove a file, up to what the counters hold.
    pub fn record(&mut self, removed: bool)
        ensures
            final(self).removed == (if removed && old(self).removed < u8::MAX {
                (old(self).removed + 1) as u8
            } else {
                old(self).removed
            }),
            final(self).failures == (if !removed && old(self).failures < u8::MAX {
                (old(self).failures + 1) as u8
            } else {
                old(self).failures
            }),
    {
        if removed {
            self.removed = self.removed.saturating_add(1);
        } else {
            self.failures = self.failures.saturating_add(1);
        }
    }
}

/// Whether `c` is a hexadecimal digit of either case.
pub open spec fn hex_digit(c: char) -> bool {
    ('0' <= c && c <= '9') || ('a' <= c && c <= 'f') || ('A' <= c && c <= 'F')
}

/// Whether `nonce` is made of 32 hexadecimal digits.
pub open spec fn full_nonce(nonce: Seq<char>) -> bool {
    nonce.len() == 32 && forall|i: int| 0 <= i < nonce.len() ==> hex_digit(#[trigger] nonce[i])
}

/// The name of a temporary receipt file.
pub open spec fn temporary_named(nonce: Seq<char>) -> Seq<char> {
    ".reboot-receipt-"@ + nonce + ".tmp"@
}

/// Whether `name` is that of a temporary receipt file with a full nonce.
pub open spec fn receipt_temporary(name: Seq<char>) -> bool {
    exists|nonce: Seq<char>| full_nonce(nonce) && name == #[trigger] temporary_named(nonce)
}

proof fn lemma_temporary_parts()
    ensures
        ".reboot-receipt-"@.len() == 16,
        ".tmp"@.len() == 4,
{
    reveal_strlit(".reboot-receipt-");
    reveal_strlit(".tmp");
}

/// Decides [`receipt_temporary`].
pub fn is_receipt_temporary(name: &str) -> (yes: bool)
    ensures
        yes == receipt_temporary(name@),
{
    let chars = text::chars_of(name);
    let prefix = text::chars_of(".reboot-receipt-");
    let suffix = text::chars_of(".tmp");
    proof {
        lemma_temporary_parts();
        if receipt_temporary(name@) {
            let nonce = choose|nonce: Seq<char>|
                full_nonce(nonce) && name@ == #[trigger] temporary_named(nonce);
            assert(name@.subrange(0, 16) == prefix@);
            assert(name@.subrange(48, 52) == suffix@);
            assert(name@.subrange(16, 48) == nonce);
        }
    }
    if chars.len() != 52 || !text::matches_at(&chars, &prefix, 0) || !text::matches_at(
        &chars,
        &suffix,
        48,
    ) {
        return false;
    }
    let ghost nonce = chars@.subrange(16, 48);
    assert(temporary_named(nonce) == name@);
    let mut i: usize = 16;
    while i < 48
        invariant
            16 <= i <= 48,
            chars@.len() == 52,
            chars@ == name@,
            nonce == chars@.subrange(16, 48),
            receipt_temporary(name@) ==> full_nonce(nonce),
            forall|j: int| 0 <= j < i - 16 ==> hex_digit(#[trigger] nonce[j]),
        decreases 48 - i,
    {
        let c = chars[i];
        if !(('0' <= c && c <= '9') || ('a' <= c && c <= 'f') || ('A' <= c && c <= 'F')) {
            assert(!hex_digit(nonce[i - 16]));
            return false;
        }
        i = i + 1;
    }
    assert(full_nonce(nonce));
    true
}

/// The names, among the first [`MAX_CLEANUP_ENTRIES`] of a directory listing, that are those of
/// temporary receipt files.
pub open spec fn stale_among(names: Seq<Seq<char>>) -> Seq<Seq<char>>
    decreases names.len(),
{
    if names.len() == 0 {
        Seq::empty()
    } else if names.len() > MAX_CLEANUP_ENTRIES || !receipt_temporary(names.last()) {
        stale_among(names.drop_last())
    } else {
        stale_among(names.drop_last()).push(names.last())
    }
}

/// [`stale_among`] as strings.
pub fn stale_temporaries(names: &Vec<String>) -> (stale: Vec<String>)
    ensures
        text::views(stale@) == stale_among(text::views(names@)),
{
    let mut stale: Vec<String> = Vec::new();
    let ghost all = text::views(names@);
    let mut i: usize = 0;
    assert(text::views(stale@) == Seq::<Seq<char>>::empty());
    while i < names.len()
        invariant
            i <= names@.len(),
            all == text::views(names@),
            text::views(stale@) == stale_among(all.take(i as int)),
        decreases names@.len() - i,
    {
        assert(all.take(i + 1).drop_last() == all.take(i as int));
        if i < MAX_CLEANUP_ENTRIES && is_receipt_temporary(names[i].as_str()) {
            let ghost before = stale@;
            stale.push(names[i].clone());
            assert(text::views(stale@) == text::views(before).push(names@[i as int]@));
        }
        i = i + 1;
    }
    assert(all.take(i as int) == all);
    stale
}

/// The declared error of the system's random source.
#[verifier::external_type_specification]
#[verifier::external_body]
pub struct ExRandomError(getrandom::Error);

/// `getrandom::fill` fills a buffer with random bytes. Of the bytes nothing is claimed; the
/// buffer keeps its sixteen places.
#[verifier::external_body]
fn random_nonce() -> (nonce: Result<Vec<u8>, getrandom::Error>)
    ensures
        nonce matches Ok(bytes) ==> bytes@.len() == 16,
{
    let mut nonce = vec![0_u8; 16];
    match getrandom::fill(&mut nonce) {
        Ok(()) => Ok(nonce),
        Err(error) => Err(error),
    }
}

/// The name of a temporary receipt file with the nonce `nonce`.
pub fn temporary_name_of(nonce: u128) -> (name: String)
    ensures
        name@ == temporary_named(text::hex(nonce as nat)),
{
    let mut name = ".reboot-receipt-".to_owned();
    name.append(text::to_hex(nonce).as_str());
    name.append(".tmp");
    name
}

/// The number that bytes stand for, the lowest first.
pub open spec fn little_endian(bytes: Seq<u8>) -> nat
    decreases bytes.len(),
{
    if bytes.len() == 0 {
        0
    } else {
        bytes[0] as nat + 256 * little_endian(bytes.skip(1))
    }
}

proof fn lemma_little_endian_bound(bytes: Seq<u8>)
    ensures
        little_endian(bytes) < vstd::arithmetic::power::pow(256, bytes.len()),
    decreases bytes.len(),
{
    reveal(vstd::arithmetic::power::pow);
    if bytes.len() > 0 {
        lemma_little_endian_bound(bytes.skip(1));
    }
}

fn nonce_of(bytes: &Vec<u8>) -> (nonce: u128)
    requires
        bytes@.len() == 16,
    ensures
        nonce == little_endian(bytes@),
{
    let mut nonce: u128 = 0;
    let mut i: usize = 16;
    while i > 0
        invariant
            i <= 16,
            bytes@.len() == 16,
            nonce == little_endian(bytes@.skip(i as int)),
        decreases i,
    {
        proof {
            let rest = bytes@.skip(i - 1);
            assert(rest.skip(1) == bytes@.skip(i as int));
            assert(rest[0] == bytes@[i - 1]);
            lemma_little_endian_bound(rest);
            vstd::arithmetic::power::lemma_pow_increases(256, rest.len(), 16);
            assert(vstd::arithmetic::power::pow(256, 16) == 0x1_0000_0000_0000_0000_0000_0000_0000_0000) by {
                reveal_with_fuel(vstd::arithmetic::power::pow, 17);
            }
        }
        i = i - 1;
        nonce = nonce * 256 + bytes[i] as u128;
    }
    assert(bytes@.skip(0) == bytes@);
    nonce
}

/// The name of a temporary receipt file for what the random source gave: its bytes are the nonce, the
/// lowest first; without them there is no name.
pub fn temporary_name_from(random: Result<Vec<u8>, getrandom::Error>) -> (name: Option<String>)
    requires
        random matches Ok(bytes) ==> bytes@.len() == 16,
    ensures
        match random {
            Ok(bytes) => name is Some && name->0@ == temporary_named(
                text::hex(little_endian(bytes@)),
            ),
            Err(_) => name is None,
        },
{
    match random {
        Ok(bytes) => Some(temporary_name_of(nonce_of(&bytes))),
        Err(_) => None,
    }
}

/// A fresh name for a temporary receipt file; without randomness there is none. What the random
/// source gives is not known beforehand; [`temporary_name_from`] tells what follows from it.
pub fn temporary_name() -> (name: Option<String>)
    ensures
        name matches Some(name) ==> exists|bytes: Seq<u8>|
            bytes.len() == 16 && name@ == #[trigger] temporary_named(
                text::hex(little_endian(bytes)),
            ),
{
    temporary_name_from(random_nonce())
}

proof fn lemma_hex_digit_char(d: nat)
    requires
        d < 16,
    ensures
        hex_digit(text::digit_char(d)),
{
}

proof fn lemma_hex_shape(value: nat, digits: nat)
    requires
        1 <= digits,
        vstd::arithmetic::power::pow(16, (digits - 1) as nat) <= value
            < vstd::arithmetic::power::pow(16, digits) || (digits == 1 && value < 16),
    ensures
        text::hex(value).len() == digits,
        forall|i: int| 0 <= i < text::hex(value).len() ==> hex_digit(#[trigger] text::hex(value)[i]),
    decreases value,
{
    vstd::arithmetic::power::lemma_pow1(16);
    vstd::arithmetic::power::lemma_pow0(16);
    lemma_hex_digit_char(value % 16);
    if value >= 16 {
        assert(digits >= 2);
        let high = (digits - 1) as nat;
        vstd::arithmetic::power::lemma_pow_adds(16, 1, high);
        vstd::arithmetic::power::lemma_pow_adds(16, 1, (high - 1) as nat);
        lemma_hex_shape(value / 16, high);
        let shorter = text::hex(value / 16);
        assert forall|i: int| 0 <= i < text::hex(value).len() implies hex_digit(
            #[trigger] text::hex(value)[i],
        ) by {
            if i < shorter.len() {
                assert(text::hex(value)[i] == shorter[i]);
            }
        }
    } else if digits >= 2 {
        vstd::arithmetic::power::lemma_pow_increases(16, 1, (digits - 1) as nat);
    }
}

/// Temporary files are recognized again, for every nonce whose highest hexadecimal digit is not
/// zero.
pub proof fn temporaries_are_recognized(nonce: u128)
    requires
        nonce >= 0x1000_0000_0000_0000_0000_0000_0000_0000u128,
    ensures
        receipt_temporary(temporary_named(text::hex(nonce as nat))),
{
    assert(vstd::arithmetic::power::pow(16, 31) == 0x1000_0000_0000_0000_0000_0000_0000_0000int
        && vstd::arithmetic::power::pow(16, 32) == 0x1_0000_0000_0000_0000_0000_0000_0000_0000int)
        by {
        vstd::arithmetic::power::lemma_pow0(16);
        reveal_with_fuel(vstd::arithmetic::power::pow, 33);
    }
    lemma_hex_shape(nonce as nat, 32);
    assert(full_nonce(text::hex(nonce as nat)));
}

/// How often and how patiently the confirmation is tried; the wait is in milliseconds.
#[derive(Clone, Copy, Debug, PartialEq, Eq, Structural)]
pub struct RebootReceiptRetryPolicy {
    pub max_attempts: u8,
    pub backoff: u64,
}

impl Default for RebootReceiptRetryPolicy {
    fn default() -> (policy: RebootReceiptRetryPolicy)
        ensures
            policy.max_attempts == REBOOT_RECEIPT_MAX_ATTEMPTS,
            policy.backoff == REBOOT_RECEIPT_RETRY_BACKOFF,
    {
        RebootReceiptRetryPolicy {
            max_attempts: REBOOT_RECEIPT_MAX_ATTEMPTS,
            backoff: REBOOT_RECEIPT_RETRY_BACKOFF,
        }
    }
}

/// Result of one transport-specific attempt to edit a reboot receipt message.
#[derive(Clone, Copy, Debug, PartialEq, Eq, Structural)]
pub enum ReceiptEditOutcome {
    Applied,
    AlreadyApplied,
    Temporary,
    Terminal,
}

/// How the confirmation of a restart ended.
#[derive(Clone, Copy, Debug, PartialEq, Eq, Structural)]
pub enum RebootReceiptCompletion {
    Absent,
    Discarded,
    Applied,
    AlreadyApplied,
    Terminal,
    TemporaryExhausted,
}

/// Why the confirmation of a restart could not be brought to an end.
#[derive(Debug, PartialEq, Eq)]
pub enum RebootReceiptCoordinatorError {
    Store(ReceiptStoreError),
    Clock(ClockError),
    Validation(ReceiptValidationError),
}

/// A single edit intent. Whoever edits should expect the edit of this message to this text to come
/// back as an update.
#[derive(Clone, PartialEq, Eq)]
pub struct RebootReceiptEditIntent {
    pub receipt: PendingRebootReceipt,
    pub text: String,
}

impl RebootReceiptEditIntent {
    /// The intent in words, without its text.
    pub fn describe(&self) -> (description: String)
        ensures
            description@ == "RebootReceiptEditIntent { receipt: "@ + described_receipt(
                self.receipt@,
            ) + ", text: \"[redacted]\" }"@,
    {
        let mut description = "RebootReceiptEditIntent { receipt: ".to_owned();
        description.append(self.receipt.describe().as_str());
        description.append(", text: \"[redacted]\" }");
        description
    }
}

/// The text that confirms a restart.
pub open spec fn completion_text(locale: Locale, elapsed_millis: u64) -> Seq<char> {
    text::replaced(
        reboot_template(locale, RebootText::Completed)@,
        "{elapsed}"@,
        text::decimal((elapsed_millis / 1000) as nat),
    )
}

/// [`completion_text`] as a string.
pub fn reboot_completion_text(locale: Locale, elapsed_millis: u64) -> (message: String)
    ensures
        message@ == completion_text(locale, elapsed_millis),
{
    reboot_text(locale, RebootText::Completed, Some(elapsed_millis / 1_000))
}

/// What to do once an edit was tried.
#[derive(Clone, Copy, Debug, PartialEq, Eq, Structural)]
pub enum AfterEdit {
    /// Stop; the receipt is removed or stays armed for the next start.
    Finish { completion: RebootReceiptCompletion, remove_receipt: bool },
    /// Wait that many milliseconds and try again.
    RetryAfter(u64),
}

/// What follows an edit, where `left` tries were left before it. A temporary failure keeps the
/// receipt armed; every other outcome consumes it.
pub open spec fn after_edit(left: nat, backoff: u64, outcome: ReceiptEditOutcome) -> AfterEdit {
    match outcome {
        ReceiptEditOutcome::Applied => AfterEdit::Finish {
            completion: RebootReceiptCompletion::Applied,
            remove_receipt: true,
        },
        ReceiptEditOutcome::AlreadyApplied => AfterEdit::Finish {
            completion: RebootReceiptCompletion::AlreadyApplied,
            remove_receipt: true,
        },
        ReceiptEditOutcome::Terminal => AfterEdit::Finish {
            completion: RebootReceiptCompletion::Terminal,
            remove_receipt: true,
        },
        ReceiptEditOutcome::Temporary => if left > 1 {
            AfterEdit::RetryAfter(backoff)
        } else {
            AfterEdit::Finish {
                completion: RebootReceiptCompletion::TemporaryExhausted,
                remove_receipt: false,
            }
        },
    }
}

/// The confirmation of one receipt with bounded tries.
pub struct ReceiptCoordinator {
    receipt: PendingRebootReceipt,
    locale: Locale,
    backoff: u64,
    left: u8,
}

/// The model of a [`ReceiptCoordinator`]: its receipt, language and wait, and the tries left.
pub struct CoordinatorView {
    pub receipt: PendingRebootReceipt,
    pub locale: Locale,
    pub backoff: u64,
    pub left: nat,
}

impl View for ReceiptCoordinator {
    type V = CoordinatorView;

    closed spec fn view(&self) -> CoordinatorView {
        CoordinatorView {
            receipt: self.receipt,
            locale: self.locale,
            backoff: self.backoff,
            left: self.left as nat,
        }
    }
}

/// How the confirmation of what was loaded begins, or how it ended already.
pub open spec fn beginning(
    loaded: LoadOutcome,
    policy: RebootReceiptRetryPolicy,
    locale: Locale,
) -> Result<CoordinatorView, RebootReceiptCompletion> {
    match loaded {
        LoadOutcome::Absent => Err(RebootReceiptCompletion::Absent),
        LoadOutcome::Discarded(_) => Err(RebootReceiptCompletion::Discarded),
        LoadOutcome::Pending(pending) => Ok(
            CoordinatorView {
                receipt: pending.receipt,
                locale,
                backoff: policy.backoff,
                left: if policy.max_attempts == 0 {
                    1
                } else {
                    policy.max_attempts as nat
                },
            },
        ),
    }
}

impl CoordinatorView {
    /// The confirmation after an edit: a try less where another one follows.
    pub open spec fn after_try(self, outcome: ReceiptEditOutcome) -> CoordinatorView {
        if after_edit(self.left, self.backoff, outcome) is RetryAfter {
            CoordinatorView { left: (self.left - 1) as nat, ..self }
        } else {
            self
        }
    }
}

impl ReceiptCoordinator {
    /// A coordinator has at least one try left.
    #[verifier::type_invariant]
    closed spec fn has_a_try(self) -> bool {
        self.left >= 1
    }

    /// Starts the confirmation of what was loaded, or tells how it ended already. At least one try
    /// is made, whatever the policy says.
    pub fn begin(loaded: LoadOutcome, policy: RebootReceiptRetryPolicy, locale: Locale) -> (result:
        Result<Self, RebootReceiptCompletion>)
        ensures
            match beginning(loaded, policy, locale) {
                Ok(begun) => result is Ok && result->Ok_0@ == begun,
                Err(completion) => result == Err::<Self, _>(completion),
            },
            match loaded {
                LoadOutcome::Absent => result == Err::<Self, _>(RebootReceiptCompletion::Absent),
                LoadOutcome::Discarded(_) => result == Err::<Self, _>(
                    RebootReceiptCompletion::Discarded,
                ),
                LoadOutcome::Pending(pending) => result is Ok && result->Ok_0@ == (
                CoordinatorView {
                    receipt: pending.receipt,
                    locale,
                    backoff: policy.backoff,
                    left: if policy.max_attempts == 0 {
                        1
                    } else {
                        policy.max_attempts as nat
                    },
                }),
            },
    {
        match loaded {
            LoadOutcome::Absent => Err(RebootReceiptCompletion::Absent),
            LoadOutcome::Discarded(_) => Err(RebootReceiptCompletion::Discarded),
            LoadOutcome::Pending(pending) => {
                let left: u8 = if policy.max_attempts == 0 {
                    1
                } else {
                    policy.max_attempts
                };
                Ok(
                    ReceiptCoordinator {
                        receipt: pending.receipt,
                        locale,
                        backoff: policy.backoff,
                        left,
                    },
                )
            },
        }
    }

    /// What to edit at the time `now_unix_ms`.
    pub fn intent(&self, now_unix_ms: u64) -> (result: Result<
        RebootReceiptEditIntent,
        ReceiptValidationError,
    >)
        ensures
            match self@.receipt@.elapsed(now_unix_ms) {
                Ok(elapsed) => {
                    &&& result is Ok
                    &&& result->Ok_0.receipt == self@.receipt
                    &&& result->Ok_0.text@ == completion_text(self@.locale, elapsed)
                },
                Err(error) => result == Err::<RebootReceiptEditIntent, _>(error),
            },
    {
        match self.receipt.elapsed_millis(now_unix_ms) {
            Ok(elapsed) => Ok(
                RebootReceiptEditIntent {
                    receipt: self.receipt,
                    text: reboot_completion_text(self.locale, elapsed),
                },
            ),
            Err(error) => Err(error),
        }
    }

    /// Takes the outcome of an edit.
    pub fn after_edit(&mut self, outcome: ReceiptEditOutcome) -> (next: AfterEdit)
        ensures
            next == after_edit(old(self)@.left, old(self)@.backoff, outcome),
            final(self)@ == old(self)@.after_try(outcome),
            next is RetryAfter ==> final(self)@ == (CoordinatorView {
                left: (old(self)@.left - 1) as nat,
                ..old(self)@
            }),
            next is Finish ==> final(self)@ == old(self)@,
    {
        proof {
            use_type_invariant(&*self);
        }
        match outcome {
            ReceiptEditOutcome::Applied => AfterEdit::Finish {
                completion: RebootReceiptCompletion::Applied,
                remove_receipt: true,
            },
            ReceiptEditOutcome::AlreadyApplied => AfterEdit::Finish {
                completion: RebootReceiptCompletion::AlreadyApplied,
                remove_receipt: true,
            },
            ReceiptEditOutcome::Terminal => AfterEdit::Finish {
                completion: RebootReceiptCompletion::Terminal,
                remove_receipt: true,
            },
            ReceiptEditOutcome::Temporary => {
                if self.left > 1 {
                    self.left = self.left - 1;
                    AfterEdit::RetryAfter(self.backoff)
                } else {
                    AfterEdit::Finish {
                        completion: RebootReceiptCompletion::TemporaryExhausted,
                        remove_receipt: false,
                    }
                }
            },
        }
    }
}

/// How a confirmation with `left` tries ends when the edits have these outcomes, and after how many
/// of them; nothing where they leave it open.
pub open spec fn confirmation(left: nat, outcomes: Seq<ReceiptEditOutcome>) -> Option<
    (RebootReceiptCompletion, bool, nat),
>
    decreases outcomes.len(),
{
    if outcomes.len() == 0 {
        None
    } else {
        match after_edit(left, 0, outcomes[0]) {
            AfterEdit::Finish { completion, remove_receipt } => Some(
                (completion, remove_receipt, 1),
            ),
            AfterEdit::RetryAfter(_) => match confirmation((left - 1) as nat, outcomes.skip(1)) {
                Some((completion, remove_receipt, edits)) => Some(
                    (completion, remove_receipt, edits + 1),
                ),
                None => None,
            },
        }
    }
}

/// A confirmation makes at most the allowed number of edits and comes to an end within them. The
/// receipt stays armed exactly where every allowed edit failed for the time being.
pub proof fn confirmations_are_bounded(left: nat, outcomes: Seq<ReceiptEditOutcome>)
    requires
        left >= 1,
        outcomes.len() >= left,
    ensures
        confirmation(left, outcomes) matches Some((completion, remove_receipt, edits)) && {
            &&& 1 <= edits <= left
            &&& remove_receipt <==> completion != RebootReceiptCompletion::TemporaryExhausted
            &&& !remove_receipt <==> forall|i: int|
                0 <= i < left ==> #[trigger] outcomes[i] == ReceiptEditOutcome::Temporary
        },
    decreases left,
{
    if outcomes[0] == ReceiptEditOutcome::Temporary && left > 1 {
        let rest = outcomes.skip(1);
        confirmations_are_bounded((left - 1) as nat, rest);
        assert forall|i: int| 0 <= i < left - 1 implies #[trigger] rest[i] == outcomes[i + 1] by {}
        if forall|i: int| 0 <= i < left - 1 ==> #[trigger] rest[i] == ReceiptEditOutcome::Temporary {
            assert forall|i: int| 0 <= i < left implies #[trigger] outcomes[i]
                == ReceiptEditOutcome::Temporary by {
                if i > 0 {
                    assert(rest[i - 1] == outcomes[i]);
                }
            }
        }
    }
}

} // verus!
