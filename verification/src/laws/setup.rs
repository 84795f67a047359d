//! What holds of the setup of the companion bot as a conversation.
use crate::i18n::{setup_text, Locale, SetupText};
use crate::peer::PeerId;
use crate::response;
use crate::runtime::setup;
use crate::runtime::RuntimeState;
use crate::runtime::setup::{
    BotFatherProgress, BotFatherStep, BotIdentities, BotIdentity, Confirmation, FlowStart, PhaseView, RepairData,
    RepairStep, RepairTarget, SetupCoordinator, SetupRequest, StepView, StoredSetup,
};
use crate::text;
use vstd::prelude::*;

verus! {

/// Ninety seconds after `now`, as far as the clock goes.
pub open spec fn in_ninety_seconds(now: u64) -> int {
    if now <= u64::MAX - 90_000 {
        now + 90_000
    } else {
        u64::MAX as int
    }
}

/// A stage that begins or goes on at `now` is not over before ninety seconds have passed, and is over from
/// then on; an idle setup is never over.
pub proof fn stages_last_ninety_seconds(now: u64, later: u64, phase: PhaseView)
    requires
        phase.deadline() == Some(setup::stage_deadline(now)) || phase is Idle,
    ensures
        setup::is_over(phase, later) <==> !(phase is Idle) && later >= in_ninety_seconds(now),
{
}

/// Whoever is told that a username was rejected may enter another one: the setup waits for it, ninety
/// seconds long, and an acceptable one leads to the plan for it, which is confirmed as the owner's own
/// choice. BotFather's rejection always leads there, but for a taken username that is tried again
/// automatically.
pub proof fn rejected_usernames_are_asked_for_again(
    automatic: bool,
    attempts: u8,
    deadline: u64,
    progress: BotFatherProgress,
    now: u64,
    username: Seq<char>,
    later: u64,
)
    ensures
        ({
            let running = PhaseView::Running { automatic, attempts, deadline };
            let (phase, step) = setup::after_botfather(running, progress, now);
            let rejected = progress == BotFatherProgress::UsernameInvalid || (progress
                == BotFatherProgress::UsernameOccupied && !(automatic && attempts < 10));
            let (next, plan) = setup::after_input(phase, None, false, Some(username), later);
            &&& rejected <==> step == BotFatherStep::Tell(SetupText::BotUsernameRejected)
            &&& rejected ==> phase is AwaitingUsername && phase.deadline() == Some(
                in_ninety_seconds(now) as u64,
            )
            &&& rejected ==> plan == StepView::Plan(username)
            &&& rejected ==> next == (PhaseView::AwaitingConfirmation {
                username,
                automatic: false,
                attempts: 1,
                deadline: in_ninety_seconds(later) as u64,
            })
        }),
{
}

/// A generated username that is taken is tried again, counted up, ten times in all; only generated ones
/// are.
pub proof fn taken_usernames_are_generated_anew(
    automatic: bool,
    attempts: u8,
    deadline: u64,
    progress: BotFatherProgress,
    now: u64,
)
    ensures
        ({
            let running = PhaseView::Running { automatic, attempts, deadline };
            let (phase, step) = setup::after_botfather(running, progress, now);
            &&& step is Retry <==> progress == BotFatherProgress::UsernameOccupied && automatic && attempts
                < 10
            &&& step matches BotFatherStep::Retry { attempts: next } ==> next == attempts + 1 && phase is Idle
        }),
{
}

/// While BotFather is not done the setup goes on as it was, with ninety seconds more. A bot that is ready is
/// provisioned. Every other end of the conversation ends the setup and tells its own reason.
pub proof fn conversations_end_with_a_reason(
    automatic: bool,
    attempts: u8,
    deadline: u64,
    progress: BotFatherProgress,
    now: u64,
)
    ensures
        ({
            let running = PhaseView::Running { automatic, attempts, deadline };
            let (phase, step) = setup::after_botfather(running, progress, now);
            &&& progress == BotFatherProgress::Pending <==> step is Nothing
            &&& step is Nothing ==> phase == (PhaseView::Running {
                automatic,
                attempts,
                deadline: in_ninety_seconds(now) as u64,
            })
            &&& progress == BotFatherProgress::ProvisionReady <==> step is Provision
            &&& step is Provision ==> phase is Idle
            &&& step matches BotFatherStep::Tell(reason) ==> (phase is Idle <==> reason
                != SetupText::BotUsernameRejected)
            &&& progress == BotFatherProgress::CheckUnavailable <==> step == BotFatherStep::Tell(
                SetupText::BotCheckUnavailable,
            )
            &&& progress == BotFatherProgress::LimitReached <==> step == BotFatherStep::Tell(
                SetupText::BotLimitReached,
            )
            &&& progress == BotFatherProgress::FloodWait <==> step == BotFatherStep::Tell(
                SetupText::BotRetryLater,
            )
            &&& progress == BotFatherProgress::Unexpected <==> step == BotFatherStep::Tell(
                SetupText::BotUnexpected,
            )
            &&& progress == BotFatherProgress::Storage <==> step == BotFatherStep::Tell(
                SetupText::BotStorageFailed,
            )
            &&& progress == BotFatherProgress::Timeout <==> step == BotFatherStep::Tell(
                SetupText::BotTimedOut,
            )
            &&& progress == BotFatherProgress::Failed <==> step == BotFatherStep::Tell(
                SetupText::BotVerificationFailed,
            )
        }),
{
}

/// A setup that is begun asks for a username, plans for the one that is given, begins with BotFather once the
/// plan is confirmed, and runs for that username: nothing is begun without the owner's word, and what is
/// begun is what was planned.
pub proof fn setups_follow_the_owner(
    username: Seq<char>,
    generated: bool,
    botfather: PeerId,
    times: (u64, u64, u64),
)
    ensures
        ({
            let (asking, prompt) = setup::commanded(
                PhaseView::Idle,
                SetupRequest::Start,
                false,
                None,
                times.0,
            );
            let (planned, plan) = setup::after_input(asking, None, generated, Some(username), times.1);
            let (waiting, begin) = setup::after_input(
                planned,
                Some(Confirmation::Confirmed),
                false,
                None,
                times.2,
            );
            &&& prompt == StepView::Say(SetupText::UsernamePrompt)
            &&& plan == StepView::Plan(username)
            &&& begin == (StepView::StartFlow { username, automatic: generated, attempts: 1 })
            &&& waiting == planned
            &&& setup::after_start(waiting, generated, 1, FlowStart::Started(botfather), times.2) == (
                PhaseView::Running {
                    automatic: generated,
                    attempts: 1,
                    deadline: in_ninety_seconds(times.2) as u64,
                },
                SetupText::Started,
            )
            &&& asking.deadline() == Some(in_ninety_seconds(times.0) as u64)
            &&& planned.deadline() == Some(in_ninety_seconds(times.1) as u64)
        }),
{
}

/// A username that comes with the command, given or generated, is planned right away; without an acceptable
/// one nothing begins, and the owner is told why.
pub proof fn usernames_are_planned_right_away(
    request: SetupRequest,
    username: Option<Seq<char>>,
    now: u64,
)
    requires
        request is Auto || request is Username,
    ensures
        ({
            let (phase, step) = setup::commanded(PhaseView::Idle, request, false, username, now);
            match username {
                Some(username) => step == StepView::Plan(username) && phase == (
                PhaseView::AwaitingConfirmation {
                    username,
                    automatic: request is Auto,
                    attempts: 1,
                    deadline: in_ninety_seconds(now) as u64,
                }),
                None => phase is Idle && step == StepView::Say(
                    if request is Auto {
                        SetupText::UsernameGenerationFailed
                    } else {
                        SetupText::UsernameInvalid
                    },
                ),
            }
        }),
{
}

/// One setup at a time, and one bot: while a setup is under way, or once a bot exists, none begins.
pub proof fn setups_do_not_begin_twice(
    phase: PhaseView,
    request: SetupRequest,
    has_created_bot: bool,
    username: Option<Seq<char>>,
    now: u64,
)
    requires
        request is Start || request is Auto || request is Username,
        !(phase is Idle) || has_created_bot,
    ensures
        setup::commanded(phase, request, has_created_bot, username, now) == (
            phase,
            StepView::Say(
                if phase is Idle {
                    SetupText::ExistingBot
                } else {
                    SetupText::AlreadyActive
                },
            ),
        ),
{
}

/// Every stage can be cancelled, by command and by word, and nothing is left of it. A command that neither
/// begins nor cancels changes nothing.
pub proof fn setups_can_be_cancelled(
    phase: PhaseView,
    has_created_bot: bool,
    username: Option<Seq<char>>,
    generated: bool,
    now: u64,
)
    ensures
        setup::commanded(phase, SetupRequest::Cancel, has_created_bot, username, now) == (
            PhaseView::Idle,
            StepView::Say(
                if phase is Idle {
                    SetupText::NoActiveSetup
                } else {
                    SetupText::Cancelled
                },
            ),
        ),
        setup::after_input(phase, Some(Confirmation::Cancelled), generated, username, now) == (
            PhaseView::Idle,
            StepView::Say(SetupText::Cancelled),
        ),
        setup::commanded(phase, SetupRequest::Status, has_created_bot, username, now) == (
            phase,
            StepView::TellStatus,
        ),
        setup::commanded(phase, SetupRequest::Repair, has_created_bot, username, now) == (
            phase,
            StepView::Repair,
        ),
        setup::commanded(phase, SetupRequest::Invalid, has_created_bot, username, now) == (
            phase,
            StepView::Say(SetupText::Usage),
        ),
{
}

/// What the owner writes at the wrong time changes nothing: an unacceptable username, anything but an answer
/// to a plan, and anything while BotFather is awaited. Only a confirmed plan is begun.
pub proof fn other_words_change_nothing(
    phase: PhaseView,
    confirmation: Option<Confirmation>,
    generated: bool,
    username: Option<Seq<char>>,
    now: u64,
)
    requires
        confirmation != Some(Confirmation::Cancelled),
    ensures
        ({
            let (next, step) = setup::after_input(phase, confirmation, generated, username, now);
            &&& phase is AwaitingUsername && username is None ==> next == phase && step == StepView::Say(
                SetupText::UsernameInvalid,
            )
            &&& phase is AwaitingConfirmation ==> next == phase && (step is StartFlow <==> confirmation
                == Some(Confirmation::Confirmed)) && (!(step is StartFlow) ==> step == StepView::Say(
                SetupText::ConfirmOrCancel,
            ))
            &&& phase is Running || phase is Idle ==> next == phase && step == StepView::Say(
                SetupText::WaitingBotFather,
            )
            &&& step is StartFlow ==> phase is AwaitingConfirmation
        }),
{
}

/// Where BotFather cannot be reached, the plan stays to be confirmed again.
pub proof fn failed_starts_keep_the_plan(
    phase: PhaseView,
    automatic: bool,
    attempts: u8,
    now: u64,
)
    ensures
        setup::after_start(phase, automatic, attempts, FlowStart::Unavailable, now) == (
            phase,
            SetupText::BotFatherUnavailable,
        ),
        setup::after_start(phase, automatic, attempts, FlowStart::Failed, now) == (
            phase,
            SetupText::BotFatherStartFailed,
        ),
{
}

/// The setup keeps every message of the dialog with BotFather to itself, and of Saved Messages those of the
/// owner while it is under way; nothing else.
pub proof fn setups_keep_their_messages(
    coordinator: SetupCoordinator,
    peer: PeerId,
    authored_by_self: bool,
)
    ensures
        coordinator.botfather_peer == Some(peer) ==> coordinator.protects(peer, authored_by_self),
        coordinator.botfather_peer != Some(peer) && peer != coordinator.saved_messages_peer
            ==> !coordinator.protects(peer, authored_by_self),
        coordinator.botfather_peer != Some(peer) && coordinator.phase is Idle ==> !coordinator.protects(
            peer,
            authored_by_self,
        ),
        coordinator.botfather_peer != Some(peer) && !authored_by_self ==> !coordinator.protects(
            peer,
            authored_by_self,
        ),
        peer == coordinator.saved_messages_peer && authored_by_self && !(coordinator.phase is Idle)
            ==> coordinator.protects(peer, authored_by_self),
{
}

/// What BotFather newly says is looked at, and what else is said there is swallowed; what the owner writes in
/// Saved Messages while a setup is under way is taken as an answer. Everything else is left to others.
pub proof fn messages_find_their_way(
    state: RuntimeState,
    coordinator: SetupCoordinator,
    peer: PeerId,
    authored_by_self: bool,
    outgoing: bool,
    edited: bool,
)
    requires
        state.setup == Some(coordinator),
    ensures
        ({
            let route = state.route(peer, authored_by_self, outgoing, edited);
            let from_botfather = coordinator.botfather_peer == Some(peer);
            let own = authored_by_self && peer == coordinator.saved_messages_peer && !(coordinator.phase is Idle);
            &&& route is BotFatherReply <==> from_botfather && !authored_by_self && !outgoing && !edited
            &&& route is Swallowed <==> from_botfather && (authored_by_self || outgoing || edited)
            &&& route is OwnerInput <==> !from_botfather && own
            &&& route is Ignored <==> !from_botfather && !own
        }),
{
}

/// A repair that does not go on says why: the token could not be verified, or it is another bot's.
pub proof fn refused_repairs_say_why(target: RepairTarget, identity: Option<BotIdentity>)
    ensures
        ({
            let step = setup::checked_identity(target, identity);
            &&& identity is None <==> step == RepairStep::Refuse(SetupText::RepairTokenUnsafe)
            &&& identity matches Some(bot) ==> {
                let same = text::lowered(bot.username@) == text::lowered(target.username@) && (
                target.bot_user_id matches Some(id) ==> id == bot.id);
                &&& !same <==> step == RepairStep::Refuse(SetupText::RepairTokenMismatch)
                &&& same && target.bot_user_id is Some <==> step is Proceed
                &&& same && target.bot_user_id is None <==> step is StoreIdentity
            }
        }),
{
}

/// Whether a stored status is one that is told.
pub open spec fn known_status(status: Seq<char>) -> bool {
    ||| status == "idle"@
    ||| status == "bot_validated"@
    ||| status == "complete"@
    ||| status == "completed_without_folder_capacity"@
    ||| status == "completed_without_folder_name_conflict"@
    ||| status == "companion_and_community_configured"@
    ||| status == "companion_configured_community_pending"@
}

/// Known statuses are told apart, and an unknown one never gets into the answer.
pub proof fn statuses_are_told_apart(
    one: Seq<char>,
    other: Seq<char>,
    locale: Locale,
    bot: Option<Seq<char>>,
)
    ensures
        known_status(one) && setup::status_key(one) == setup::status_key(other) ==> one == other,
        !known_status(one) && !known_status(other) ==> setup::status_view(locale, one, bot)
            == setup::status_view(locale, other, bot),
        setup::status_key("idle"@) == SetupText::StatusIdleValue,
        setup::status_key("bot_validated"@) == SetupText::StatusBotValidated,
        setup::status_key("complete"@) == SetupText::StatusComplete,
        setup::status_key("completed_without_folder_capacity"@)
            == SetupText::StatusCompletedWithoutFolderCapacity,
        setup::status_key("completed_without_folder_name_conflict"@)
            == SetupText::StatusCompletedWithoutFolderNameConflict,
        setup::status_key("companion_and_community_configured"@)
            == SetupText::StatusCompanionAndCommunityConfigured,
        setup::status_key("companion_configured_community_pending"@)
            == SetupText::StatusCompanionConfiguredCommunityPending,
        !known_status(one) ==> setup::status_key(one) == SetupText::StatusUnknown,
        known_status(one) ==> setup::status_key(one) != SetupText::StatusUnknown,
{
    reveal_strlit("idle");
    reveal_strlit("bot_validated");
    reveal_strlit("complete");
    reveal_strlit("completed_without_folder_capacity");
    reveal_strlit("completed_without_folder_name_conflict");
    reveal_strlit("companion_and_community_configured");
    reveal_strlit("companion_configured_community_pending");
    assert("idle"@.len() == 4 && "bot_validated"@.len() == 13 && "complete"@.len() == 8);
    assert("completed_without_folder_capacity"@.len() == 33);
    assert("companion_and_community_configured"@.len() == 34);
    assert("completed_without_folder_name_conflict"@.len() == 38);
    assert("companion_configured_community_pending"@.len() == 38);
    assert("completed_without_folder_name_conflict"@[4] == 'l');
    assert("companion_configured_community_pending"@[4] == 'a');
}

/// A generated username is asked for by a dash or by `auto`, in whatever case and with white space around it.
pub proof fn generated_usernames_are_asked_for(input: Seq<char>)
    ensures
        setup::wants_generated(input) <==> text::lowered(text::trimmed(input)) == seq!['-']
            || text::lowered(text::trimmed(input)) == seq!['a', 'u', 't', 'o'],
{
    reveal_strlit("-");
    reveal_strlit("auto");
    assert("-"@ == seq!['-']);
    assert("auto"@ == seq!['a', 'u', 't', 'o']);
}

/// A bot exists once both its name and its number are stored.
pub proof fn bots_exist_by_name_and_number(status: String, identities: BotIdentities)
    ensures
        setup::bot_exists(StoredSetup::Loaded { status, identities }) <==> identities@.bot_username is Some
            && identities@.bot_user_id is Some,
        !setup::bot_exists(StoredSetup::Missing),
        !setup::bot_exists(StoredSetup::Unreadable),
{
}

/// A repair is about the stored bot, by its acceptable name and its number as far as it is stored; without such a
/// name, and where nothing could be read, it does not begin and says why.
pub proof fn repairs_are_about_the_stored_bot(identities: BotIdentities, valid: bool)
    ensures
        ({
            let target = setup::targeted(
                RepairData::Loaded { identities, username_valid: valid },
            );
            &&& target is Ok <==> valid && identities.bot_username is Some
            &&& target matches Ok(bot) ==> Some(bot.username) == identities.bot_username
                && bot.bot_user_id == identities.bot_user_id
            &&& target matches Err(reason) ==> reason == SetupText::RepairIdentityUnsafe
        }),
        setup::targeted(RepairData::CheckUnavailable) == Err::<RepairTarget, _>(
            SetupText::RepairCheckUnavailable,
        ),
        setup::targeted(RepairData::Missing) == Err::<RepairTarget, _>(SetupText::RepairNoData),
        setup::targeted(RepairData::Unreadable) == Err::<RepairTarget, _>(SetupText::RepairDataUnsafe),
{
}

/// A repair goes on under the stored name where the token is the stored bot's and what had to be stored was; any
/// other ends with its reason.
pub proof fn repairs_go_on_under_the_stored_name(
    target: RepairTarget,
    identity: Option<BotIdentity>,
    stored: bool,
)
    ensures
        ({
            let step = setup::checked_identity(target, identity);
            let result = setup::concluded(target, step, stored);
            &&& result matches Ok(username) ==> username == target.username
            &&& result is Ok <==> step is Proceed || (step is StoreIdentity && stored)
            &&& step matches RepairStep::Refuse(reason) ==> result == Err::<String, _>(reason)
            &&& step is StoreIdentity && !stored ==> result == Err::<String, _>(
                SetupText::RepairIdentitySaveFailed,
            )
        }),
{
}

/// The plan names the bot by the username that is planned and by its display name.
pub proof fn plans_name_the_bot(locale: Locale, username: Seq<char>)
    ensures
        setup::plan_text(locale, username) == text::replaced(
            text::replaced(setup_text(locale, SetupText::Plan)@, "{username}"@, username),
            "{display_name}"@,
            "Lavis — really your userbot"@,
        ),
{
}

/// The status tells the label of what is stored and the stored bot, or that there is none.
pub proof fn statuses_name_the_bot(locale: Locale, status: Seq<char>, bot: Seq<char>)
    ensures
        ({
            let told = |shown: Seq<char>|
                response::plain_view(
                    locale,
                    text::replaced(
                        text::replaced(
                            setup_text(locale, SetupText::Status)@,
                            "{status}"@,
                            setup_text(locale, setup::status_key(status))@,
                        ),
                        "{bot}"@,
                        shown,
                    ),
                );
            &&& setup::status_view(locale, status, Some(bot)) == told(bot)
            &&& setup::status_view(locale, status, None) == told(
                setup_text(locale, SetupText::NotConfigured)@,
            )
        }),
{
}

/// A taken username is followed by a start with the next generated one, as the attempt that was announced; where
/// none could be generated, this is said.
pub proof fn generated_usernames_are_tried(username: Seq<char>, attempts: u8)
    ensures
        setup::retried(Some(username), attempts) == (StepView::StartFlow {
            username,
            automatic: true,
            attempts,
        }),
        setup::retried(None, attempts) == StepView::Say(SetupText::UsernameGenerationFailed),
{
}

/// The owner is told the stored status and bot; where nothing is stored, or it cannot be read, this is told.
pub proof fn stored_setups_are_told(locale: Locale, status: String, identities: BotIdentities)
    ensures
        setup::stored_view(locale, StoredSetup::Loaded { status, identities }) == setup::status_view(
            locale,
            status@,
            identities@.bot_username,
        ),
        setup::stored_view(locale, StoredSetup::Missing).text == response::truncated(
            Locale::English,
            setup_text(locale, SetupText::StatusIdle)@,
        ),
        setup::stored_view(locale, StoredSetup::Unreadable).text == response::truncated(
            Locale::English,
            setup_text(locale, SetupText::StatusUnavailable)@,
        ),
{
}

/// An acceptable username is planned at once, and stays marked as generated where it was, or where generated ones
/// were asked for before.
pub proof fn given_usernames_are_planned(
    automatic: bool,
    deadline: u64,
    confirmation: Option<Confirmation>,
    generated: bool,
    username: Seq<char>,
    now: u64,
)
    requires
        confirmation != Some(Confirmation::Cancelled),
    ensures
        ({
            let (phase, step) = setup::after_input(
                PhaseView::AwaitingUsername { automatic, deadline },
                confirmation,
                generated,
                Some(username),
                now,
            );
            &&& step == StepView::Plan(username)
            &&& phase matches PhaseView::AwaitingConfirmation {
                username: planned,
                automatic: marked,
                attempts,
                deadline: ends,
            } && planned == username && (marked <==> automatic || generated) && attempts == 1 && ends
                == in_ninety_seconds(now)
        }),
{
}

/// A confirmed plan is begun for the very username that was planned, as it was marked and counted.
pub proof fn confirmed_plans_are_begun(
    username: Seq<char>,
    automatic: bool,
    attempts: u8,
    deadline: u64,
    generated: bool,
    other: Option<Seq<char>>,
    now: u64,
)
    ensures
        ({
            let plan = PhaseView::AwaitingConfirmation { username, automatic, attempts, deadline };
            setup::after_input(plan, Some(Confirmation::Confirmed), generated, other, now) == (
                plan,
                StepView::StartFlow { username, automatic, attempts },
            )
        }),
{
}

} // verus!
