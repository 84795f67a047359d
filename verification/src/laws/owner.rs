//! What holds of the owner's commands: who may give them, and what the tutorial shows.
use crate::i18n::Text;
use crate::onboarding::{delivered, OnboardingProgress};
use crate::peer::PeerId;
use crate::runtime::policy;
use crate::runtime::policy::{SensitiveCommandDenial, SensitiveCommandPolicy};
use vstd::prelude::*;

verus! {

/// A restart takes a new message of the owner, wherever it stands.
pub proof fn restarts_take_a_new_message_of_the_owner(
    edited: bool,
    authored_by_self: bool,
    peer_id: PeerId,
    message_id: i32,
    saved_messages_peer: Option<PeerId>,
)
    ensures
        policy::authorization(
            SensitiveCommandPolicy::Reboot,
            edited,
            authored_by_self,
            peer_id,
            message_id,
            saved_messages_peer,
        ) is Ok <==> !edited && authored_by_self && message_id >= 1,
{
}

/// A refusal names something that is wrong: each reason is given only where it holds.
pub proof fn refusals_name_what_is_wrong(
    command: SensitiveCommandPolicy,
    edited: bool,
    authored_by_self: bool,
    peer_id: PeerId,
    message_id: i32,
    saved_messages_peer: Option<PeerId>,
)
    ensures
        policy::authorization(
            command,
            edited,
            authored_by_self,
            peer_id,
            message_id,
            saved_messages_peer,
        ) matches Err(denial) ==> match denial {
            SensitiveCommandDenial::Edited => edited,
            SensitiveCommandDenial::NotSelfAuthored => !authored_by_self && !edited,
            SensitiveCommandDenial::InvalidMessageId => message_id < 1 && authored_by_self && !edited,
            SensitiveCommandDenial::NotSavedMessages => command is ModuleMutation
                && saved_messages_peer != Some(peer_id) && message_id >= 1 && authored_by_self && !edited,
        },
{
}

/// The messages of the tutorial, in their order.
pub open spec fn tutorial() -> Seq<Text> {
    seq![
        Text::OnboardingIntro,
        Text::OnboardingPrefix,
        Text::OnboardingPing,
        Text::OnboardingHelp,
        Text::OnboardingModules,
        Text::OnboardingExternal,
        Text::OnboardingCompanion,
        Text::OnboardingDone,
    ]
}

/// The tutorial shows its eight pages one after another, each once the one before was delivered, and is
/// complete after the last. A tutorial that is complete, skipped or not begun moves no further by itself.
pub proof fn the_tutorial_shows_its_pages_in_order(page: nat, progress: OnboardingProgress)
    requires
        page <= 8,
    ensures
        page < 8 ==> delivered(OnboardingProgress::Intro, page).message_key() == tutorial()[page as int],
        page == 8 ==> delivered(OnboardingProgress::Intro, page) == OnboardingProgress::Complete,
        progress is Complete || progress is Skipped || progress is NotStarted ==> progress.following()
            == progress && progress.starting_page() == OnboardingProgress::Intro,
        !(progress is Complete || progress is Skipped || progress is NotStarted)
            ==> progress.starting_page() == progress,
        OnboardingProgress::restart() == OnboardingProgress::Intro,
        OnboardingProgress::skip() == OnboardingProgress::Skipped,
{
    reveal_with_fuel(delivered, 10);
}

/// A tutorial that is over or not begun has a message of its own.
pub proof fn tutorials_at_rest_have_their_message()
    ensures
        OnboardingProgress::NotStarted.message_key() == Text::OnboardingSelect,
        OnboardingProgress::Skipped.message_key() == Text::OnboardingSkipped,
        OnboardingProgress::Complete.message_key() == Text::OnboardingDone,
{
}

} // verus!
