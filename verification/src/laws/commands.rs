//! What holds of commands: what each of them leads to, and what it takes.
use crate::i18n::{lm_text, sensitive_text, setup_text, LmText, SensitiveText, SetupText};
use crate::response;
use crate::runtime::alias;
use crate::runtime::alias::{AliasChange, AliasRequest};
use crate::runtime::lm::LmRequest;
use crate::runtime::setup::SetupRequest;
use crate::runtime::{
    Action, LanguageRequest, MessageContext, PrefixRequest, RuntimeState, StartRequest, TaskView,
};
use crate::text;
use vstd::prelude::*;

verus! {

/// Whether a message is a new one of the owner.
pub open spec fn new_from_owner(context: MessageContext) -> bool {
    !context.edited && context.authored_by_self && context.message_id >= 1
}

/// Modules are installed, approved, cancelled and switched only by a new message of the owner in the Saved
/// Messages from which they are managed; every other request about modules is carried out wherever it comes
/// from. A refusal is told without its reason.
pub proof fn modules_are_changed_from_saved_messages(
    state: RuntimeState,
    request: LmRequest,
    context: MessageContext,
)
    ensures
        ({
            let changes = request is Install || request is Confirm || request is Cancel
                || request is Enable || request is Disable;
            let granted = new_from_owner(context) && state.module_control == Some(context.peer_id);
            let locale = state.settings.language();
            let task = state.task_for(Action::Lm(request), context);
            &&& state.lm_denial(request, context) is Some <==> changes && !granted
            &&& changes && !granted ==> task == TaskView::Answered(
                response::plain_view(
                    locale,
                    sensitive_text(locale, SensitiveText::ModuleMutationDenied)@,
                ),
            )
            &&& (changes && granted) || !(changes || request is Invalid) ==> task is ManageModules
            &&& request is Invalid ==> task == TaskView::Answered(
                response::plain_view(
                    locale,
                    text::replaced(
                        lm_text(locale, LmText::Usage)@,
                        "{prefix}"@,
                        state.settings.prefix@,
                    ),
                ),
            )
        }),
{
}

/// A restart follows a new message of the owner and nothing else, and no other command leads to one.
pub proof fn restarts_follow_the_owners_word(
    state: RuntimeState,
    action: Action,
    context: MessageContext,
)
    ensures
        state.task_for(action, context) is Restart <==> action is Reboot && new_from_owner(context),
        action is Reboot && !new_from_owner(context) ==> state.task_for(action, context)
            == TaskView::Answered(
            response::plain_view(
                state.settings.language(),
                sensitive_text(state.settings.language(), SensitiveText::RebootDenied)@,
            ),
        ),
{
}

/// The setup is handed its commands from Saved Messages alone; elsewhere, and where there is no setup, the owner
/// is told so.
pub proof fn the_setup_listens_in_saved_messages(
    state: RuntimeState,
    request: SetupRequest,
    context: MessageContext,
)
    ensures
        ({
            let task = state.task_for(Action::Setup(request), context);
            let locale = state.settings.language();
            match state.setup {
                Some(setup) if setup.saved_messages_peer == context.peer_id => task is Setup,
                Some(_) => task == TaskView::Answered(
                    response::plain_view(locale, setup_text(locale, SetupText::SavedMessagesOnly)@),
                ),
                None => task == TaskView::Answered(
                    response::plain_view(locale, setup_text(locale, SetupText::Unavailable)@),
                ),
            }
        }),
{
}

/// A request that would change what is stored is stored before it is answered; any other about the same thing is
/// answered at once, from the state as it is.
pub proof fn changes_are_stored_before_they_are_told(
    state: RuntimeState,
    language: LanguageRequest,
    prefix: PrefixRequest,
    alias: AliasRequest,
    start: StartRequest,
    context: MessageContext,
)
    ensures
        language is Change <==> state.task_for(Action::Language(language), context) is StoreLocale,
        !(language is Change) ==> state.task_for(Action::Language(language), context) == TaskView::Answered(
            state.settings@.after_language(language, false).1,
        ),
        prefix is Change || prefix is Reset <==> state.task_for(Action::Prefix(prefix), context)
            is StorePrefix,
        !(prefix is Change || prefix is Reset) ==> state.task_for(Action::Prefix(prefix), context)
            == TaskView::Answered(state.settings@.after_prefix(prefix, false).1),
        alias is Add || alias is Delete <==> state.task_for(Action::Alias(alias), context) is StoreAlias,
        !(alias is Add || alias is Delete) ==> state.task_for(Action::Alias(alias), context)
            == TaskView::Answered(
            alias::alias_view(
                state.settings.language(),
                state.settings.prefix@,
                state.aliases,
                alias,
                AliasChange::Made,
            ),
        ),
        state.task_for(Action::Start(start), context) is StoreStart,
{
}

/// What takes a measurement, a process or a module leads to it.
pub proof fn work_is_done_before_it_is_told(
    state: RuntimeState,
    action: Action,
    context: MessageContext,
)
    ensures
        ({
            let task = state.task_for(action, context);
            &&& action is Ping <==> task is MeasureLatency
            &&& action is Stats <==> task is MeasureStats
            &&& action is Info <==> task is GatherFacts
            &&& action is Help <==> task is RenderHelp
            &&& action is Fastfetch <==> task is RunFastfetch
            &&& action is Modules <==> task is RenderModules
            &&& action is External <==> task is RunExternal
        }),
{
}

} // verus!
