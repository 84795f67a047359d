//! What holds of the settings: what was stored is in force, and nothing else changes.
use crate::i18n::{
    ping_template, prefix_text, runtime_text, text, Locale, PingText, PrefixText, RuntimeText, Text,
};
use crate::onboarding::OnboardingProgress;
use crate::response;
use crate::runtime;
use crate::runtime::dispatch::{EventMessage, EventNames};
use crate::runtime::{
    LanguageRequest, PrefixRequest, RuntimeState, SettingsView, StartRequest, StartView,
};
use crate::text as chars;
use vstd::prelude::*;

verus! {

/// A prefix that was stored is in force and told, and so is the comma after a reset. One that could not be
/// stored, a question and a misunderstanding change nothing; and no request changes anything but the prefix.
pub proof fn stored_prefixes_are_in_force(before: SettingsView, prefix: String, saved: bool)
    ensures
        ({
            let (after, told) = before.after_prefix(PrefixRequest::Change(prefix), saved);
            &&& after == (SettingsView {
                prefix: if saved {
                    prefix@
                } else {
                    before.prefix
                },
                ..before
            })
            &&& told == response::plain_view(
                before.language(),
                if saved {
                    chars::replaced(
                        prefix_text(before.language(), PrefixText::Changed)@,
                        "{prefix}"@,
                        prefix@,
                    )
                } else {
                    prefix_text(before.language(), PrefixText::ChangeFailed)@
                },
            )
        }),
        ({
            let (after, told) = before.after_prefix(PrefixRequest::Reset, saved);
            &&& after == (SettingsView {
                prefix: if saved {
                    seq![',']
                } else {
                    before.prefix
                },
                ..before
            })
            &&& told == response::plain_view(
                before.language(),
                if saved {
                    chars::replaced(
                        prefix_text(before.language(), PrefixText::Reset)@,
                        "{prefix}"@,
                        seq![','],
                    )
                } else {
                    prefix_text(before.language(), PrefixText::ResetFailed)@
                },
            )
        }),
        before.after_prefix(PrefixRequest::Show, saved) == (
            before,
            response::plain_view(
                before.language(),
                chars::replaced(
                    prefix_text(before.language(), PrefixText::Current)@,
                    "{prefix}"@,
                    before.prefix,
                ),
            ),
        ),
        before.after_prefix(PrefixRequest::Invalid, saved).0 == before,
{
    reveal_strlit(",");
    assert(","@ == seq![',']);
}

/// A language that was stored is in force, and the answer is in it. One that could not be stored, a question
/// and a misunderstanding change nothing; and no request changes anything but the language.
pub proof fn stored_languages_are_in_force(before: SettingsView, locale: Locale, saved: bool)
    ensures
        ({
            let (after, told) = before.after_language(LanguageRequest::Change(locale), saved);
            &&& after == (SettingsView {
                locale: if saved {
                    Some(locale)
                } else {
                    before.locale
                },
                ..before
            })
            &&& saved ==> after.language() == locale && told == response::plain_view(
                locale,
                "🌐 "@ + text(locale, Text::LanguageChanged)@ + ": "@ + (match locale {
                    Locale::English => "en"@,
                    Locale::Russian => "ru"@,
                }),
            )
            &&& !saved ==> told == response::plain_view(
                before.language(),
                text(locale, Text::LanguageSaveFailed)@,
            )
        }),
        before.after_language(LanguageRequest::Show, saved).0 == before,
        before.after_language(LanguageRequest::Invalid, saved).0 == before,
        before.locale == Some(locale) ==> before.after_language(LanguageRequest::Show, saved).1
            == response::plain_view(
            locale,
            "🌐 "@ + text(locale, Text::LanguageCurrent)@ + ": "@ + (match locale {
                Locale::English => "en"@,
                Locale::Russian => "ru"@,
            }),
        ),
        before.locale is None ==> before.language() == Locale::Russian,
        before.locale matches Some(chosen) ==> before.language() == chosen,
{
}

/// Until a language is chosen the tutorial asks for one, and a chosen one begins the tutorial at its first
/// page, in that language.
pub proof fn the_tutorial_begins_with_a_language(
    before: SettingsView,
    request: StartRequest,
    locale: Locale,
    saved: bool,
)
    ensures
        before.locale is None && (request is Begin || request is Skip || request is Bot)
            ==> before.after_start(request, saved, saved) == (
            before,
            StartView::Answer(before.in_both_languages(Text::OnboardingSelect)),
        ),
        before.after_start(StartRequest::Locale(locale), true, true) == (
            SettingsView {
                locale: Some(locale),
                onboarding: OnboardingProgress::Intro,
                ..before
            },
            StartView::Page(
                response::plain_view(
                    locale,
                    runtime::page_text(locale, OnboardingProgress::Intro, before.prefix),
                ),
            ),
        ),
        before.after_start(StartRequest::Locale(locale), false, saved) == (
            before,
            StartView::Answer(
                response::plain_view(
                    before.language(),
                    text(locale, Text::LanguageSaveFailed)@,
                ),
            ),
        ),
        before.after_start(StartRequest::Locale(locale), true, false) == (
            SettingsView { locale: Some(locale), ..before },
            StartView::Answer(
                response::plain_view(locale, text(locale, Text::OnboardingSaveFailed)@),
            ),
        ),
{
}

/// The tutorial goes on where it was left: an unfinished page is shown again, and one that is over or not begun
/// starts anew. What was not stored is not shown. Skipping ends it, and the bot's setup leaves it alone.
pub proof fn the_tutorial_goes_on_where_it_was_left(before: SettingsView, locale: Locale, any: bool)
    requires
        before.locale == Some(locale),
    ensures
        ({
            let over = before.onboarding is NotStarted || before.onboarding is Complete
                || before.onboarding is Skipped;
            let page = if over {
                OnboardingProgress::Intro
            } else {
                before.onboarding
            };
            before.after_start(StartRequest::Begin, any, true) == (
                SettingsView { onboarding: page, ..before },
                StartView::Page(
                    response::plain_view(locale, runtime::page_text(locale, page, before.prefix)),
                ),
            )
        }),
        before.after_start(StartRequest::Begin, any, false) == (
            before,
            StartView::Answer(
                response::plain_view(locale, text(locale, Text::OnboardingSaveFailed)@),
            ),
        ),
        before.after_start(StartRequest::Skip, any, true) == (
            SettingsView { onboarding: OnboardingProgress::Skipped, ..before },
            StartView::Answer(
                response::plain_view(
                    locale,
                    chars::replaced(
                        text(locale, Text::OnboardingSkipped)@,
                        "{prefix}"@,
                        before.prefix,
                    ),
                ),
            ),
        ),
        before.after_start(StartRequest::Skip, any, false).0 == before,
        before.after_start(StartRequest::Bot, any, any) == (before, StartView::Setup),
        before.after_start(StartRequest::Invalid, any, any).0 == before,
{
    assert(SettingsView { locale: Some(locale), ..before } == before);
}

/// A page of the tutorial is its message and, after an empty line, how the tutorial is used, both with the
/// command prefix.
pub proof fn pages_tell_how_the_tutorial_is_used(
    locale: Locale,
    page: OnboardingProgress,
    prefix: Seq<char>,
)
    ensures
        runtime::page_text(locale, page, prefix) == chars::replaced(
            text(locale, page.message_key())@,
            "{prefix}"@,
            prefix,
        ) + seq!['\n', '\n'] + chars::replaced(text(locale, Text::StartUsage)@, "{prefix}"@, prefix),
{
    reveal_strlit("\n\n");
    assert("\n\n"@ == seq!['\n', '\n']);
}

/// Modules are told of messages only while they may be and there is a runtime for them; then all of them are
/// that receive the kind.
pub proof fn modules_are_told_while_they_may_be(
    state: RuntimeState,
    names: Seq<EventNames>,
    message: EventMessage,
)
    ensures
        !state.external_projection_permitted || !state.external_manager ==> state.told_events(
            names,
            message,
        ).len() == 0,
        state.external_projection_permitted && state.external_manager ==> state.told_events(names, message)
            == runtime::dispatch::events_for(state.external_snapshot.descriptors@, names, message),
{
}

/// What the tutorial asks to be stored is what is in force once it was, and nothing else is changed.
pub proof fn the_tutorial_stores_what_it_puts_in_force(state: RuntimeState, request: StartRequest)
    ensures
        ({
            let (locale, progress) = state.changes(request);
            let before = state.settings@;
            let after = before.after_start(request, true, true).0;
            &&& after.prefix == before.prefix
            &&& after.locale == (if locale is Some {
                locale
            } else {
                before.locale
            })
            &&& after.onboarding == (if progress is Some {
                progress->0
            } else {
                before.onboarding
            })
        }),
        state.settings.language() == state.settings@.language(),
{
}

/// Telegram's latency is told where it answered; where it did not, this is told.
pub proof fn latencies_are_told(locale: Locale, millis: u128)
    ensures
        runtime::ping_view(locale, Some(millis)) == response::plain_view(
            locale,
            chars::replaced(
                ping_template(locale, PingText::Success)@,
                "{latency}"@,
                runtime::info::latency_label(millis as nat),
            ),
        ),
        runtime::ping_view(locale, None) == response::plain_view(
            locale,
            runtime_text(locale, RuntimeText::PingFailed)@,
        ),
{
}

/// The tutorial moves on by one page once a delivery was stored, and not before; nothing else changes.
pub proof fn stored_deliveries_move_the_tutorial_on(before: SettingsView)
    ensures
        before.after_delivery(true) == (SettingsView {
            onboarding: before.onboarding.following(),
            ..before
        }),
        before.after_delivery(false) == before,
{
}

/// An owner who has not chosen a language is spoken to in both, English first, each on its own line and with the
/// command prefix.
pub proof fn undecided_owners_are_spoken_to_in_both_languages(settings: SettingsView, key: Text)
    ensures
        settings.in_both_languages(key) == response::plain_view(
            settings.language(),
            chars::replaced(text(Locale::English, key)@, "{prefix}"@, settings.prefix) + seq!['\n']
                + chars::replaced(text(Locale::Russian, key)@, "{prefix}"@, settings.prefix),
        ),
{
    reveal_strlit("\n");
    assert("\n"@ == seq!['\n']);
}

} // verus!
