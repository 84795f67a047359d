//! The short tutorial: its pages, their order and their messages.
use crate::i18n::{text, Locale, Text};
use crate::text as chars;
use vstd::prelude::*;

verus! {

/// How far the tutorial has come.
#[derive(Clone, Copy, Debug, PartialEq, Eq, Structural)]
pub enum OnboardingProgress {
    NotStarted,
    Intro,
    Prefix,
    Ping,
    Help,
    Modules,
    ExternalModules,
    Companion,
    Completion,
    Complete,
    Skipped,
}

impl Default for OnboardingProgress {
    fn default() -> (progress: OnboardingProgress)
        ensures
            progress == OnboardingProgress::NotStarted,
    {
        OnboardingProgress::NotStarted
    }
}

/// The page to show, and the progress to save before it is shown. Progress moves on only once the
/// page was delivered.
#[derive(Clone, Copy, Debug, PartialEq, Eq, Structural)]
pub struct TutorialPage {
    pub page: OnboardingProgress,
    pub pending: OnboardingProgress,
}

impl OnboardingProgress {
    /// The number of pages still to be delivered, where the tutorial is under way.
    pub open spec fn pages_left(self) -> nat {
        match self {
            OnboardingProgress::Intro => 8,
            OnboardingProgress::Prefix => 7,
            OnboardingProgress::Ping => 6,
            OnboardingProgress::Help => 5,
            OnboardingProgress::Modules => 4,
            OnboardingProgress::ExternalModules => 3,
            OnboardingProgress::Companion => 2,
            OnboardingProgress::Completion => 1,
            OnboardingProgress::NotStarted => 0,
            OnboardingProgress::Complete => 0,
            OnboardingProgress::Skipped => 0,
        }
    }

    /// The page after this one; a tutorial that is not under way stays where it is.
    pub open spec fn following(self) -> OnboardingProgress {
        match self {
            OnboardingProgress::Intro => OnboardingProgress::Prefix,
            OnboardingProgress::Prefix => OnboardingProgress::Ping,
            OnboardingProgress::Ping => OnboardingProgress::Help,
            OnboardingProgress::Help => OnboardingProgress::Modules,
            OnboardingProgress::Modules => OnboardingProgress::ExternalModules,
            OnboardingProgress::ExternalModules => OnboardingProgress::Companion,
            OnboardingProgress::Companion => OnboardingProgress::Completion,
            OnboardingProgress::Completion => OnboardingProgress::Complete,
            state => state,
        }
    }

    /// The page that a start of the tutorial shows.
    pub open spec fn starting_page(self) -> OnboardingProgress {
        match self {
            OnboardingProgress::NotStarted => OnboardingProgress::Intro,
            OnboardingProgress::Complete => OnboardingProgress::Intro,
            OnboardingProgress::Skipped => OnboardingProgress::Intro,
            page => page,
        }
    }

    /// The message of a page.
    pub open spec fn message_key(self) -> Text {
        match self {
            OnboardingProgress::Intro => Text::OnboardingIntro,
            OnboardingProgress::Prefix => Text::OnboardingPrefix,
            OnboardingProgress::Ping => Text::OnboardingPing,
            OnboardingProgress::Help => Text::OnboardingHelp,
            OnboardingProgress::Modules => Text::OnboardingModules,
            OnboardingProgress::ExternalModules => Text::OnboardingExternal,
            OnboardingProgress::Companion => Text::OnboardingCompanion,
            OnboardingProgress::Completion => Text::OnboardingDone,
            OnboardingProgress::Complete => Text::OnboardingDone,
            OnboardingProgress::Skipped => Text::OnboardingSkipped,
            OnboardingProgress::NotStarted => Text::OnboardingSelect,
        }
    }

    /// Where a restarted tutorial begins.
    #[verifier::allow_in_spec]
    pub fn restart() -> Self
        returns
            OnboardingProgress::Intro,
    {
        OnboardingProgress::Intro
    }

    /// Where a skipped tutorial ends.
    #[verifier::allow_in_spec]
    pub fn skip() -> Self
        returns
            OnboardingProgress::Skipped,
    {
        OnboardingProgress::Skipped
    }

    /// [`OnboardingProgress::following`], computed.
    pub fn next(self) -> (next: Self)
        ensures
            next == self.following(),
    {
        match self {
            OnboardingProgress::Intro => OnboardingProgress::Prefix,
            OnboardingProgress::Prefix => OnboardingProgress::Ping,
            OnboardingProgress::Ping => OnboardingProgress::Help,
            OnboardingProgress::Help => OnboardingProgress::Modules,
            OnboardingProgress::Modules => OnboardingProgress::ExternalModules,
            OnboardingProgress::ExternalModules => OnboardingProgress::Companion,
            OnboardingProgress::Companion => OnboardingProgress::Completion,
            OnboardingProgress::Completion => OnboardingProgress::Complete,
            state => state,
        }
    }

    /// The page that a start of the tutorial shows and keeps pending.
    pub fn page_for_start(self) -> (shown: TutorialPage)
        ensures
            shown.page == self.starting_page(),
            shown.pending == self.starting_page(),
    {
        let page = match self {
            OnboardingProgress::NotStarted | OnboardingProgress::Complete
            | OnboardingProgress::Skipped => OnboardingProgress::Intro,
            page => page,
        };
        TutorialPage { page, pending: page }
    }

    /// The progress once this page was delivered.
    pub fn mark_delivered(self) -> (next: Self)
        ensures
            next == self.following(),
    {
        self.next()
    }

    /// The text of a page, with the command prefix filled in.
    pub fn message(self, locale: Locale, prefix: &str) -> (message: String)
        ensures
            message@ == chars::replaced(text(locale, self.message_key())@, "{prefix}"@, prefix@),
    {
        let key = match self {
            OnboardingProgress::Intro => Text::OnboardingIntro,
            OnboardingProgress::Prefix => Text::OnboardingPrefix,
            OnboardingProgress::Ping => Text::OnboardingPing,
            OnboardingProgress::Help => Text::OnboardingHelp,
            OnboardingProgress::Modules => Text::OnboardingModules,
            OnboardingProgress::ExternalModules => Text::OnboardingExternal,
            OnboardingProgress::Companion => Text::OnboardingCompanion,
            OnboardingProgress::Completion => Text::OnboardingDone,
            OnboardingProgress::Complete => Text::OnboardingDone,
            OnboardingProgress::Skipped => Text::OnboardingSkipped,
            OnboardingProgress::NotStarted => Text::OnboardingSelect,
        };
        chars::replace(text(locale, key), "{prefix}", prefix)
    }
}

/// The progress after `count` deliveries.
pub open spec fn delivered(progress: OnboardingProgress, count: nat) -> OnboardingProgress
    decreases count,
{
    if count == 0 {
        progress
    } else {
        delivered(progress.following(), (count - 1) as nat)
    }
}

/// A tutorial that is under way is complete after exactly as many deliveries as it has pages left,
/// and not before.
pub proof fn tutorial_completes(progress: OnboardingProgress, count: nat)
    requires
        progress.pages_left() > 0,
        count <= progress.pages_left(),
    ensures
        delivered(progress, count) == OnboardingProgress::Complete <==> count
            == progress.pages_left(),
        delivered(progress, count).pages_left() == progress.pages_left() - count,
    decreases count,
{
    if count > 0 {
        if progress.following().pages_left() > 0 {
            tutorial_completes(progress.following(), (count - 1) as nat);
        } else {
            assert(count == 1);
            assert(delivered(progress.following(), 0) == progress.following());
        }
    }
}

/// Starting the tutorial always shows a page of it, and shows an unfinished page again.
pub proof fn starting_resumes_the_tutorial(progress: OnboardingProgress)
    ensures
        progress.starting_page().pages_left() > 0,
        progress.pages_left() > 0 ==> progress.starting_page() == progress,
        progress.pages_left() == 0 ==> progress.starting_page() == OnboardingProgress::restart(),
{
}

} // verus!
