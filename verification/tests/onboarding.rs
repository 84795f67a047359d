use lavis::i18n::Locale;
use lavis::onboarding::OnboardingProgress;

#[test]
fn progresses_in_short_order_with_the_active_prefix() {
    assert_eq!(OnboardingProgress::Intro.next(), OnboardingProgress::Prefix);
    assert!(
        OnboardingProgress::Prefix
            .message(Locale::English, "!")
            .contains("!prefix")
    );
    assert_eq!(
        OnboardingProgress::Companion.next(),
        OnboardingProgress::Completion
    );
}

#[test]
fn completion_is_rendered_before_it_is_persisted_as_complete() {
    let page = OnboardingProgress::Companion.page_for_start();
    assert_eq!(page.page, OnboardingProgress::Companion);
    assert_eq!(page.pending, OnboardingProgress::Companion);
    assert_eq!(page.page.mark_delivered(), OnboardingProgress::Completion);
    assert_eq!(
        OnboardingProgress::Completion.page_for_start().page,
        OnboardingProgress::Completion
    );
    assert_eq!(
        OnboardingProgress::Complete.page_for_start().page,
        OnboardingProgress::Intro
    );
}

#[test]
fn the_tutorial_ends_and_can_be_taken_again() {
    let mut progress = OnboardingProgress::restart();
    let mut pages = 0;
    while progress != OnboardingProgress::Complete {
        progress = progress.mark_delivered();
        pages += 1;
        assert!(pages < 10);
    }
    assert_eq!(progress.next(), OnboardingProgress::Complete);
    for ended in [
        OnboardingProgress::NotStarted,
        OnboardingProgress::Complete,
        OnboardingProgress::skip(),
    ] {
        assert_eq!(ended.page_for_start().page, OnboardingProgress::Intro);
    }
}
