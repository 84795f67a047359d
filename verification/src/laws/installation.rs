//! What holds of the installation of external modules, from the plan to the last answer.
use crate::i18n;
use crate::i18n::{LmLabel, LmText, Locale};
use crate::laws;
use crate::runtime::info;
use crate::runtime::install;
use crate::runtime::install::{
    ActionView, ApprovalFailure, ConfirmationView, InspectionOutcome, InstallEvent, InstallFailure,
    InstallReply, InstallStage, ModuleInstallPlan, RegisteredModules, ReplyView, RevokeOutcome, SourceIdentity, UpdateWords,
};
use crate::text;
use vstd::prelude::*;

verus! {

/// The end of an installation that changed nothing: it is answered, and a package that was taken over is
/// cleaned up.
pub open spec fn ends_with(cleanup_stage: bool, reply: ReplyView) -> ActionView {
    ActionView::Finish { cleanup_stage, restart: false, refresh: false, reply }
}

/// A module that is registered already is refused before its approval is used up, where it is to be refused;
/// an approval that cannot be read ends the installation.
pub proof fn registered_modules_are_refused_first(
    state: ConfirmationView,
    module_id: Seq<char>,
    result: Result<bool, ApprovalFailure>,
)
    requires
        state.stage == InstallStage::ReadingPlan,
    ensures
        ({
            let refused = if result == Err::<bool, _>(ApprovalFailure::Unavailable) {
                ReplyView::Message(LmText::ApprovalInvalid)
            } else if result is Err {
                ReplyView::Message(LmText::PlanUnavailable)
            } else {
                ReplyView::About { key: LmText::AlreadyRegistered, module_id }
            };
            let goes_on = result == Ok::<_, ApprovalFailure>(false) || (result is Ok && !state.manager);
            state.after(InstallEvent::PlanRead { module_id, result }) == Some(
                if goes_on {
                    (
                        ConfirmationView { stage: InstallStage::Redeeming, ..state },
                        ActionView::Redeem,
                    )
                } else {
                    (
                        ConfirmationView { stage: InstallStage::Finished, ..state },
                        ends_with(false, refused),
                    )
                },
            )
        }),
{
}

/// A used-up approval names the module and the version that everything after is about. One that cannot be
/// used ends the installation, and so does a package that cannot be taken over.
pub proof fn approvals_name_the_module(
    state: ConfirmationView,
    module_id: Seq<char>,
    version: Seq<char>,
    failure: ApprovalFailure,
)
    ensures
        state.stage == InstallStage::Redeeming ==> {
            &&& state.after(InstallEvent::Redeemed(Ok((module_id, version)))) == Some(
                (
                    ConfirmationView {
                        stage: InstallStage::TakingStage,
                        module_id,
                        version,
                        ..state
                    },
                    ActionView::TakeStage,
                ),
            )
            &&& state.after(InstallEvent::Redeemed(Err(failure))) matches Some((next, action))
                && next.stage == InstallStage::Finished && action == ends_with(
                false,
                ReplyView::Message(
                    if failure is Unavailable {
                        LmText::ApprovalInvalid
                    } else {
                        LmText::PlanUnavailable
                    },
                ),
            )
        },
        state.stage == InstallStage::TakingStage ==> (state.after(InstallEvent::StageTaken(false)) matches Some(
            (next, action),
        ) && next.stage == InstallStage::Finished && action == ends_with(
            false,
            ReplyView::Message(LmText::VerifiedPackageUnavailable),
        )),
{
}

/// Where modules are managed and registered ones updated, a package that was taken over waits for two
/// looks: at the declarations and, where modules run, at the module's state. Elsewhere it is installed at
/// once.
pub proof fn packages_wait_for_the_looks(state: ConfirmationView)
    ensures
        ({
            let looks = state.control && state.registered_modules == RegisteredModules::Update;
            let taken = state.after(InstallEvent::StageTaken(true));
            let free = state.after(InstallEvent::DeclarativeChecked(Some(false)));
            let look = Some(
                (ConfirmationView { stage: InstallStage::CheckingDeclarative, ..state }, ActionView::CheckDeclarative),
            );
            let load = Some(
                (ConfirmationView { stage: InstallStage::LoadingState, ..state }, ActionView::LoadState),
            );
            let fresh = Some(
                (ConfirmationView { stage: InstallStage::Installing, ..state }, ActionView::InstallFresh),
            );
            &&& state.stage == InstallStage::TakingStage ==> taken == (if looks {
                look
            } else {
                fresh
            })
            &&& state.stage == InstallStage::CheckingDeclarative && looks ==> free == (if state.manager {
                load
            } else {
                fresh
            })
        }),
{
}

/// A module that is managed declaratively is left alone, and so is one of which that could not be found out.
pub proof fn declared_modules_are_left_alone(state: ConfirmationView, managed: Option<bool>)
    requires
        state.stage == InstallStage::CheckingDeclarative,
        managed != Some(false),
    ensures
        state.after(InstallEvent::DeclarativeChecked(managed)) matches Some((next, action)) && next.stage
            == InstallStage::Finished && action == ends_with(
            true,
            ReplyView::Message(
                if managed is Some {
                    LmText::Declarative
                } else {
                    LmText::PlanUnavailable
                },
            ),
        ),
{
}

/// A module of which a version is registered is updated; any other is installed. Whether it was enabled is
/// remembered.
pub proof fn registered_versions_are_updated(
    state: ConfirmationView,
    was_enabled: bool,
    previous: Option<Seq<char>>,
)
    requires
        state.stage == InstallStage::LoadingState,
    ensures
        state.after(InstallEvent::StateLoaded(Some((was_enabled, previous)))) == Some(
            if previous is Some {
                (
                    ConfirmationView {
                        stage: InstallStage::Updating,
                        was_enabled,
                        previous,
                        ..state
                    },
                    ActionView::Update,
                )
            } else {
                (
                    ConfirmationView {
                        stage: InstallStage::Installing,
                        was_enabled,
                        previous,
                        ..state
                    },
                    ActionView::InstallFresh,
                )
            },
        ),
        state.after(InstallEvent::StateLoaded(None)) matches Some((next, action)) && next.stage
            == InstallStage::Finished && action == ends_with(
            true,
            ReplyView::Message(LmText::StateUnavailable),
        ),
{
}

/// An installed module is registered where modules run, and told to be installed under its own name; a
/// conflict is told as such. A failed installation is cleaned up and says how it failed.
pub proof fn installed_modules_are_registered(state: ConfirmationView, failure: InstallFailure)
    ensures
        ({
            let told = |key: LmText|
                ActionView::Finish {
                    cleanup_stage: false,
                    restart: false,
                    refresh: true,
                    reply: ReplyView::About { key, module_id: state.module_id },
                };
            &&& state.stage == InstallStage::Installing ==> {
                &&& state.after(InstallEvent::Installed(Ok(()))) == Some(
                    if state.manager {
                        (
                            ConfirmationView { stage: InstallStage::Registering, ..state },
                            ActionView::Register,
                        )
                    } else {
                        (
                            ConfirmationView { stage: InstallStage::Finished, ..state },
                            told(LmText::InstalledDisabled),
                        )
                    },
                )
                &&& state.after(InstallEvent::Installed(Err(failure))) == Some(
                    (
                        ConfirmationView { stage: InstallStage::Finished, ..state },
                        ends_with(
                            true,
                            ReplyView::Message(
                                match failure {
                                    InstallFailure::TargetCleanup => LmText::InstallRollbackFailed,
                                    InstallFailure::PostInstallValidation =>
                                        LmText::InstallValidationFailed,
                                    InstallFailure::Other => LmText::InstallFailed,
                                },
                            ),
                        ),
                    ),
                )
            }
            &&& state.stage == InstallStage::Registering ==> {
                &&& state.after(InstallEvent::Registered(true)) == Some(
                    (
                        ConfirmationView { stage: InstallStage::Finished, ..state },
                        told(LmText::InstalledDisabled),
                    ),
                )
                &&& state.after(InstallEvent::Registered(false)) == Some(
                    (
                        ConfirmationView { stage: InstallStage::Finished, ..state },
                        told(LmText::RegistrationConflict),
                    ),
                )
            }
        }),
{
}

/// An update, whether or not it succeeded, leaves the module running exactly where it was enabled before, and
/// tells the change of the version or the reason of the failure.
pub proof fn updates_keep_modules_running(
    state: ConfirmationView,
    previous: Seq<char>,
    reason: Seq<char>,
)
    requires
        state.stage == InstallStage::Updating,
        state.previous == Some(previous),
    ensures
        ({
            let told = |reply: ReplyView|
                Some(
                    (
                        ConfirmationView { stage: InstallStage::Finished, ..state },
                        ActionView::Finish {
                            cleanup_stage: false,
                            restart: state.was_enabled,
                            refresh: true,
                            reply,
                        },
                    ),
                );
            &&& state.after(InstallEvent::Updated(None)) == told(
                ReplyView::Updated {
                    module_id: state.module_id,
                    change: seq!['v'] + previous + seq![' ', '→', ' ', 'v'] + state.version,
                },
            )
            &&& state.after(InstallEvent::Updated(Some(reason))) == told(
                ReplyView::UpdateFailed { module_id: state.module_id, reason },
            )
        }),
{
    reveal_strlit("v");
    reveal_strlit(" → v");
    assert("v"@ == seq!['v']);
    assert(" → v"@ == seq![' ', '→', ' ', 'v']);
}

/// Each stage takes its own report and no other, and a finished installation takes none.
pub proof fn stages_take_their_own_reports(state: ConfirmationView, event: InstallEvent)
    ensures
        state.after(event) is Some ==> match state.stage {
            InstallStage::ReadingPlan => event is PlanRead,
            InstallStage::Redeeming => event is Redeemed,
            InstallStage::TakingStage => event is StageTaken,
            InstallStage::CheckingDeclarative => event is DeclarativeChecked,
            InstallStage::LoadingState => event is StateLoaded,
            InstallStage::Installing => event is Installed,
            InstallStage::Registering => event is Registered,
            InstallStage::Updating => event is Updated,
            InstallStage::Finished => false,
        },
{
}

/// A list of values shows the first eight, each cut to 96 characters, and how many more there are.
pub proof fn lists_show_the_first_eight(locale: Locale, values: Seq<Seq<char>>, i: int)
    ensures
        ({
            let items = info::bounded_items(locale, values);
            &&& values.len() <= 8 ==> items.len() == values.len()
            &&& values.len() > 8 ==> items.len() == 9 && items[8] == (match locale {
                Locale::English => seq!['+'],
                Locale::Russian => "ещё "@,
            }) + text::decimal((values.len() - 8) as nat)
            &&& 0 <= i < values.len() && i < 8 ==> items[i] == (if values[i].len() > 96 {
                values[i].take(96)
            } else {
                values[i]
            })
        }),
{
    reveal_strlit("+");
    assert("+"@ == seq!['+']);
}

/// The items of a list are set apart by a comma and a space; a list without items is told to be empty.
pub proof fn lists_are_separated_by_commas(locale: Locale, first: Seq<char>, others: Seq<Seq<char>>)
    ensures
        info::names_label(locale, Seq::empty()) == i18n::lm_label(locale, LmLabel::Absent)@,
        info::names_label(locale, seq![first]) == first,
        others.len() > 0 ==> info::names_label(locale, seq![first] + others) == first + seq![',', ' ']
            + info::names_label(locale, others),
{
    reveal_strlit(", ");
    assert(", "@ == seq![',', ' ']);
    laws::text::joining_starts_with_the_first(first, others, ", "@);
    laws::text::joining_starts_with_the_first(first, Seq::empty(), ", "@);
    assert(seq![first] + Seq::<Seq<char>>::empty() == seq![first]);
}

proof fn lemma_value_at(values: Seq<(Seq<char>, Seq<char>)>, at: int)
    requires
        0 <= at < values.len(),
        forall|i: int| 0 <= i < at ==> (#[trigger] values[i]).0 != values[at].0,
    ensures
        i18n::value_of(values, values[at].0) == Some(values[at].1),
    decreases at,
{
    if at > 0 {
        assert(values[0].0 != values[at].0);
        let rest = values.skip(1);
        assert forall|i: int| 0 <= i < at - 1 implies (#[trigger] rest[i]).0 != rest[at - 1].0 by {
            assert(rest[i] == values[i + 1]);
        }
        lemma_value_at(rest, at - 1);
    }
}

/// Where the value of a name stands in a plan.
spec fn place_of_name(name: Seq<char>) -> int {
    if name.len() == 6 {
        if name[0] == 'm' {
            1
        } else if name[0] == 'p' {
            13
        } else if name[1] == 'o' {
            0
        } else {
            5
        }
    } else if name.len() == 7 {
        if name[0] == 'v' {
            2
        } else if name[0] == 'm' {
            9
        } else {
            10
        }
    } else if name.len() == 8 {
        if name[0] == 'w' {
            11
        } else {
            14
        }
    } else if name.len() == 10 {
        if name[0] == 'e' {
            3
        } else {
            16
        }
    } else if name.len() == 11 {
        if name[0] == 'f' {
            6
        } else {
            12
        }
    } else if name.len() == 12 {
        7
    } else if name.len() == 13 {
        if name[0] == 's' {
            8
        } else {
            15
        }
    } else if name.len() == 14 {
        18
    } else if name.len() == 15 {
        4
    } else {
        17
    }
}

/// The names of the values of a plan differ.
proof fn lemma_plan_names(values: Seq<(Seq<char>, Seq<char>)>)
    requires
        values.len() == 19,
        values[0].0 == "source"@ && values[1].0 == "module"@ && values[2].0 == "version"@,
        values[3].0 == "entrypoint"@ && values[4].0 == "default_command"@ && values[5].0 == "sha256"@,
        values[6].0 == "fingerprint"@ && values[7].0 == "capabilities"@ && values[8].0
            == "subscriptions"@,
        values[9].0 == "methods"@ && values[10].0 == "actions"@ && values[11].0 == "warnings"@,
        values[12].0 == "approval_id"@ && values[13].0 == "prefix"@ && values[14].0 == "protocol"@,
        values[15].0 == "archive_bytes"@ && values[16].0 == "file_count"@ && values[17].0
            == "compressed_bytes"@ && values[18].0 == "expanded_bytes"@,
    ensures
        forall|i: int, j: int| 0 <= i < j < 19 ==> (#[trigger] values[i]).0 != (#[trigger] values[j]).0,
{
    reveal_strlit("source");
    reveal_strlit("module");
    reveal_strlit("version");
    reveal_strlit("entrypoint");
    reveal_strlit("default_command");
    reveal_strlit("sha256");
    reveal_strlit("fingerprint");
    reveal_strlit("capabilities");
    reveal_strlit("subscriptions");
    reveal_strlit("methods");
    reveal_strlit("actions");
    reveal_strlit("warnings");
    reveal_strlit("approval_id");
    reveal_strlit("prefix");
    reveal_strlit("protocol");
    reveal_strlit("archive_bytes");
    reveal_strlit("file_count");
    reveal_strlit("compressed_bytes");
    reveal_strlit("expanded_bytes");
    assert(place_of_name(values[0].0) == 0 && place_of_name(values[1].0) == 1);
    assert(place_of_name(values[2].0) == 2 && place_of_name(values[3].0) == 3);
    assert(place_of_name(values[4].0) == 4 && place_of_name(values[5].0) == 5);
    assert(place_of_name(values[6].0) == 6 && place_of_name(values[7].0) == 7);
    assert(place_of_name(values[8].0) == 8 && place_of_name(values[9].0) == 9);
    assert(place_of_name(values[10].0) == 10 && place_of_name(values[11].0) == 11);
    assert(place_of_name(values[12].0) == 12 && place_of_name(values[13].0) == 13);
    assert(place_of_name(values[14].0) == 14 && place_of_name(values[15].0) == 15);
    assert(place_of_name(values[16].0) == 16 && place_of_name(values[17].0) == 17);
    assert(place_of_name(values[18].0) == 18);
    assert forall|i: int| 0 <= i < 19 implies place_of_name((#[trigger] values[i]).0) == i by {
        assert(i == 0 || i == 1 || i == 2 || i == 3 || i == 4 || i == 5 || i == 6 || i == 7 || i == 8
            || i == 9 || i == 10 || i == 11 || i == 12 || i == 13 || i == 14 || i == 15 || i == 16 || i
            == 17 || i == 18);
    }
}

/// The plan tells what the package asks for, each thing in its own place.
pub proof fn plans_tell_what_packages_ask_for(
    locale: Locale,
    plan: ModuleInstallPlan,
    approval_id: Seq<char>,
    prefix: Seq<char>,
)
    ensures
        ({
            let values = install::plan_values(locale, plan, approval_id, prefix);
            let listed = |items: Seq<Seq<char>>|
                info::names_label(locale, info::bounded_items(locale, items));
            &&& i18n::value_of(values, "module"@) == Some(plan.module_id@)
            &&& i18n::value_of(values, "version"@) == Some(plan.module_version@)
            &&& i18n::value_of(values, "entrypoint"@) == Some(plan.entrypoint@)
            &&& i18n::value_of(values, "sha256"@) == Some(plan.archive_digest@)
            &&& i18n::value_of(values, "fingerprint"@) == Some(plan.fingerprint@)
            &&& i18n::value_of(values, "approval_id"@) == Some(approval_id)
            &&& i18n::value_of(values, "prefix"@) == Some(prefix)
            &&& i18n::value_of(values, "capabilities"@) == Some(listed(text::views(plan.capabilities@)))
            &&& i18n::value_of(values, "subscriptions"@) == Some(
                listed(text::views(plan.subscriptions@)),
            )
            &&& i18n::value_of(values, "methods"@) == Some(listed(text::views(plan.telegram_methods@)))
            &&& i18n::value_of(values, "actions"@) == Some(listed(text::views(plan.actions@)))
            &&& i18n::value_of(values, "protocol"@) == Some(text::decimal(plan.protocol_version as nat))
            &&& i18n::value_of(values, "archive_bytes"@) == Some(
                text::decimal(plan.archive.archive_bytes as nat),
            )
            &&& i18n::value_of(values, "file_count"@) == Some(
                text::decimal(plan.archive.file_count as nat),
            )
            &&& i18n::value_of(values, "compressed_bytes"@) == Some(
                text::decimal(plan.archive.compressed_bytes as nat),
            )
            &&& i18n::value_of(values, "expanded_bytes"@) == Some(
                text::decimal(plan.archive.expanded_bytes as nat),
            )
            &&& plan.default_command matches Some(command) ==> i18n::value_of(values, "default_command"@)
                == Some(command@)
            &&& plan.source_identity matches SourceIdentity::PinnedRepository { repository, revision }
                ==> i18n::value_of(values, "source"@) == Some(
                i18n::lm_label(locale, LmLabel::Repository)@ + " "@ + repository@ + " @ "@ + revision@,
            )
        }),
{
    let values = install::plan_values(locale, plan, approval_id, prefix);
    lemma_plan_names(values);
    assert forall|at: int| 0 <= at < 19 implies i18n::value_of(values, (#[trigger] values[at]).0)
        == Some(values[at].1) by {
        lemma_value_at(values, at);
    }
    assert(values[0].0 == "source"@ && values[1].0 == "module"@ && values[2].0 == "version"@);
    assert(values[3].0 == "entrypoint"@ && values[4].0 == "default_command"@ && values[5].0 == "sha256"@);
    assert(values[6].0 == "fingerprint"@ && values[7].0 == "capabilities"@ && values[8].0
        == "subscriptions"@);
    assert(values[9].0 == "methods"@ && values[10].0 == "actions"@ && values[12].0 == "approval_id"@);
    assert(values[13].0 == "prefix"@ && values[14].0 == "protocol"@ && values[15].0 == "archive_bytes"@);
    assert(values[16].0 == "file_count"@ && values[17].0 == "compressed_bytes"@ && values[18].0
        == "expanded_bytes"@);
}

/// A plan that would replace an installed version says so in a last line, which names the module and the
/// version; any other plan is told as it is.
pub proof fn replacements_are_told_in_a_last_line(
    locale: Locale,
    prefix: Seq<char>,
    words: UpdateWords,
    plan: ModuleInstallPlan,
    approval_id: String,
    installed: String,
)
    ensures
        ({
            let told = |installed: Option<String>|
                install::inspection_text(
                    locale,
                    prefix,
                    words,
                    InspectionOutcome::Planned { plan, approval_id, installed },
                );
            let line = i18n::interpolated(
                words.planned@,
                seq![
                    ("id"@, plan.module_id@),
                    ("detail"@, installed@),
                    ("prefix"@, installed@),
                ],
            );
            &&& told(Some(installed)) == told(None) + seq!['\n'] + line
            &&& told(None) == i18n::interpolated(
                i18n::lm_text(locale, LmText::InstallPlan)@,
                install::plan_values(locale, plan, approval_id@, prefix),
            )
        }),
{
    reveal_strlit("\n");
    assert("\n"@ == seq!['\n']);
}

/// What stands in the way of a plan is told, each thing by its own message; and so is what came of a
/// cancellation.
pub proof fn obstacles_are_told(locale: Locale, prefix: Seq<char>, words: UpdateWords)
    ensures
        ({
            let told = |outcome: InspectionOutcome|
                install::inspection_text(locale, prefix, words, outcome);
            &&& told(InspectionOutcome::InstallUnavailable) == i18n::lm_text(
                locale,
                LmText::InstallUnavailable,
            )@
            &&& told(InspectionOutcome::NoPackage) == i18n::lm_text(locale, LmText::AttachPackage)@
            &&& told(InspectionOutcome::UnsafePackage) == i18n::lm_text(locale, LmText::UnsafePackage)@
            &&& told(InspectionOutcome::NoApproval) == i18n::lm_text(locale, LmText::PlanUnavailable)@
        }),
        install::cancellation_key(RevokeOutcome::Revoked) == LmText::Cancelled,
        install::cancellation_key(RevokeOutcome::Failed) == LmText::PlanUnavailable,
        install::cancellation_key(RevokeOutcome::InvalidId) == LmText::ApprovalInvalid,
        install::cancellation_key(RevokeOutcome::Unknown) == LmText::ApprovalInvalid,
{
}

/// What a package without a pinned source or a default command, and its warnings, are told as.
pub proof fn plans_tell_what_is_absent(
    locale: Locale,
    plan: ModuleInstallPlan,
    approval_id: Seq<char>,
    prefix: Seq<char>,
)
    ensures
        ({
            let values = install::plan_values(locale, plan, approval_id, prefix);
            &&& plan.default_command is None ==> i18n::value_of(values, "default_command"@) == Some(
                i18n::lm_label(locale, LmLabel::Absent)@,
            )
            &&& plan.source_identity is Archive ==> i18n::value_of(values, "source"@) == Some(
                i18n::lm_label(locale, LmLabel::Archive)@,
            )
            &&& i18n::value_of(values, "warnings"@) == Some(
                info::names_label(
                    locale,
                    info::bounded_items(locale, install::warning_texts(locale, plan.warnings@)),
                ),
            )
            &&& install::warning_texts(locale, plan.warnings@).len() == plan.warnings@.len()
            &&& forall|i: int|
                0 <= i < plan.warnings@.len() ==> #[trigger] install::warning_texts(
                    locale,
                    plan.warnings@,
                )[i] == i18n::inspection_warning_text(locale, &plan.warnings@[i])@
        }),
{
    let values = install::plan_values(locale, plan, approval_id, prefix);
    lemma_plan_names(values);
    assert(values[0].0 == "source"@ && values[4].0 == "default_command"@ && values[11].0
        == "warnings"@);
    lemma_value_at(values, 0);
    lemma_value_at(values, 4);
    lemma_value_at(values, 11);
}

/// The last answer of an installation is told in its own words: the catalog's about the module, or those for
/// updates.
pub proof fn last_answers_are_told(
    locale: Locale,
    words: UpdateWords,
    key: LmText,
    module_id: String,
    detail: String,
)
    ensures
        ({
            let filled = |template: Seq<char>, detail: Seq<char>|
                i18n::interpolated(
                    template,
                    seq![("id"@, module_id@), ("detail"@, detail), ("prefix"@, detail)],
                );
            &&& InstallReply::Message(key).told(locale, words) == i18n::lm_text(locale, key)@
            &&& (InstallReply::About { key, module_id }).told(locale, words) == filled(
                i18n::lm_text(locale, key)@,
                ""@,
            )
            &&& (InstallReply::Updated { module_id, change: detail }).told(locale, words) == filled(
                words.updated@,
                detail@,
            )
            &&& (InstallReply::UpdateFailed { module_id, reason: detail }).told(locale, words) == filled(
                words.failed@,
                detail@,
            )
        }),
{
}

} // verus!
