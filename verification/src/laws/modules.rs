//! What holds of the reports about external modules.
use crate::i18n::{lm_label, lm_text, render, ExternalModuleRuntimeStatus, LmLabel, LmText, Locale};
use crate::response;
use crate::runtime::info;
use crate::runtime::info::{ModuleManagement, ModuleStatus};
use crate::runtime::lm;
use crate::runtime::lm::{
    ModuleCatalog, ModuleEntry, ModuleFailure, ModuleInfo, ModuleListing, ModuleLookup, SwitchOutcome,
};
use crate::runtime::RuntimeState;
use crate::text;
use vstd::prelude::*;

verus! {

/// The status of a module is the first one recorded under its id; a module without one is not running.
pub proof fn statuses_are_found_by_id(statuses: Seq<ModuleStatus>, id: Seq<char>)
    ensures
        match info::status_of(statuses, id) {
            Some(status) => exists|i: int|
                0 <= i < statuses.len() && (#[trigger] statuses[i]).id@ == id && statuses[i].status
                    == status && forall|j: int| 0 <= j < i ==> (#[trigger] statuses[j]).id@ != id,
            None => forall|i: int| 0 <= i < statuses.len() ==> (#[trigger] statuses[i]).id@ != id,
        },
    decreases statuses.len(),
{
    if statuses.len() > 0 {
        let rest = statuses.skip(1);
        if statuses[0].id@ == id {
            assert(statuses[0].status == info::status_of(statuses, id)->0);
        } else {
            statuses_are_found_by_id(rest, id);
            assert forall|i: int| 0 < i < statuses.len() implies #[trigger] statuses[i] == rest[i - 1] by {}
            match info::status_of(rest, id) {
                Some(status) => {
                    let i = choose|i: int|
                        0 <= i < rest.len() && (#[trigger] rest[i]).id@ == id && rest[i].status == status
                            && forall|j: int| 0 <= j < i ==> (#[trigger] rest[j]).id@ != id;
                    assert(statuses[i + 1] == rest[i]);
                    assert forall|j: int| 0 <= j < i + 1 implies (#[trigger] statuses[j]).id@ != id by {
                        if j > 0 {
                            assert(rest[j - 1] == statuses[j]);
                        }
                    }
                },
                None => {
                    assert forall|i: int| 0 <= i < statuses.len() implies (#[trigger] statuses[i]).id@
                        != id by {
                        if i > 0 {
                            assert(rest[i - 1] == statuses[i]);
                        }
                    }
                },
            }
        }
    }
}

/// The last failure of a module is the first one recorded under its id.
pub proof fn failures_are_found_by_id(failures: Seq<ModuleFailure>, id: Seq<char>)
    ensures
        match lm::failure_of(failures, id) {
            Some(summary) => exists|i: int|
                0 <= i < failures.len() && (#[trigger] failures[i]).id@ == id && failures[i].summary@
                    == summary && forall|j: int| 0 <= j < i ==> (#[trigger] failures[j]).id@ != id,
            None => forall|i: int| 0 <= i < failures.len() ==> (#[trigger] failures[i]).id@ != id,
        },
    decreases failures.len(),
{
    if failures.len() > 0 {
        let rest = failures.skip(1);
        if failures[0].id@ == id {
            assert(failures[0].summary@ == lm::failure_of(failures, id)->0);
        } else {
            failures_are_found_by_id(rest, id);
            match lm::failure_of(rest, id) {
                Some(summary) => {
                    let i = choose|i: int|
                        0 <= i < rest.len() && (#[trigger] rest[i]).id@ == id && rest[i].summary@ == summary
                            && forall|j: int| 0 <= j < i ==> (#[trigger] rest[j]).id@ != id;
                    assert(failures[i + 1] == rest[i]);
                    assert forall|j: int| 0 <= j < i + 1 implies (#[trigger] failures[j]).id@ != id by {
                        if j > 0 {
                            assert(rest[j - 1] == failures[j]);
                        }
                    }
                },
                None => {
                    assert forall|i: int| 0 <= i < failures.len() implies (#[trigger] failures[i]).id@
                        != id by {
                        if i > 0 {
                            assert(rest[i - 1] == failures[i]);
                        }
                    }
                },
            }
        }
    }
}

/// A module is told to be in the state that was recorded, under the words for it, and else not to run.
pub proof fn states_are_told_by_their_words(
    locale: Locale,
    statuses: Seq<ModuleStatus>,
    id: Seq<char>,
)
    ensures
        info::status_of(statuses, id) matches Some(status) ==> info::runtime_label(locale, statuses, id)
            == crate::i18n::lm_runtime_status(locale, status)@,
        info::status_of(statuses, id) is None ==> info::runtime_label(locale, statuses, id) == lm_label(
            locale,
            LmLabel::NotRunning,
        )@,
        info::enabled_label(locale, true)@ == lm_label(locale, LmLabel::Enabled)@,
        info::enabled_label(locale, false)@ == lm_label(locale, LmLabel::Disabled)@,
        info::management_label(locale, ModuleManagement::Manual)@ == lm_label(locale, LmLabel::Manual)@,
        info::management_label(locale, ModuleManagement::DeclarativeNixOs)@ == lm_label(
            locale,
            LmLabel::Declarative,
        )@,
{
}

/// Whether an id is reported to be missing: nothing is installed under it, and it is asked for.
pub open spec fn reported_missing(
    entries: Seq<ModuleEntry>,
    target: Option<Seq<char>>,
    id: Seq<char>,
) -> bool {
    &&& forall|i: int|
        0 <= i < entries.len() ==> !((#[trigger] entries[i]).id is Some && entries[i].id->0@ == id)
    &&& target is None || target->0 == id
}

/// The ids that are enabled but not installed are reported in the order in which they are enabled, every one
/// of them and no other.
pub proof fn missing_ids_are_reported_in_order(
    enabled: Seq<Seq<char>>,
    entries: Seq<ModuleEntry>,
    target: Option<Seq<char>>,
)
    ensures
        lm::missing_ids(enabled, entries, target) == enabled.filter(
            |id: Seq<char>| reported_missing(entries, target, id),
        ),
    decreases enabled.len(),
{
    reveal(Seq::filter);
    if enabled.len() > 0 {
        missing_ids_are_reported_in_order(enabled.drop_last(), entries, target);
        let id = enabled.last();
        if lm::listed(entries, id) {
            let i = choose|i: int| 0 <= i < entries.len() && #[trigger] lm::has_id(entries[i], id);
            assert(entries[i].id is Some && entries[i].id->0@ == id);
        } else {
            assert forall|i: int| 0 <= i < entries.len() implies !((#[trigger] entries[i]).id is Some
                && entries[i].id->0@ == id) by {
                assert(!lm::has_id(entries[i], id));
            }
        }
    }
}

/// A diagnostics report goes through the installed modules in order: each that can be read, and is asked
/// for, has an entry with its own state and its own last failure; no other has one.
pub proof fn diagnostics_go_through_the_modules(
    locale: Locale,
    entries: Seq<ModuleEntry>,
    entry: ModuleEntry,
    target: Option<Seq<char>>,
    statuses: Seq<ModuleStatus>,
    failures: Seq<ModuleFailure>,
)
    ensures
        lm::doctor_entries(locale, Seq::empty(), target, statuses, failures).len() == 0,
        lm::doctor_entries(locale, entries.push(entry), target, statuses, failures) == lm::doctor_entries(
            locale,
            entries,
            target,
            statuses,
            failures,
        ) + (match entry.module {
            Some(module) if target is None || target->0 == module.id@ => seq![
                render::doctor_module_entry(
                    locale,
                    module.display_name@,
                    module.id@,
                    lm_label(
                        locale,
                        if module.enabled {
                            LmLabel::Enabled
                        } else {
                            LmLabel::Disabled
                        },
                    )@,
                    info::runtime_label(locale, statuses, module.id@),
                    info::management_label(locale, module.management)@,
                    lm::failure_of(failures, module.id@),
                ),
            ],
            _ => Seq::empty(),
        }),
{
    let all = entries.push(entry);
    let earlier = lm::doctor_entries(locale, entries, target, statuses, failures);
    assert(all.drop_last() == entries);
    assert(earlier + Seq::<Seq<char>>::empty() == earlier);
    match entry.module {
        Some(module) => {
            let line = lm::doctor_entry(locale, module, statuses, failures);
            assert(earlier.push(line) == earlier + seq![line]);
        },
        None => {},
    }
}

/// A labelled line of a report.
pub open spec fn labelled(locale: Locale, label: LmLabel, value: Seq<char>) -> Seq<char> {
    lm_label(locale, label)@ + ": "@ + value
}

/// The entry of a module in the list has a line for each thing that is told of it: its name, its id, its
/// version, whether it is enabled, who manages it, whether it runs, who wrote it and how many commands it
/// has.
pub proof fn list_entries_have_a_line_for_each_thing(
    locale: Locale,
    module: ModuleInfo,
    entry: ModuleEntry,
    statuses: Seq<ModuleStatus>,
)
    requires
        entry.module == Some(module),
    ensures
        lm::list_entry(locale, entry, statuses) == text::joined(
            seq![
                "• "@ + module.display_name@,
                labelled(locale, LmLabel::Id, module.id@),
                labelled(locale, LmLabel::Version, module.version@),
                labelled(locale, LmLabel::Status, info::enabled_label(locale, module.enabled)@),
                labelled(locale, LmLabel::Source, info::management_label(locale, module.management)@),
                labelled(locale, LmLabel::Runtime, info::runtime_label(locale, statuses, module.id@)),
                labelled(locale, LmLabel::Author, module.author@),
                labelled(locale, LmLabel::Commands, text::decimal(module.commands@.len())),
            ],
            "\n  "@,
        ),
{
    let lines = seq![
        "• "@ + module.display_name@,
        labelled(locale, LmLabel::Id, module.id@),
        labelled(locale, LmLabel::Version, module.version@),
        labelled(locale, LmLabel::Status, info::enabled_label(locale, module.enabled)@),
        labelled(locale, LmLabel::Source, info::management_label(locale, module.management)@),
        labelled(locale, LmLabel::Runtime, info::runtime_label(locale, statuses, module.id@)),
        labelled(locale, LmLabel::Author, module.author@),
        labelled(locale, LmLabel::Commands, text::decimal(module.commands@.len())),
    ];
    let gap = "\n  "@;
    let one = lines[0];
    let two = one + gap + lm_label(locale, LmLabel::Id)@ + ": "@ + module.id@;
    let three = two + gap + lm_label(locale, LmLabel::Version)@ + ": "@ + module.version@;
    let four = three + gap + lm_label(locale, LmLabel::Status)@ + ": "@ + info::enabled_label(
        locale,
        module.enabled,
    )@;
    let five = four + gap + lm_label(locale, LmLabel::Source)@ + ": "@ + info::management_label(
        locale,
        module.management,
    )@;
    let six = five + gap + lm_label(locale, LmLabel::Runtime)@ + ": "@ + info::runtime_label(
        locale,
        statuses,
        module.id@,
    );
    let seven = six + gap + lm_label(locale, LmLabel::Author)@ + ": "@ + module.author@;
    assert(lines.take(1) == seq![one]);
    lemma_field(lines, gap, 1, one, lm_label(locale, LmLabel::Id)@, module.id@);
    lemma_field(lines, gap, 2, two, lm_label(locale, LmLabel::Version)@, module.version@);
    lemma_field(
        lines,
        gap,
        3,
        three,
        lm_label(locale, LmLabel::Status)@,
        info::enabled_label(locale, module.enabled)@,
    );
    lemma_field(
        lines,
        gap,
        4,
        four,
        lm_label(locale, LmLabel::Source)@,
        info::management_label(locale, module.management)@,
    );
    lemma_field(
        lines,
        gap,
        5,
        five,
        lm_label(locale, LmLabel::Runtime)@,
        info::runtime_label(locale, statuses, module.id@),
    );
    lemma_field(lines, gap, 6, six, lm_label(locale, LmLabel::Author)@, module.author@);
    lemma_field(
        lines,
        gap,
        7,
        seven,
        lm_label(locale, LmLabel::Commands)@,
        text::decimal(module.commands@.len()),
    );
    assert(lines.take(8) == lines);
}

/// A labelled line that is joined to the lines before it.
proof fn lemma_field(
    lines: Seq<Seq<char>>,
    gap: Seq<char>,
    n: int,
    before: Seq<char>,
    label: Seq<char>,
    value: Seq<char>,
)
    requires
        1 <= n < lines.len(),
        text::joined(lines.take(n), gap) == before,
        lines[n] == label + ": "@ + value,
    ensures
        text::joined(lines.take(n + 1), gap) == before + gap + label + ": "@ + value,
{
    assert(lines.take(n + 1).drop_last() == lines.take(n));
    assert(before + gap + (label + ": "@ + value) == before + gap + label + ": "@ + value);
}

/// The list holds an entry for each installed module, in order, and then one for each id that is enabled but
/// not installed.
pub proof fn lists_hold_what_is_installed_and_what_is_missing(
    locale: Locale,
    catalog: ModuleCatalog,
    statuses: Seq<ModuleStatus>,
    i: int,
)
    ensures
        ({
            let lines = lm::list_entries(locale, catalog, statuses);
            let installed = catalog.entries@.len() as int;
            let missing = text::views(catalog.enabled_ids@).filter(
                |id: Seq<char>| reported_missing(catalog.entries@, None, id),
            );
            &&& lines.len() == installed + missing.len()
            &&& 0 <= i < installed ==> lines[i] == lm::list_entry(locale, catalog.entries@[i], statuses)
            &&& installed <= i < lines.len() ==> lines[i] == render::doctor_missing_entry(
                locale,
                missing[i - installed],
            )
        }),
{
    missing_ids_are_reported_in_order(text::views(catalog.enabled_ids@), catalog.entries@, None);
}

/// What cannot be looked at is told as such, by the list and by the diagnostics alike. Diagnostics of one
/// module say that it was not found exactly where there is nothing to report of it.
pub proof fn reports_say_what_is_missing(
    locale: Locale,
    prefix: Seq<char>,
    catalog: ModuleCatalog,
    id: Seq<char>,
    statuses: Seq<ModuleStatus>,
    failures: Seq<ModuleFailure>,
)
    ensures
        ({
            let told = |key: LmText| response::plain_view(locale, lm_text(locale, key)@);
            let target = Some(id);
            let lines = lm::doctor_entries(locale, catalog.entries@, target, statuses, failures)
                + lm::missing_entries(
                locale,
                lm::missing_ids(text::views(catalog.enabled_ids@), catalog.entries@, target),
            );
            &&& lm::list_view(locale, prefix, ModuleListing::Unavailable, statuses) == told(
                LmText::Unavailable,
            )
            &&& lm::list_view(locale, prefix, ModuleListing::StateUnavailable, statuses) == told(
                LmText::StateUnavailable,
            )
            &&& lm::list_view(locale, prefix, ModuleListing::ListUnavailable, statuses) == told(
                LmText::ListUnavailable,
            )
            &&& lm::doctor_view(locale, target, ModuleListing::Unavailable, statuses, failures) == told(
                LmText::Unavailable,
            )
            &&& lm::doctor_view(locale, target, ModuleListing::StateUnavailable, statuses, failures)
                == told(LmText::StateUnavailable)
            &&& lm::doctor_view(locale, target, ModuleListing::ListUnavailable, statuses, failures)
                == told(LmText::ListUnavailable)
            &&& lm::doctor_view(locale, target, ModuleListing::Listed(catalog), statuses, failures)
                == response::plain_view(
                locale,
                if lines.len() == 0 {
                    render::lm_formatted(locale, LmText::NotFound, id, ""@)
                } else {
                    render::lm_formatted(locale, LmText::DoctorModuleHeading, id, ""@) + "\n\n"@
                        + text::joined(lines, "\n\n"@)
                },
            )
        }),
{
}

/// An empty list says how to install a module; any other shows its entries under the heading. Diagnostics of
/// nothing say that nothing is installed.
pub proof fn full_reports_show_their_entries(
    locale: Locale,
    prefix: Seq<char>,
    catalog: ModuleCatalog,
    statuses: Seq<ModuleStatus>,
    failures: Seq<ModuleFailure>,
)
    ensures
        ({
            let listed = lm::list_entries(locale, catalog, statuses);
            let checked = lm::doctor_entries(locale, catalog.entries@, None, statuses, failures)
                + lm::missing_entries(
                locale,
                lm::missing_ids(text::views(catalog.enabled_ids@), catalog.entries@, None),
            );
            &&& lm::list_view(locale, prefix, ModuleListing::Listed(catalog), statuses)
                == response::plain_view(
                locale,
                if listed.len() == 0 {
                    render::lm_formatted(locale, LmText::Empty, ""@, prefix)
                } else {
                    lm_text(locale, LmText::ListHeading)@ + "\n\n"@ + text::joined(listed, "\n\n"@)
                },
            )
            &&& lm::doctor_view(locale, None, ModuleListing::Listed(catalog), statuses, failures)
                == response::plain_view(
                locale,
                lm_text(locale, LmText::DoctorHeading)@ + "\n\n"@ + (if checked.len() == 0 {
                    lm_text(locale, LmText::DoctorEmpty)@
                } else {
                    text::joined(checked, "\n\n"@)
                }),
            )
        }),
{
}

/// A switch tells the position that was asked for, and whether it was that already.
pub proof fn switches_tell_their_position(
    locale: Locale,
    prefix: Seq<char>,
    changed: bool,
    display_name: String,
    enabled: bool,
)
    ensures
        lm::switch_text(
            locale,
            prefix,
            SwitchOutcome::Switched { changed, display_name },
            enabled,
        ) == crate::i18n::interpolated(
            lm_text(
                locale,
                if changed {
                    LmText::StateChanged
                } else {
                    LmText::StateUnchanged
                },
            )@,
            seq![
                ("id"@, display_name@),
                (
                    "detail"@,
                    lm_label(
                        locale,
                        if enabled {
                            LmLabel::Enabled
                        } else {
                            LmLabel::Disabled
                        },
                    )@,
                ),
                ("prefix"@, prefix),
            ],
        ),
        lm::switch_text(locale, prefix, SwitchOutcome::Unavailable, enabled) == lm_text(
            locale,
            LmText::Unavailable,
        )@,
        lm::switch_text(locale, prefix, SwitchOutcome::StateUnavailable, enabled) == lm_text(
            locale,
            LmText::StateUnavailable,
        )@,
        lm::switch_text(locale, prefix, SwitchOutcome::DeclarativelyManaged, enabled) == lm_text(
            locale,
            LmText::Declarative,
        )@,
        lm::switch_text(locale, prefix, SwitchOutcome::Failed, enabled) == lm_text(
            locale,
            LmText::StateChangeFailed,
        )@,
{
}

/// The last failure of a module is told as it was recorded; without one this is said, and without a module
/// runtime nothing is known.
pub proof fn last_failures_are_told(locale: Locale, id: Seq<char>, failure: Seq<char>)
    ensures
        lm::logs_text(locale, true, id, Some(failure)) == render::lm_formatted(
            locale,
            LmText::LastModuleError,
            id,
            failure,
        ),
        lm::logs_text(locale, true, id, None) == render::lm_formatted(
            locale,
            LmText::NoRuntimeError,
            id,
            ""@,
        ),
        lm::logs_text(locale, false, id, Some(failure)) == lm_text(locale, LmText::RuntimeUnavailable)@,
{
}

/// The running modules are counted one by one.
pub proof fn running_modules_are_counted(statuses: Seq<ModuleStatus>)
    ensures
        crate::runtime::external::running(statuses) == statuses.filter(
            |status: ModuleStatus| status.status == ExternalModuleRuntimeStatus::Running,
        ).len(),
    decreases statuses.len(),
{
    reveal(Seq::filter);
    if statuses.len() > 0 {
        running_modules_are_counted(statuses.drop_last());
    }
}

/// The details of a module have a line for each thing that is told of it, down to its last failure.
pub proof fn details_have_a_line_for_each_thing(
    locale: Locale,
    module: ModuleInfo,
    statuses: Seq<ModuleStatus>,
    failure: Option<Seq<char>>,
)
    ensures
        lm::info_text_of(locale, module, statuses, failure) == text::joined(
            detail_lines(locale, module, statuses, failure),
            "\n"@,
        ),
{
    let lines = detail_lines(locale, module, statuses, failure);
    let gap = "\n"@;
    let label = |key: LmLabel| lm_label(locale, key)@;
    let version = text::decimal(module.protocol_version as nat);
    let capabilities = info::names_label(locale, text::views(module.capabilities@));
    let commands = info::names_label(locale, text::views(module.commands@));
    let runtime = info::runtime_label(locale, statuses, module.id@);
    let enabled = info::enabled_label(locale, module.enabled)@;
    let managed = info::management_label(locale, module.management)@;
    let last = match failure {
        Some(failure) => failure,
        None => lm_label(locale, LmLabel::Absent)@,
    };
    let a = "📦 "@ + module.display_name@;
    let b = a + gap + label(LmLabel::Id) + ": "@ + module.id@;
    let c = b + gap + label(LmLabel::Version) + ": "@ + module.version@;
    let d = c + gap + label(LmLabel::Author) + ": "@ + module.author@;
    let e = d + gap + label(LmLabel::Status) + ": "@ + enabled;
    let f = e + gap + label(LmLabel::Source) + ": "@ + managed;
    let g = f + gap + label(LmLabel::Entrypoint) + ": "@ + module.entrypoint@;
    let h = g + gap + label(LmLabel::Protocol) + ": "@ + ("v"@ + version);
    let i = h + gap + label(LmLabel::Capabilities) + ": "@ + capabilities;
    let j = i + gap + label(LmLabel::ProvidedCommands) + ": "@ + commands;
    let k = j + gap + label(LmLabel::Runtime) + ": "@ + runtime;
    assert(lines.take(1) == seq![a]);
    lemma_field(lines, gap, 1, a, label(LmLabel::Id), module.id@);
    lemma_field(lines, gap, 2, b, label(LmLabel::Version), module.version@);
    lemma_field(lines, gap, 3, c, label(LmLabel::Author), module.author@);
    lemma_field(lines, gap, 4, d, label(LmLabel::Status), enabled);
    lemma_field(lines, gap, 5, e, label(LmLabel::Source), managed);
    lemma_field(lines, gap, 6, f, label(LmLabel::Entrypoint), module.entrypoint@);
    lemma_field(lines, gap, 7, g, label(LmLabel::Protocol), "v"@ + version);
    lemma_field(lines, gap, 8, h, label(LmLabel::Capabilities), capabilities);
    lemma_field(lines, gap, 9, i, label(LmLabel::ProvidedCommands), commands);
    lemma_field(lines, gap, 10, j, label(LmLabel::Runtime), runtime);
    lemma_field(lines, gap, 11, k, label(LmLabel::LastError), last);
    assert(lines.take(12) == lines);
    reveal_strlit(": ");
    reveal_strlit("v");
    reveal_strlit(": v");
    assert(": v"@ == ": "@ + "v"@);
    lemma_protocol(g + gap + label(LmLabel::Protocol), version);
}

proof fn lemma_protocol(before: Seq<char>, version: Seq<char>)
    requires
        ": v"@ == ": "@ + "v"@,
    ensures
        before + ": v"@ + version == before + ": "@ + ("v"@ + version),
{
    assert(before + ": v"@ + version =~= before + ": "@ + ("v"@ + version));
}

/// The lines of a module's details.
pub open spec fn detail_lines(
    locale: Locale,
    module: ModuleInfo,
    statuses: Seq<ModuleStatus>,
    failure: Option<Seq<char>>,
) -> Seq<Seq<char>> {
    seq![
        "📦 "@ + module.display_name@,
        labelled(locale, LmLabel::Id, module.id@),
        labelled(locale, LmLabel::Version, module.version@),
        labelled(locale, LmLabel::Author, module.author@),
        labelled(locale, LmLabel::Status, info::enabled_label(locale, module.enabled)@),
        labelled(locale, LmLabel::Source, info::management_label(locale, module.management)@),
        labelled(locale, LmLabel::Entrypoint, module.entrypoint@),
        labelled(locale, LmLabel::Protocol, "v"@ + text::decimal(module.protocol_version as nat)),
        labelled(
            locale,
            LmLabel::Capabilities,
            info::names_label(locale, text::views(module.capabilities@)),
        ),
        labelled(
            locale,
            LmLabel::ProvidedCommands,
            info::names_label(locale, text::views(module.commands@)),
        ),
        labelled(locale, LmLabel::Runtime, info::runtime_label(locale, statuses, module.id@)),
        labelled(
            locale,
            LmLabel::LastError,
            match failure {
                Some(failure) => failure,
                None => lm_label(locale, LmLabel::Absent)@,
            },
        ),
    ]
}

/// The entry of a module in the diagnostics has a line for each thing that is told of it, and one more where it
/// has failed.
pub proof fn diagnostics_have_a_line_for_each_thing(
    locale: Locale,
    name: Seq<char>,
    id: Seq<char>,
    enabled: Seq<char>,
    runtime: Seq<char>,
    managed: Seq<char>,
    failure: Seq<char>,
)
    ensures
        ({
            let lines = seq![
                "• "@ + name,
                labelled(locale, LmLabel::Id, id),
                labelled(locale, LmLabel::Status, enabled),
                labelled(locale, LmLabel::Runtime, runtime),
                labelled(locale, LmLabel::Management, managed),
            ];
            &&& render::doctor_module_entry(locale, name, id, enabled, runtime, managed, None)
                == text::joined(lines, "\n  "@)
            &&& render::doctor_module_entry(locale, name, id, enabled, runtime, managed, Some(failure))
                == text::joined(
                lines.push(labelled(locale, LmLabel::LastFailure, failure)),
                "\n  "@,
            )
            &&& render::doctor_missing_entry(locale, id) == text::joined(
                seq![
                    "• "@ + id,
                    labelled(locale, LmLabel::Status, lm_label(locale, LmLabel::MissingCatalog)@),
                ],
                "\n  "@,
            )
        }),
{
    let gap = "\n  "@;
    let label = |key: LmLabel| lm_label(locale, key)@;
    let lines = seq![
        "• "@ + name,
        labelled(locale, LmLabel::Id, id),
        labelled(locale, LmLabel::Status, enabled),
        labelled(locale, LmLabel::Runtime, runtime),
        labelled(locale, LmLabel::Management, managed),
    ];
    let all = lines.push(labelled(locale, LmLabel::LastFailure, failure));
    let a = "• "@ + name;
    let b = a + gap + label(LmLabel::Id) + ": "@ + id;
    let c = b + gap + label(LmLabel::Status) + ": "@ + enabled;
    let d = c + gap + label(LmLabel::Runtime) + ": "@ + runtime;
    let e = d + gap + label(LmLabel::Management) + ": "@ + managed;
    assert(all.take(1) == seq![a]);
    lemma_field(all, gap, 1, a, label(LmLabel::Id), id);
    lemma_field(all, gap, 2, b, label(LmLabel::Status), enabled);
    lemma_field(all, gap, 3, c, label(LmLabel::Runtime), runtime);
    lemma_field(all, gap, 4, d, label(LmLabel::Management), managed);
    lemma_field(all, gap, 5, e, label(LmLabel::LastFailure), failure);
    assert(all.take(6) == all);
    assert(all.take(5) == lines);
    let two = seq![
        "• "@ + id,
        labelled(locale, LmLabel::Status, lm_label(locale, LmLabel::MissingCatalog)@),
    ];
    assert(two.take(1) == seq!["• "@ + id]);
    lemma_field(two, gap, 1, "• "@ + id, label(LmLabel::Status), label(LmLabel::MissingCatalog));
    assert(two.take(2) == two);
}

/// What is told of a module that was looked for: its details where it was found, and else what stood in the way.
pub proof fn lookups_are_told(
    locale: Locale,
    module: ModuleInfo,
    statuses: Seq<ModuleStatus>,
    failure: Option<Seq<char>>,
)
    ensures
        ({
            let told = |lookup: ModuleLookup| lm::details_text(locale, lookup, statuses, failure);
            &&& told(ModuleLookup::Found(module)) == lm::info_text_of(locale, module, statuses, failure)
            &&& told(ModuleLookup::Unavailable) == lm_text(locale, LmText::Unavailable)@
            &&& told(ModuleLookup::StateUnavailable) == lm_text(locale, LmText::StateUnavailable)@
            &&& told(ModuleLookup::InvalidInstalledModule) == lm_text(locale, LmText::InvalidManifest)@
            &&& told(ModuleLookup::ModuleNotInstalled) == lm_text(locale, LmText::NotInstalled)@
            &&& told(ModuleLookup::Failed) == lm_text(locale, LmText::NotInstalledOrUnavailable)@
        }),
{
}

/// The lines that are listed for a module that cannot be read.
pub open spec fn unreadable_lines(locale: Locale, entry: ModuleEntry) -> Seq<Seq<char>> {
    let name = match entry.id {
        Some(id) => id@,
        None => lm_label(locale, LmLabel::InvalidId)@,
    };
    seq![
        "• "@ + name,
        labelled(locale, LmLabel::Diagnostic, info::diagnostic_label(locale, entry.diagnostic)@),
        labelled(locale, LmLabel::Status, info::enabled_label(locale, entry.enabled)@),
        labelled(locale, LmLabel::Source, info::management_label(locale, entry.management)@),
    ]
}

/// A module that cannot be read is listed under its id, where it has one, with what is wrong, whether it is
/// enabled and who manages it.
pub proof fn unreadable_modules_are_listed(
    locale: Locale,
    entry: ModuleEntry,
    statuses: Seq<ModuleStatus>,
)
    requires
        entry.module is None,
    ensures
        lm::list_entry(locale, entry, statuses) == text::joined(
            unreadable_lines(locale, entry),
            "\n  "@,
        ),
{
    let gap = "\n  "@;
    let lines = unreadable_lines(locale, entry);
    let wrong = info::diagnostic_label(locale, entry.diagnostic)@;
    let enabled = info::enabled_label(locale, entry.enabled)@;
    let managed = info::management_label(locale, entry.management)@;
    let a = lines[0];
    let b = a + gap + lm_label(locale, LmLabel::Diagnostic)@ + ": "@ + wrong;
    let c = b + gap + lm_label(locale, LmLabel::Status)@ + ": "@ + enabled;
    assert(lines.take(1) == seq![a]);
    lemma_field(lines, gap, 1, a, lm_label(locale, LmLabel::Diagnostic)@, wrong);
    lemma_field(lines, gap, 2, b, lm_label(locale, LmLabel::Status)@, enabled);
    lemma_field(lines, gap, 3, c, lm_label(locale, LmLabel::Source)@, managed);
    assert(lines.take(4) == lines);
}

/// A module is looked at as it runs now where there is a runtime, and as it was last seen elsewhere; without
/// module management nothing can be listed.
pub proof fn reports_use_the_freshest_look(
    state: RuntimeState,
    fresh: Seq<ModuleStatus>,
    listing: ModuleListing,
)
    ensures
        state.external_manager ==> state.statuses(fresh) == fresh,
        !state.external_manager ==> state.statuses(fresh) == state.external_snapshot.module_statuses@,
        state.module_control is Some ==> state.listing(listing) == listing,
        state.module_control is None ==> state.listing(listing) is Unavailable,
{
}

} // verus!
