//! Answers to module-management commands.
use super::info::{
    capabilities_label, commands_label, diagnostic_label, enabled_label, management_label,
    runtime_status_from_snapshot, ModuleDiagnostic, ModuleManagement, ModuleStatus,
};
use crate::i18n::{
    lm_format, lm_label, lm_state_text, lm_text, render_lm_doctor_missing_catalog,
    render_lm_doctor_module, render_lm_doctor_report, render_lm_info, LmInfoResponse, LmLabel,
    LmText, Locale,
};
use crate::i18n::render;
use crate::response;
use crate::response::{Response, ResponseView};
use crate::runtime::info;
use crate::text;
use vstd::prelude::*;
use vstd::string::*;

verus! {

/// What the owner asked of module management.
pub enum LmRequest {
    Overview,
    List,
    Info { id: String },
    Logs { id: String },
    Doctor { id: Option<String> },
    Invalid,
    Install,
    Confirm { approval_id: String },
    Cancel { approval_id: String },
    Enable { id: String },
    Disable { id: String },
}

/// Whether a request changes which modules there are or run.
pub fn lm_request_mutates(request: &LmRequest) -> (mutates: bool)
    ensures
        mutates == (*request is Install || *request is Confirm || *request is Cancel
            || *request is Enable || *request is Disable),
{
    match request {
        LmRequest::Install
        | LmRequest::Confirm { .. }
        | LmRequest::Cancel { .. }
        | LmRequest::Enable { .. }
        | LmRequest::Disable { .. } => true,
        _ => false,
    }
}

/// How module management is used.
pub fn lm_usage(locale: Locale, prefix: &str) -> (usage: String)
    ensures
        usage@ == text::replaced(lm_text(locale, LmText::Usage)@, "{prefix}"@, prefix@),
{
    text::replace(lm_text(locale, LmText::Usage), "{prefix}", prefix)
}

/// The answer to a request that is not understood.
pub fn lm_invalid_usage_response(locale: Locale, prefix: &str) -> (response: Response)
    ensures
        response@ == response::plain_view(
            locale,
            text::replaced(lm_text(locale, LmText::Usage)@, "{prefix}"@, prefix@),
        ),
{
    Response::plain_with_locale(locale, lm_usage(locale, prefix).as_str())
}

/// An installed module that can be read.
pub struct ModuleInfo {
    pub display_name: String,
    pub id: String,
    pub version: String,
    pub author: String,
    pub enabled: bool,
    pub management: ModuleManagement,
    pub entrypoint: String,
    pub protocol_version: u32,
    pub capabilities: Vec<String>,
    pub commands: Vec<String>,
}

/// An installed module, whether or not it can be read.
pub struct ModuleEntry {
    pub id: Option<String>,
    pub module: Option<ModuleInfo>,
    pub diagnostic: Option<ModuleDiagnostic>,
    pub enabled: bool,
    pub management: ModuleManagement,
}

/// What is installed and what is enabled.
pub struct ModuleCatalog {
    pub entries: Vec<ModuleEntry>,
    pub enabled_ids: Vec<String>,
}

/// What looking at the installed modules gave.
pub enum ModuleListing {
    /// Module management is not set up.
    Unavailable,
    StateUnavailable,
    ListUnavailable,
    Listed(ModuleCatalog),
}

/// Whether an entry is installed under `id`.
pub open spec fn has_id(entry: ModuleEntry, id: Seq<char>) -> bool {
    entry.id matches Some(own) && own@ == id
}

/// Whether something is installed under `id`.
pub open spec fn listed(entries: Seq<ModuleEntry>, id: Seq<char>) -> bool {
    exists|i: int| 0 <= i < entries.len() && #[trigger] has_id(entries[i], id)
}

fn is_listed(entries: &Vec<ModuleEntry>, id: &str) -> (yes: bool)
    ensures
        yes == listed(entries@, id@),
{
    let mut i: usize = 0;
    while i < entries.len()
        invariant
            i <= entries@.len(),
            forall|j: int| 0 <= j < i ==> !#[trigger] has_id(entries@[j], id@),
        decreases entries@.len() - i,
    {
        if let Some(own) = &entries[i].id {
            if text::same_text(own.as_str(), id) {
                assert(has_id(entries@[i as int], id@));
                return true;
            }
        }
        assert(!has_id(entries@[i as int], id@));
        i = i + 1;
    }
    false
}

/// The enabled ids under which nothing is installed, and which `target` does not leave out.
pub open spec fn missing_ids(
    enabled_ids: Seq<Seq<char>>,
    entries: Seq<ModuleEntry>,
    target: Option<Seq<char>>,
) -> Seq<Seq<char>>
    decreases enabled_ids.len(),
{
    if enabled_ids.len() == 0 {
        Seq::empty()
    } else {
        let id = enabled_ids.last();
        let earlier = missing_ids(enabled_ids.drop_last(), entries, target);
        if listed(entries, id) || (target matches Some(target) && target != id) {
            earlier
        } else {
            earlier.push(id)
        }
    }
}

/// The entries of a report about ids under which nothing is installed.
pub open spec fn missing_entries(locale: Locale, ids: Seq<Seq<char>>) -> Seq<Seq<char>> {
    ids.map_values(|id: Seq<char>| render::doctor_missing_entry(locale, id))
}

/// Adds an entry to `lines` for each enabled id under which nothing is installed.
fn push_missing(
    locale: Locale,
    catalog: &ModuleCatalog,
    target: Option<&str>,
    lines: &mut Vec<String>,
)
    ensures
        text::views(final(lines)@) == text::views(old(lines)@) + missing_entries(
            locale,
            missing_ids(
                text::views(catalog.enabled_ids@),
                catalog.entries@,
                match target {
                    Some(target) => Some(target@),
                    None => None,
                },
            ),
        ),
{
    let ghost before = text::views(lines@);
    let ghost all = text::views(catalog.enabled_ids@);
    let ghost wanted: Option<Seq<char>> = match target {
        Some(target) => Some(target@),
        None => None,
    };
    let mut i: usize = 0;
    assert(before + missing_entries(locale, missing_ids(all.take(0), catalog.entries@, wanted))
        == before);
    while i < catalog.enabled_ids.len()
        invariant
            i <= catalog.enabled_ids@.len(),
            all == text::views(catalog.enabled_ids@),
            wanted == (match target {
                Some(target) => Some(target@),
                None => None,
            }),
            text::views(lines@) == before + missing_entries(
                locale,
                missing_ids(all.take(i as int), catalog.entries@, wanted),
            ),
        decreases catalog.enabled_ids@.len() - i,
    {
        let id = catalog.enabled_ids[i].as_str();
        let skipped = match target {
            Some(target) => !text::same_text(target, id),
            None => false,
        };
        let ghost earlier = missing_ids(all.take(i as int), catalog.entries@, wanted);
        assert(all.take(i + 1).drop_last() == all.take(i as int));
        if !skipped && !is_listed(&catalog.entries, id) {
            let line = render_lm_doctor_missing_catalog(locale, id);
            let ghost lines_before = lines@;
            let ghost shown = line@;
            lines.push(line);
            proof {
                assert(text::views(lines@) == text::views(lines_before).push(shown));
                assert(missing_entries(locale, earlier.push(id@)) == missing_entries(
                    locale,
                    earlier,
                ).push(shown));
                assert(before + missing_entries(locale, earlier).push(shown) == (before
                    + missing_entries(locale, earlier)).push(shown));
            }
        }
        i = i + 1;
    }
    assert(all.take(i as int) == all);
}

/// The entry of a module in the list.
pub open spec fn list_entry(
    locale: Locale,
    entry: ModuleEntry,
    statuses: Seq<ModuleStatus>,
) -> Seq<char> {
    match entry.module {
        Some(module) => "• "@ + module.display_name@ + "\n  "@ + lm_label(locale, LmLabel::Id)@
            + ": "@ + module.id@ + "\n  "@ + lm_label(locale, LmLabel::Version)@ + ": "@
            + module.version@ + "\n  "@ + lm_label(locale, LmLabel::Status)@ + ": "@
            + enabled_label(locale, module.enabled)@ + "\n  "@ + lm_label(locale, LmLabel::Source)@
            + ": "@ + management_label(locale, module.management)@ + "\n  "@ + lm_label(
            locale,
            LmLabel::Runtime,
        )@ + ": "@ + info::runtime_label(locale, statuses, module.id@) + "\n  "@ + lm_label(
            locale,
            LmLabel::Author,
        )@ + ": "@ + module.author@ + "\n  "@ + lm_label(locale, LmLabel::Commands)@ + ": "@
            + text::decimal(module.commands@.len()),
        None => "• "@ + (match entry.id {
            Some(id) => id@,
            None => lm_label(locale, LmLabel::InvalidId)@,
        }) + "\n  "@ + lm_label(locale, LmLabel::Diagnostic)@ + ": "@ + diagnostic_label(
            locale,
            entry.diagnostic,
        )@ + "\n  "@ + lm_label(locale, LmLabel::Status)@ + ": "@ + enabled_label(
            locale,
            entry.enabled,
        )@ + "\n  "@ + lm_label(locale, LmLabel::Source)@ + ": "@ + management_label(
            locale,
            entry.management,
        )@,
    }
}

fn push_field(line: &mut String, label: &str, value: &str)
    ensures
        final(line)@ == old(line)@ + "\n  "@ + label@ + ": "@ + value@,
{
    line.append("\n  ");
    line.append(label);
    line.append(": ");
    line.append(value);
}

fn render_list_entry(locale: Locale, entry: &ModuleEntry, statuses: &Vec<ModuleStatus>) -> (line:
    String)
    ensures
        line@ == list_entry(locale, *entry, statuses@),
{
    let mut line = "• ".to_owned();
    match &entry.module {
        Some(module) => {
            let runtime = runtime_status_from_snapshot(locale, statuses, module.id.as_str());
            let commands = text::to_decimal(module.commands.len() as u128);
            line.append(module.display_name.as_str());
            push_field(&mut line, lm_label(locale, LmLabel::Id), module.id.as_str());
            push_field(&mut line, lm_label(locale, LmLabel::Version), module.version.as_str());
            push_field(
                &mut line,
                lm_label(locale, LmLabel::Status),
                enabled_label(locale, module.enabled),
            );
            push_field(
                &mut line,
                lm_label(locale, LmLabel::Source),
                management_label(locale, module.management),
            );
            push_field(&mut line, lm_label(locale, LmLabel::Runtime), runtime.as_str());
            push_field(&mut line, lm_label(locale, LmLabel::Author), module.author.as_str());
            push_field(&mut line, lm_label(locale, LmLabel::Commands), commands.as_str());
        },
        None => {
            match &entry.id {
                Some(id) => line.append(id.as_str()),
                None => line.append(lm_label(locale, LmLabel::InvalidId)),
            }
            push_field(
                &mut line,
                lm_label(locale, LmLabel::Diagnostic),
                diagnostic_label(locale, entry.diagnostic),
            );
            push_field(
                &mut line,
                lm_label(locale, LmLabel::Status),
                enabled_label(locale, entry.enabled),
            );
            push_field(
                &mut line,
                lm_label(locale, LmLabel::Source),
                management_label(locale, entry.management),
            );
        },
    }
    line
}

/// The entries of the list: what is installed, then what is enabled but not installed.
pub open spec fn list_entries(
    locale: Locale,
    catalog: ModuleCatalog,
    statuses: Seq<ModuleStatus>,
) -> Seq<Seq<char>> {
    catalog.entries@.map_values(|entry: ModuleEntry| list_entry(locale, entry, statuses))
        + missing_entries(
        locale,
        missing_ids(text::views(catalog.enabled_ids@), catalog.entries@, None),
    )
}

/// The answer to a request for the list.
pub open spec fn list_view(
    locale: Locale,
    prefix: Seq<char>,
    listing: ModuleListing,
    statuses: Seq<ModuleStatus>,
) -> ResponseView {
    match listing {
        ModuleListing::Unavailable => response::plain_view(locale, lm_text(locale, LmText::Unavailable)@),
        ModuleListing::StateUnavailable => response::plain_view(
            locale,
            lm_text(locale, LmText::StateUnavailable)@,
        ),
        ModuleListing::ListUnavailable => response::plain_view(
            locale,
            lm_text(locale, LmText::ListUnavailable)@,
        ),
        ModuleListing::Listed(catalog) => {
            let entries = list_entries(locale, catalog, statuses);
            response::plain_view(
                locale,
                if entries.len() == 0 {
                    render::lm_formatted(locale, LmText::Empty, ""@, prefix)
                } else {
                    lm_text(locale, LmText::ListHeading)@ + "\n\n"@ + text::joined(
                        entries,
                        "\n\n"@,
                    )
                },
            )
        },
    }
}

/// [`list_view`] as a response.
pub fn render_lm_list(
    locale: Locale,
    prefix: &str,
    listing: &ModuleListing,
    statuses: &Vec<ModuleStatus>,
) -> (response: Response)
    ensures
        response@ == list_view(locale, prefix@, *listing, statuses@),
{
    let catalog = match listing {
        ModuleListing::Unavailable => {
            return Response::plain_with_locale(locale, lm_text(locale, LmText::Unavailable));
        },
        ModuleListing::StateUnavailable => {
            return Response::plain_with_locale(locale, lm_text(locale, LmText::StateUnavailable));
        },
        ModuleListing::ListUnavailable => {
            return Response::plain_with_locale(locale, lm_text(locale, LmText::ListUnavailable));
        },
        ModuleListing::Listed(catalog) => catalog,
    };
    let ghost shown = |entry: ModuleEntry| list_entry(locale, entry, statuses@);
    let mut lines: Vec<String> = Vec::new();
    let mut i: usize = 0;
    assert(text::views(lines@) == catalog.entries@.take(0).map_values(shown));
    while i < catalog.entries.len()
        invariant
            i <= catalog.entries@.len(),
            shown == (|entry: ModuleEntry| list_entry(locale, entry, statuses@)),
            text::views(lines@) == catalog.entries@.take(i as int).map_values(shown),
        decreases catalog.entries@.len() - i,
    {
        let line = render_list_entry(locale, &catalog.entries[i], statuses);
        let ghost before = lines@;
        let ghost rendered = line@;
        lines.push(line);
        proof {
            assert(text::views(lines@) == text::views(before).push(rendered));
            assert(catalog.entries@.take(i + 1).map_values(shown) == catalog.entries@.take(
                i as int,
            ).map_values(shown).push(shown(catalog.entries@[i as int])));
        }
        i = i + 1;
    }
    assert(catalog.entries@.take(i as int) == catalog.entries@);
    push_missing(locale, catalog, None, &mut lines);
    assert(text::views(lines@) == list_entries(locale, *catalog, statuses@));
    if lines.is_empty() {
        Response::plain_with_locale(locale, lm_format(locale, LmText::Empty, "", prefix).as_str())
    } else {
        let mut message = lm_text(locale, LmText::ListHeading).to_owned();
        message.append("\n\n");
        message.append(text::join(&lines, "\n\n").as_str());
        Response::plain_with_locale(locale, message.as_str())
    }
}

/// The last failure of a module, by its id.
pub struct ModuleFailure {
    pub id: String,
    pub summary: String,
}

/// The first failure recorded for `id`.
pub open spec fn failure_of(failures: Seq<ModuleFailure>, id: Seq<char>) -> Option<Seq<char>>
    decreases failures.len(),
{
    if failures.len() == 0 {
        None
    } else if failures[0].id@ == id {
        Some(failures[0].summary@)
    } else {
        failure_of(failures.skip(1), id)
    }
}

fn find_failure<'a>(failures: &'a Vec<ModuleFailure>, id: &str) -> (found: Option<&'a str>)
    ensures
        failure_of(failures@, id@) == (match found {
            Some(summary) => Some(summary@),
            None => None,
        }),
{
    let mut i: usize = 0;
    assert(failures@.skip(0) == failures@);
    while i < failures.len()
        invariant
            i <= failures@.len(),
            failure_of(failures@, id@) == failure_of(failures@.skip(i as int), id@),
        decreases failures@.len() - i,
    {
        if text::same_text(failures[i].id.as_str(), id) {
            return Some(failures[i].summary.as_str());
        }
        assert(failures@.skip(i as int).skip(1) == failures@.skip(i + 1));
        i = i + 1;
    }
    None
}

/// The entry of an installed module in a diagnostics report.
pub open spec fn doctor_entry(
    locale: Locale,
    module: ModuleInfo,
    statuses: Seq<ModuleStatus>,
    failures: Seq<ModuleFailure>,
) -> Seq<char> {
    render::doctor_module_entry(
        locale,
        module.display_name@,
        module.id@,
        enabled_label(locale, module.enabled)@,
        info::runtime_label(locale, statuses, module.id@),
        management_label(locale, module.management)@,
        failure_of(failures, module.id@),
    )
}

/// The entries of the installed modules that can be read and that `target` does not leave out.
pub open spec fn doctor_entries(
    locale: Locale,
    entries: Seq<ModuleEntry>,
    target: Option<Seq<char>>,
    statuses: Seq<ModuleStatus>,
    failures: Seq<ModuleFailure>,
) -> Seq<Seq<char>>
    decreases entries.len(),
{
    if entries.len() == 0 {
        Seq::empty()
    } else {
        let earlier = doctor_entries(locale, entries.drop_last(), target, statuses, failures);
        match entries.last().module {
            Some(module) => if target is Some && target != Some(module.id@) {
                earlier
            } else {
                earlier.push(doctor_entry(locale, module, statuses, failures))
            },
            None => earlier,
        }
    }
}

/// The answer to a request for diagnostics, on one module or on all. A module that is enabled but not
/// installed is reported as such; one that is installed is not.
pub open spec fn doctor_view(
    locale: Locale,
    target: Option<Seq<char>>,
    listing: ModuleListing,
    statuses: Seq<ModuleStatus>,
    failures: Seq<ModuleFailure>,
) -> ResponseView {
    match listing {
        ModuleListing::Unavailable => response::plain_view(locale, lm_text(locale, LmText::Unavailable)@),
        ModuleListing::StateUnavailable => response::plain_view(
            locale,
            lm_text(locale, LmText::StateUnavailable)@,
        ),
        ModuleListing::ListUnavailable => response::plain_view(
            locale,
            lm_text(locale, LmText::ListUnavailable)@,
        ),
        ModuleListing::Listed(catalog) => {
            let lines = doctor_entries(locale, catalog.entries@, target, statuses, failures)
                + missing_entries(
                locale,
                missing_ids(text::views(catalog.enabled_ids@), catalog.entries@, target),
            );
            response::plain_view(
                locale,
                match target {
                    Some(id) if lines.len() == 0 => render::lm_formatted(
                        locale,
                        LmText::NotFound,
                        id,
                        ""@,
                    ),
                    _ => render::doctor_report(locale, target, lines),
                },
            )
        },
    }
}

/// [`doctor_view`] as a response.
pub fn lm_doctor(
    locale: Locale,
    id: Option<&str>,
    listing: &ModuleListing,
    statuses: &Vec<ModuleStatus>,
    failures: &Vec<ModuleFailure>,
) -> (response: Response)
    ensures
        response@ == doctor_view(
            locale,
            match id {
                Some(id) => Some(id@),
                None => None,
            },
            *listing,
            statuses@,
            failures@,
        ),
{
    let catalog = match listing {
        ModuleListing::Unavailable => {
            return Response::plain_with_locale(locale, lm_text(locale, LmText::Unavailable));
        },
        ModuleListing::StateUnavailable => {
            return Response::plain_with_locale(locale, lm_text(locale, LmText::StateUnavailable));
        },
        ModuleListing::ListUnavailable => {
            return Response::plain_with_locale(locale, lm_text(locale, LmText::ListUnavailable));
        },
        ModuleListing::Listed(catalog) => catalog,
    };
    let ghost target: Option<Seq<char>> = match id {
        Some(id) => Some(id@),
        None => None,
    };
    let mut lines: Vec<String> = Vec::new();
    let mut i: usize = 0;
    assert(text::views(lines@) == Seq::<Seq<char>>::empty());
    while i < catalog.entries.len()
        invariant
            i <= catalog.entries@.len(),
            target == (match id {
                Some(id) => Some(id@),
                None => None,
            }),
            text::views(lines@) == doctor_entries(
                locale,
                catalog.entries@.take(i as int),
                target,
                statuses@,
                failures@,
            ),
        decreases catalog.entries@.len() - i,
    {
        assert(catalog.entries@.take(i + 1).drop_last() == catalog.entries@.take(i as int));
        if let Some(module) = &catalog.entries[i].module {
            let wanted = match id {
                Some(id) => text::same_text(module.id.as_str(), id),
                None => true,
            };
            if wanted {
                let runtime = runtime_status_from_snapshot(locale, statuses, module.id.as_str());
                let line = render_lm_doctor_module(
                    locale,
                    module.display_name.as_str(),
                    module.id.as_str(),
                    enabled_label(locale, module.enabled),
                    runtime.as_str(),
                    management_label(locale, module.management),
                    find_failure(failures, module.id.as_str()),
                );
                let ghost before = lines@;
                let ghost rendered = line@;
                lines.push(line);
                assert(text::views(lines@) == text::views(before).push(rendered));
            }
        }
        i = i + 1;
    }
    assert(catalog.entries@.take(i as int) == catalog.entries@);
    push_missing(locale, catalog, id, &mut lines);
    if let Some(id) = id {
        if lines.is_empty() {
            return Response::plain_with_locale(
                locale,
                lm_format(locale, LmText::NotFound, id, "").as_str(),
            );
        }
    }
    Response::plain_with_locale(locale, render_lm_doctor_report(locale, id, &lines).as_str())
}

proof fn lemma_missing_ids(
    enabled_ids: Seq<Seq<char>>,
    entries: Seq<ModuleEntry>,
    target: Option<Seq<char>>,
    id: Seq<char>,
)
    ensures
        missing_ids(enabled_ids, entries, target).contains(id) <==> enabled_ids.contains(id)
            && !listed(entries, id) && (target is None || target == Some(id)),
    decreases enabled_ids.len(),
{
    if enabled_ids.len() > 0 {
        let last = enabled_ids.last();
        let rest = enabled_ids.drop_last();
        let earlier = missing_ids(rest, entries, target);
        lemma_missing_ids(rest, entries, target, id);
        assert(enabled_ids == rest.push(last));
        assert(enabled_ids.contains(id) <==> rest.contains(id) || last == id) by {
            if rest.contains(id) {
                let i = choose|i: int| 0 <= i < rest.len() && rest[i] == id;
                assert(enabled_ids[i] == id);
            }
            if last == id {
                assert(enabled_ids[enabled_ids.len() - 1] == id);
            }
        }
        assert(earlier.push(last).contains(id) <==> earlier.contains(id) || last == id) by {
            if earlier.contains(id) {
                let i = choose|i: int| 0 <= i < earlier.len() && earlier[i] == id;
                assert(earlier.push(last)[i] == id);
            }
            if last == id {
                assert(earlier.push(last)[earlier.len() as int] == id);
            }
        }
    }
}

/// Diagnostics report an id as missing from the catalog exactly where it is enabled, nothing is
/// installed under it, and it is asked for.
pub proof fn missing_ids_are_enabled_but_not_installed(
    catalog: ModuleCatalog,
    target: Option<Seq<char>>,
    id: Seq<char>,
)
    ensures
        missing_ids(text::views(catalog.enabled_ids@), catalog.entries@, target).contains(id)
            <==> text::views(catalog.enabled_ids@).contains(id) && !listed(catalog.entries@, id) && (
        target is None || target == Some(id)),
{
    lemma_missing_ids(text::views(catalog.enabled_ids@), catalog.entries@, target, id);
}

/// What is told of the last failure of a module; without a module runtime there is none.
pub open spec fn logs_text(
    locale: Locale,
    runtime: bool,
    id: Seq<char>,
    diagnostic: Option<Seq<char>>,
) -> Seq<char> {
    if !runtime {
        lm_text(locale, LmText::RuntimeUnavailable)@
    } else {
        match diagnostic {
            Some(diagnostic) => render::lm_formatted(
                locale,
                LmText::LastModuleError,
                id,
                diagnostic,
            ),
            None => render::lm_formatted(locale, LmText::NoRuntimeError, id, ""@),
        }
    }
}

/// The answer to a request for the last failure of a module.
pub fn lm_logs(locale: Locale, runtime: bool, id: &str, diagnostic: Option<&str>) -> (response:
    Response)
    ensures
        response@ == response::plain_view(
            locale,
            logs_text(
                locale,
                runtime,
                id@,
                match diagnostic {
                    Some(diagnostic) => Some(diagnostic@),
                    None => None,
                },
            ),
        ),
{
    if !runtime {
        return Response::plain_with_locale(locale, lm_text(locale, LmText::RuntimeUnavailable));
    }
    match diagnostic {
        Some(diagnostic) => Response::plain_with_locale(
            locale,
            lm_format(locale, LmText::LastModuleError, id, diagnostic).as_str(),
        ),
        None => Response::plain_with_locale(
            locale,
            lm_format(locale, LmText::NoRuntimeError, id, "").as_str(),
        ),
    }
}

/// What looking for one installed module gave.
pub enum ModuleLookup {
    Unavailable,
    StateUnavailable,
    InvalidInstalledModule,
    ModuleNotInstalled,
    Failed,
    Found(ModuleInfo),
}

/// The details of a module, with its runtime status and its last failure.
pub open spec fn info_text_of(
    locale: Locale,
    module: ModuleInfo,
    statuses: Seq<ModuleStatus>,
    diagnostic: Option<Seq<char>>,
) -> Seq<char> {
    render::info_rendered(
        locale,
        module.display_name@,
        module.id@,
        module.version@,
        module.author@,
        enabled_label(locale, module.enabled)@,
        management_label(locale, module.management)@,
        module.entrypoint@,
        module.protocol_version,
        info::names_label(locale, text::views(module.capabilities@)),
        info::names_label(locale, text::views(module.commands@)),
        info::runtime_label(locale, statuses, module.id@),
        diagnostic,
    )
}

/// What is told of a module that was looked for.
pub open spec fn details_text(
    locale: Locale,
    lookup: ModuleLookup,
    statuses: Seq<ModuleStatus>,
    diagnostic: Option<Seq<char>>,
) -> Seq<char> {
    match lookup {
        ModuleLookup::Unavailable => lm_text(locale, LmText::Unavailable)@,
        ModuleLookup::StateUnavailable => lm_text(locale, LmText::StateUnavailable)@,
        ModuleLookup::InvalidInstalledModule => lm_text(locale, LmText::InvalidManifest)@,
        ModuleLookup::ModuleNotInstalled => lm_text(locale, LmText::NotInstalled)@,
        ModuleLookup::Failed => lm_text(locale, LmText::NotInstalledOrUnavailable)@,
        ModuleLookup::Found(module) => info_text_of(locale, module, statuses, diagnostic),
    }
}

/// The answer to a request for the details of a module.
pub fn lm_info(
    locale: Locale,
    lookup: &ModuleLookup,
    statuses: &Vec<ModuleStatus>,
    diagnostic: Option<&str>,
) -> (response: Response)
    ensures
        response@ == response::plain_view(
            locale,
            details_text(
                locale,
                *lookup,
                statuses@,
                match diagnostic {
                    Some(diagnostic) => Some(diagnostic@),
                    None => None,
                },
            ),
        ),
{
    let key = match lookup {
        ModuleLookup::Unavailable => LmText::Unavailable,
        ModuleLookup::StateUnavailable => LmText::StateUnavailable,
        ModuleLookup::InvalidInstalledModule => LmText::InvalidManifest,
        ModuleLookup::ModuleNotInstalled => LmText::NotInstalled,
        ModuleLookup::Failed => LmText::NotInstalledOrUnavailable,
        ModuleLookup::Found(module) => {
            let capabilities = capabilities_label(locale, &module.capabilities);
            let commands = commands_label(locale, &module.commands);
            let runtime = runtime_status_from_snapshot(locale, statuses, module.id.as_str());
            let info = LmInfoResponse {
                display_name: module.display_name.as_str(),
                id: module.id.as_str(),
                version: module.version.as_str(),
                author: module.author.as_str(),
                enabled: enabled_label(locale, module.enabled),
                management: management_label(locale, module.management),
                entrypoint: module.entrypoint.as_str(),
                protocol_version: module.protocol_version,
                capabilities: capabilities.as_str(),
                commands: commands.as_str(),
                runtime: runtime.as_str(),
                diagnostic,
            };
            return Response::plain_with_locale(locale, render_lm_info(locale, info).as_str());
        },
    };
    Response::plain_with_locale(locale, lm_text(locale, key))
}

/// What switching a module on or off gave.
pub enum SwitchOutcome {
    Unavailable,
    StateUnavailable,
    DeclarativelyManaged,
    Failed,
    Switched { changed: bool, display_name: String },
}

/// What is told of a switch.
pub open spec fn switch_text(
    locale: Locale,
    prefix: Seq<char>,
    outcome: SwitchOutcome,
    enabled: bool,
) -> Seq<char> {
    match outcome {
        SwitchOutcome::Unavailable => lm_text(locale, LmText::Unavailable)@,
        SwitchOutcome::StateUnavailable => lm_text(locale, LmText::StateUnavailable)@,
        SwitchOutcome::DeclarativelyManaged => lm_text(locale, LmText::Declarative)@,
        SwitchOutcome::Failed => lm_text(locale, LmText::StateChangeFailed)@,
        SwitchOutcome::Switched { changed, display_name } => crate::i18n::interpolated(
            lm_text(
                locale,
                if changed {
                    LmText::StateChanged
                } else {
                    LmText::StateUnchanged
                },
            )@,
            seq![
                ("id"@, display_name@),
                ("detail"@, enabled_label(locale, enabled)@),
                ("prefix"@, prefix),
            ],
        ),
    }
}

/// The answer to a request to switch a module on or off.
pub fn lm_set_enabled(locale: Locale, prefix: &str, outcome: &SwitchOutcome, enabled: bool) -> (response:
    Response)
    ensures
        response@ == response::plain_view(locale, switch_text(locale, prefix@, *outcome, enabled)),
{
    let key = match outcome {
        SwitchOutcome::Unavailable => LmText::Unavailable,
        SwitchOutcome::StateUnavailable => LmText::StateUnavailable,
        SwitchOutcome::DeclarativelyManaged => LmText::Declarative,
        SwitchOutcome::Failed => LmText::StateChangeFailed,
        SwitchOutcome::Switched { changed, display_name } => {
            let key = if *changed {
                LmText::StateChanged
            } else {
                LmText::StateUnchanged
            };
            let told = lm_state_text(
                locale,
                key,
                display_name.as_str(),
                enabled_label(locale, enabled),
                prefix,
            );
            return Response::plain_with_locale(locale, told.as_str());
        },
    };
    Response::plain_with_locale(locale, lm_text(locale, key))
}

impl super::RuntimeState {
    /// The modules as they run: a fresh look where there is a module runtime, else the last one.
    pub open spec fn statuses(self, fresh: Seq<ModuleStatus>) -> Seq<ModuleStatus> {
        if self.external_manager {
            fresh
        } else {
            self.external_snapshot.module_statuses@
        }
    }

    /// What is installed, as far as module management is set up.
    pub open spec fn listing(self, listing: ModuleListing) -> ModuleListing {
        if self.module_control is Some {
            listing
        } else {
            ModuleListing::Unavailable
        }
    }

    fn statuses_seen<'a>(&'a self, fresh: &'a Vec<ModuleStatus>) -> (statuses: &'a Vec<ModuleStatus>)
        ensures
            statuses@ == self.statuses(fresh@),
    {
        if self.external_manager {
            fresh
        } else {
            &self.external_snapshot.module_statuses
        }
    }

    /// The answer to a request for the list, given what is installed and how the modules run now.
    pub fn render_lm_list(&self, listing: &ModuleListing, fresh: &Vec<ModuleStatus>) -> (response:
        Response)
        ensures
            response@ == list_view(
                self.settings.language(),
                self.settings.prefix@,
                self.listing(*listing),
                self.statuses(fresh@),
            ),
    {
        let unavailable = ModuleListing::Unavailable;
        let listing = if self.module_control.is_some() {
            listing
        } else {
            &unavailable
        };
        render_lm_list(self.locale(), self.prefix(), listing, self.statuses_seen(fresh))
    }

    /// The answer to a request for diagnostics, given what is installed, how the modules run now, and
    /// what the module runtime tells of failures.
    pub fn lm_doctor(
        &self,
        id: Option<&str>,
        listing: &ModuleListing,
        fresh: &Vec<ModuleStatus>,
        failures: &Vec<ModuleFailure>,
    ) -> (response: Response)
        ensures
            response@ == doctor_view(
                self.settings.language(),
                match id {
                    Some(id) => Some(id@),
                    None => None,
                },
                self.listing(*listing),
                self.statuses(fresh@),
                if self.external_manager {
                    failures@
                } else {
                    Seq::empty()
                },
            ),
    {
        let unavailable = ModuleListing::Unavailable;
        let listing = if self.module_control.is_some() {
            listing
        } else {
            &unavailable
        };
        let none: Vec<ModuleFailure> = Vec::new();
        assert(none@ == Seq::<ModuleFailure>::empty());
        let failures = if self.external_manager {
            failures
        } else {
            &none
        };
        lm_doctor(self.locale(), id, listing, self.statuses_seen(fresh), failures)
    }

    /// The answer to a request for the details of a module.
    pub fn lm_info(
        &self,
        lookup: &ModuleLookup,
        fresh: &Vec<ModuleStatus>,
        diagnostic: Option<&str>,
    ) -> (response: Response)
        ensures
            response@ == response::plain_view(
                self.settings.language(),
                details_text(
                    self.settings.language(),
                    if self.module_control is Some {
                        *lookup
                    } else {
                        ModuleLookup::Unavailable
                    },
                    self.statuses(fresh@),
                    match diagnostic {
                        Some(diagnostic) if self.external_manager => Some(diagnostic@),
                        _ => None,
                    },
                ),
            ),
    {
        let unavailable = ModuleLookup::Unavailable;
        let lookup = if self.module_control.is_some() {
            lookup
        } else {
            &unavailable
        };
        let diagnostic = if self.external_manager {
            diagnostic
        } else {
            None
        };
        lm_info(self.locale(), lookup, self.statuses_seen(fresh), diagnostic)
    }

    /// The answer to a request for the last failure of a module.
    pub fn lm_logs(&self, id: &str, diagnostic: Option<&str>) -> (response: Response)
        ensures
            response@ == response::plain_view(
                self.settings.language(),
                logs_text(
                    self.settings.language(),
                    self.external_manager,
                    id@,
                    match diagnostic {
                        Some(diagnostic) => Some(diagnostic@),
                        None => None,
                    },
                ),
            ),
    {
        lm_logs(self.locale(), self.external_manager, id, diagnostic)
    }

    /// The answer to a request to switch a module on or off.
    pub fn lm_set_enabled(&self, outcome: &SwitchOutcome, enabled: bool) -> (response: Response)
        ensures
            response@ == response::plain_view(
                self.settings.language(),
                switch_text(
                    self.settings.language(),
                    self.settings.prefix@,
                    if self.module_control is Some {
                        *outcome
                    } else {
                        SwitchOutcome::Unavailable
                    },
                    enabled,
                ),
            ),
    {
        let unavailable = SwitchOutcome::Unavailable;
        let outcome = if self.module_control.is_some() {
            outcome
        } else {
            &unavailable
        };
        lm_set_enabled(self.locale(), self.prefix(), outcome, enabled)
    }

    /// The answer to a module-management request that is not understood.
    pub fn lm_invalid_usage_response(&self) -> (response: Response)
        ensures
            response@ == response::plain_view(
                self.settings.language(),
                text::replaced(
                    lm_text(self.settings.language(), LmText::Usage)@,
                    "{prefix}"@,
                    self.settings.prefix@,
                ),
            ),
    {
        lm_invalid_usage_response(self.locale(), self.prefix())
    }
}

/// The list of modules and the diagnostics can be sent, whatever is installed.
pub proof fn module_reports_are_sendable(
    locale: Locale,
    prefix: Seq<char>,
    target: Option<Seq<char>>,
    listing: ModuleListing,
    statuses: Seq<ModuleStatus>,
    failures: Seq<ModuleFailure>,
)
    ensures
        response::sendable(list_view(locale, prefix, listing, statuses)),
        response::sendable(doctor_view(locale, target, listing, statuses, failures)),
{
    assert forall|text: Seq<char>|
        response::sendable(#[trigger] response::plain_view(locale, text)) by {
        response::plain_is_sendable(locale, text);
    }
}

} // verus!
