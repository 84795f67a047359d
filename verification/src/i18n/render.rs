//! Messages rendered from the catalog and from values supplied by the caller.
use super::{
    external_command_template, info_text, interpolate, lm_label, lm_text, ping_template,
    reboot_template, response_text, stats_text, text, ExternalCommandText, InfoText, LmLabel,
    LmText, Locale, PingText, RebootText, ResponseText, StatsText, Text,
};
use crate::i18n;
use crate::text as chars;
use vstd::prelude::*;
use vstd::string::*;

verus! {

/// A restart message, with the seconds taken where the message tells them.
pub fn reboot_text(locale: Locale, key: RebootText, elapsed_seconds: Option<u64>) -> (message:
    String)
    ensures
        message@ == chars::replaced(
            reboot_template(locale, key)@,
            "{elapsed}"@,
            chars::decimal(
                match elapsed_seconds {
                    Some(seconds) => seconds as nat,
                    None => 0nat,
                },
            ),
        ),
{
    let seconds: u64 = match elapsed_seconds {
        Some(seconds) => seconds,
        None => 0,
    };
    chars::replace(
        reboot_template(locale, key),
        "{elapsed}",
        chars::to_decimal(seconds as u128).as_str(),
    )
}

/// The line that tells which external module a result comes from.
pub fn external_module_provenance(
    locale: Locale,
    display_name: &str,
    module_id: &str,
    version: &str,
) -> (line: String)
    ensures
        line@ == i18n::interpolated(
            response_text(locale, ResponseText::ExternalModuleProvenance)@,
            seq![("name"@, display_name@), ("id"@, module_id@), ("version"@, version@)],
        ),
{
    let values = vec![("name", display_name), ("id", module_id), ("version", version)];
    assert(i18n::named(values@) == seq![
        ("name"@, display_name@),
        ("id"@, module_id@),
        ("version"@, version@),
    ]);
    interpolate(response_text(locale, ResponseText::ExternalModuleProvenance), &values)
}

/// A latency report.
pub fn ping_text(locale: Locale, key: PingText, latency: &str) -> (message: String)
    ensures
        message@ == chars::replaced(ping_template(locale, key)@, "{latency}"@, latency@),
{
    chars::replace(ping_template(locale, key), "{latency}", latency)
}

/// What [`render_stats_text`] renders: the placeholders are filled in one after another.
pub open spec fn stats_rendered(
    locale: Locale,
    telegram: Seq<char>,
    lavis_uptime: Seq<char>,
    system_uptime: Seq<char>,
    memory: Seq<char>,
    commands: u64,
    version: Seq<char>,
) -> Seq<char> {
    chars::replaced(
        chars::replaced(
            chars::replaced(
                chars::replaced(
                    chars::replaced(
                        chars::replaced(
                            stats_text(locale, StatsText::Report)@,
                            "{telegram}"@,
                            telegram,
                        ),
                        "{lavis_uptime}"@,
                        lavis_uptime,
                    ),
                    "{system_uptime}"@,
                    system_uptime,
                ),
                "{memory}"@,
                memory,
            ),
            "{commands}"@,
            chars::decimal(commands as nat),
        ),
        "{version}"@,
        version,
    )
}

/// The statistics report.
pub fn render_stats_text(
    locale: Locale,
    telegram: &str,
    lavis_uptime: &str,
    system_uptime: &str,
    memory: &str,
    commands: u64,
    version: &str,
) -> (message: String)
    ensures
        message@ == stats_rendered(
            locale,
            telegram@,
            lavis_uptime@,
            system_uptime@,
            memory@,
            commands,
            version@,
        ),
{
    let filled = chars::replace(stats_text(locale, StatsText::Report), "{telegram}", telegram);
    let filled = chars::replace(filled.as_str(), "{lavis_uptime}", lavis_uptime);
    let filled = chars::replace(filled.as_str(), "{system_uptime}", system_uptime);
    let filled = chars::replace(filled.as_str(), "{memory}", memory);
    let filled = chars::replace(filled.as_str(), "{commands}", chars::to_decimal(commands as u128).as_str());
    let filled = chars::replace(filled.as_str(), "{version}", version);
    filled
}

/// What the instance summary tells.
pub struct InfoCaptionData<'a> {
    pub owner: &'a str,
    pub version: &'a str,
    pub commit: &'a str,
    pub upstream: &'a str,
    pub prefix: &'a str,
    pub active_modules: usize,
    pub total_modules: usize,
    pub host: &'a str,
    pub os: &'a str,
}

/// What [`fill_info_text`] renders: the placeholders are filled in one after another.
pub open spec fn info_filled(
    template: Seq<char>,
    owner: Seq<char>,
    version: Seq<char>,
    commit: Seq<char>,
    upstream: Seq<char>,
    prefix: Seq<char>,
    active_modules: nat,
    total_modules: nat,
    host: Seq<char>,
    os: Seq<char>,
) -> Seq<char> {
    chars::replaced(
        chars::replaced(
            chars::replaced(
                chars::replaced(
                    chars::replaced(
                        chars::replaced(
                            chars::replaced(
                                chars::replaced(
                                    chars::replaced(
                                        template,
                                        "{owner}"@,
                                        owner,
                                    ),
                                    "{version}"@,
                                    version,
                                ),
                                "{commit}"@,
                                commit,
                            ),
                            "{upstream}"@,
                            upstream,
                        ),
                        "{prefix}"@,
                        prefix,
                    ),
                    "{active}"@,
                    chars::decimal(active_modules),
                ),
                "{total}"@,
                chars::decimal(total_modules),
            ),
            "{host}"@,
            host,
        ),
        "{os}"@,
        os,
    )
}

/// The instance summary in the words of `template`.
pub fn fill_info_text(template: &str, info: InfoCaptionData<'_>) -> (message: String)
    ensures
        message@ == info_filled(
            template@,
            info.owner@,
            info.version@,
            info.commit@,
            info.upstream@,
            info.prefix@,
            info.active_modules as nat,
            info.total_modules as nat,
            info.host@,
            info.os@,
        ),
{
    let filled = chars::replace(template, "{owner}", info.owner);
    let filled = chars::replace(filled.as_str(), "{version}", info.version);
    let filled = chars::replace(filled.as_str(), "{commit}", info.commit);
    let filled = chars::replace(filled.as_str(), "{upstream}", info.upstream);
    let filled = chars::replace(filled.as_str(), "{prefix}", info.prefix);
    let filled = chars::replace(filled.as_str(), "{active}", chars::to_decimal(info.active_modules as u128).as_str());
    let filled = chars::replace(filled.as_str(), "{total}", chars::to_decimal(info.total_modules as u128).as_str());
    let filled = chars::replace(filled.as_str(), "{host}", info.host);
    let filled = chars::replace(filled.as_str(), "{os}", info.os);
    filled
}

/// The instance summary.
pub fn render_info_text(locale: Locale, info: InfoCaptionData<'_>) -> (message: String)
    ensures
        message@ == info_filled(
            info_text(locale, InfoText::Caption)@,
            info.owner@,
            info.version@,
            info.commit@,
            info.upstream@,
            info.prefix@,
            info.active_modules as nat,
            info.total_modules as nat,
            info.host@,
            info.os@,
        ),
{
    fill_info_text(info_text(locale, InfoText::Caption), info)
}

/// The failure of an external command; `detail` is the module's own text, where it has one.
pub fn external_command_text(
    locale: Locale,
    key: ExternalCommandText,
    module_id: &str,
    detail: Option<&str>,
) -> (message: String)
    ensures
        message@ == chars::replaced(
            chars::replaced(external_command_template(locale, key)@, "{id}"@, module_id@),
            "{detail}"@,
            match detail {
                Some(detail) => detail@,
                None => Seq::empty(),
            },
        ),
{
    let filled = chars::replace(external_command_template(locale, key), "{id}", module_id);
    match detail {
        Some(detail) => chars::replace(filled.as_str(), "{detail}", detail),
        None => {
            let nothing = String::new();
            chars::replace(filled.as_str(), "{detail}", nothing.as_str())
        },
    }
}

/// A module-management message about the module `id`.
pub fn lm_format(locale: Locale, key: LmText, id: &str, detail: &str) -> (message: String)
    ensures
        message@ == lm_formatted(locale, key, id@, detail@),
{
    lm_fill(lm_text(locale, key), id, detail)
}

/// What [`lm_format`] renders.
pub open spec fn lm_formatted(
    locale: Locale,
    key: LmText,
    id: Seq<char>,
    detail: Seq<char>,
) -> Seq<char> {
    lm_filled(lm_text(locale, key)@, id, detail)
}

/// A template about a module, with the module `id` and the `detail` filled in.
pub open spec fn lm_filled(template: Seq<char>, id: Seq<char>, detail: Seq<char>) -> Seq<char> {
    i18n::interpolated(template, seq![("id"@, id), ("detail"@, detail), ("prefix"@, detail)])
}

/// [`lm_filled`] as a string.
pub fn lm_fill(template: &str, id: &str, detail: &str) -> (message: String)
    ensures
        message@ == lm_filled(template@, id@, detail@),
{
    let values = vec![("id", id), ("detail", detail), ("prefix", detail)];
    assert(i18n::named(values@) == seq![
        ("id"@, id@),
        ("detail"@, detail@),
        ("prefix"@, detail@),
    ]);
    interpolate(template, &values)
}

/// A module-management message about the state of the module `id`.
pub fn lm_state_text(locale: Locale, key: LmText, id: &str, state: &str, prefix: &str) -> (message:
    String)
    ensures
        message@ == i18n::interpolated(
            lm_text(locale, key)@,
            seq![("id"@, id@), ("detail"@, state@), ("prefix"@, prefix@)],
        ),
{
    let values = vec![("id", id), ("detail", state), ("prefix", prefix)];
    assert(i18n::named(values@) == seq![
        ("id"@, id@),
        ("detail"@, state@),
        ("prefix"@, prefix@),
    ]);
    interpolate(lm_text(locale, key), &values)
}

/// What an installation plan tells.
pub struct LmInstallPlanText<'a> {
    pub source: &'a str,
    pub module: &'a str,
    pub version: &'a str,
    pub protocol: u32,
    pub entrypoint: &'a str,
    pub default_command: &'a str,
    pub sha256: &'a str,
    pub fingerprint: &'a str,
    pub archive_bytes: u64,
    pub file_count: usize,
    pub compressed_bytes: u64,
    pub expanded_bytes: u64,
    pub capabilities: &'a str,
    pub subscriptions: &'a str,
    pub methods: &'a str,
    pub actions: &'a str,
    pub warnings: &'a str,
    pub approval_id: &'a str,
    pub prefix: &'a str,
}

impl<'a> LmInstallPlanText<'a> {
    /// The placeholders of the plan and their values.
    pub open spec fn named_values(self) -> Seq<(Seq<char>, Seq<char>)> {
        seq![
            ("source"@, self.source@),
            ("module"@, self.module@),
            ("version"@, self.version@),
            ("entrypoint"@, self.entrypoint@),
            ("default_command"@, self.default_command@),
            ("sha256"@, self.sha256@),
            ("fingerprint"@, self.fingerprint@),
            ("capabilities"@, self.capabilities@),
            ("subscriptions"@, self.subscriptions@),
            ("methods"@, self.methods@),
            ("actions"@, self.actions@),
            ("warnings"@, self.warnings@),
            ("approval_id"@, self.approval_id@),
            ("prefix"@, self.prefix@),
            ("protocol"@, chars::decimal(self.protocol as nat)),
            ("archive_bytes"@, chars::decimal(self.archive_bytes as nat)),
            ("file_count"@, chars::decimal(self.file_count as nat)),
            ("compressed_bytes"@, chars::decimal(self.compressed_bytes as nat)),
            ("expanded_bytes"@, chars::decimal(self.expanded_bytes as nat)),
        ]
    }
}

/// The installation plan of a module package.
pub fn render_lm_install_plan(locale: Locale, plan: LmInstallPlanText<'_>) -> (message: String)
    ensures
        message@ == i18n::interpolated(
            lm_text(locale, LmText::InstallPlan)@,
            plan.named_values(),
        ),
{
    let protocol = chars::to_decimal(plan.protocol as u128);
    let archive_bytes = chars::to_decimal(plan.archive_bytes as u128);
    let file_count = chars::to_decimal(plan.file_count as u128);
    let compressed_bytes = chars::to_decimal(plan.compressed_bytes as u128);
    let expanded_bytes = chars::to_decimal(plan.expanded_bytes as u128);
    let values = vec![
        ("source", plan.source),
        ("module", plan.module),
        ("version", plan.version),
        ("entrypoint", plan.entrypoint),
        ("default_command", plan.default_command),
        ("sha256", plan.sha256),
        ("fingerprint", plan.fingerprint),
        ("capabilities", plan.capabilities),
        ("subscriptions", plan.subscriptions),
        ("methods", plan.methods),
        ("actions", plan.actions),
        ("warnings", plan.warnings),
        ("approval_id", plan.approval_id),
        ("prefix", plan.prefix),
        ("protocol", protocol.as_str()),
        ("archive_bytes", archive_bytes.as_str()),
        ("file_count", file_count.as_str()),
        ("compressed_bytes", compressed_bytes.as_str()),
        ("expanded_bytes", expanded_bytes.as_str()),
    ];
    assert(i18n::named(values@) == plan.named_values());
    interpolate(lm_text(locale, LmText::InstallPlan), &values)
}

/// What the details of a module tell.
pub struct LmInfoResponse<'a> {
    pub display_name: &'a str,
    pub id: &'a str,
    pub version: &'a str,
    pub author: &'a str,
    pub enabled: &'a str,
    pub management: &'a str,
    pub entrypoint: &'a str,
    pub protocol_version: u32,
    pub capabilities: &'a str,
    pub commands: &'a str,
    pub runtime: &'a str,
    pub diagnostic: Option<&'a str>,
}

/// What [`render_lm_info`] renders.
pub open spec fn info_rendered(
    locale: Locale,
    display_name: Seq<char>,
    id: Seq<char>,
    version: Seq<char>,
    author: Seq<char>,
    enabled: Seq<char>,
    management: Seq<char>,
    entrypoint: Seq<char>,
    protocol_version: u32,
    capabilities: Seq<char>,
    commands: Seq<char>,
    runtime: Seq<char>,
    diagnostic: Option<Seq<char>>,
) -> Seq<char> {
    "📦 "@ + display_name
        + "\n"@ + lm_label(locale, LmLabel::Id)@ + ": "@ + id
        + "\n"@ + lm_label(locale, LmLabel::Version)@ + ": "@ + version
        + "\n"@ + lm_label(locale, LmLabel::Author)@ + ": "@ + author
        + "\n"@ + lm_label(locale, LmLabel::Status)@ + ": "@ + enabled
        + "\n"@ + lm_label(locale, LmLabel::Source)@ + ": "@ + management
        + "\n"@ + lm_label(locale, LmLabel::Entrypoint)@ + ": "@ + entrypoint
        + "\n"@ + lm_label(locale, LmLabel::Protocol)@ + ": v"@ + chars::decimal(protocol_version as nat)
        + "\n"@ + lm_label(locale, LmLabel::Capabilities)@ + ": "@ + capabilities
        + "\n"@ + lm_label(locale, LmLabel::ProvidedCommands)@ + ": "@ + commands
        + "\n"@ + lm_label(locale, LmLabel::Runtime)@ + ": "@ + runtime
        + "\n"@ + lm_label(locale, LmLabel::LastError)@ + ": "@ + (match diagnostic {
        Some(diagnostic) => diagnostic,
        None => lm_label(locale, LmLabel::Absent)@,
    })
}

/// The details of a module.
pub fn render_lm_info(locale: Locale, info: LmInfoResponse<'_>) -> (message: String)
    ensures
        message@ == info_rendered(
            locale,
            info.display_name@,
            info.id@,
            info.version@,
            info.author@,
            info.enabled@,
            info.management@,
            info.entrypoint@,
            info.protocol_version,
            info.capabilities@,
            info.commands@,
            info.runtime@,
            match info.diagnostic {
                Some(diagnostic) => Some(diagnostic@),
                None => None,
            },
        ),
{
    let mut message = "📦 ".to_owned();
    message.append(info.display_name);
    message.append("\n");
    message.append(lm_label(locale, LmLabel::Id));
    message.append(": ");
    message.append(info.id);
    message.append("\n");
    message.append(lm_label(locale, LmLabel::Version));
    message.append(": ");
    message.append(info.version);
    message.append("\n");
    message.append(lm_label(locale, LmLabel::Author));
    message.append(": ");
    message.append(info.author);
    message.append("\n");
    message.append(lm_label(locale, LmLabel::Status));
    message.append(": ");
    message.append(info.enabled);
    message.append("\n");
    message.append(lm_label(locale, LmLabel::Source));
    message.append(": ");
    message.append(info.management);
    message.append("\n");
    message.append(lm_label(locale, LmLabel::Entrypoint));
    message.append(": ");
    message.append(info.entrypoint);
    message.append("\n");
    message.append(lm_label(locale, LmLabel::Protocol));
    message.append(": v");
    message.append(chars::to_decimal(info.protocol_version as u128).as_str());
    message.append("\n");
    message.append(lm_label(locale, LmLabel::Capabilities));
    message.append(": ");
    message.append(info.capabilities);
    message.append("\n");
    message.append(lm_label(locale, LmLabel::ProvidedCommands));
    message.append(": ");
    message.append(info.commands);
    message.append("\n");
    message.append(lm_label(locale, LmLabel::Runtime));
    message.append(": ");
    message.append(info.runtime);
    message.append("\n");
    message.append(lm_label(locale, LmLabel::LastError));
    message.append(": ");
    match info.diagnostic {
        Some(diagnostic) => message.append(diagnostic),
        None => message.append(lm_label(locale, LmLabel::Absent)),
    }
    message
}

/// What [`render_lm_doctor_module`] renders.
pub open spec fn doctor_module_entry(
    locale: Locale,
    display_name: Seq<char>,
    id: Seq<char>,
    enabled: Seq<char>,
    runtime: Seq<char>,
    management: Seq<char>,
    diagnostic: Option<Seq<char>>,
) -> Seq<char> {
    let entry = "• "@ + display_name + "\n  "@ + lm_label(locale, LmLabel::Id)@ + ": "@ + id
        + "\n  "@ + lm_label(locale, LmLabel::Status)@ + ": "@ + enabled + "\n  "@ + lm_label(
        locale,
        LmLabel::Runtime,
    )@ + ": "@ + runtime + "\n  "@ + lm_label(locale, LmLabel::Management)@ + ": "@ + management;
    match diagnostic {
        Some(diagnostic) => entry + "\n  "@ + lm_label(locale, LmLabel::LastFailure)@ + ": "@
            + diagnostic,
        None => entry,
    }
}

/// The entry of one installed module in a diagnostics report.
pub fn render_lm_doctor_module(
    locale: Locale,
    display_name: &str,
    id: &str,
    enabled: &str,
    runtime: &str,
    management: &str,
    diagnostic: Option<&str>,
) -> (entry: String)
    ensures
        entry@ == doctor_module_entry(
            locale,
            display_name@,
            id@,
            enabled@,
            runtime@,
            management@,
            match diagnostic {
                Some(diagnostic) => Some(diagnostic@),
                None => None,
            },
        ),
{
    let mut entry = "• ".to_owned();
    entry.append(display_name);
    entry.append("\n  ");
    entry.append(lm_label(locale, LmLabel::Id));
    entry.append(": ");
    entry.append(id);
    entry.append("\n  ");
    entry.append(lm_label(locale, LmLabel::Status));
    entry.append(": ");
    entry.append(enabled);
    entry.append("\n  ");
    entry.append(lm_label(locale, LmLabel::Runtime));
    entry.append(": ");
    entry.append(runtime);
    entry.append("\n  ");
    entry.append(lm_label(locale, LmLabel::Management));
    entry.append(": ");
    entry.append(management);
    if let Some(diagnostic) = diagnostic {
        entry.append("\n  ");
        entry.append(lm_label(locale, LmLabel::LastFailure));
        entry.append(": ");
        entry.append(diagnostic);
    }
    entry
}

/// What [`render_lm_doctor_missing_catalog`] renders.
pub open spec fn doctor_missing_entry(locale: Locale, id: Seq<char>) -> Seq<char> {
    "• "@ + id + "\n  "@ + lm_label(locale, LmLabel::Status)@ + ": "@ + lm_label(
        locale,
        LmLabel::MissingCatalog,
    )@
}

/// The entry of a module that the state knows and the catalog does not.
pub fn render_lm_doctor_missing_catalog(locale: Locale, id: &str) -> (entry: String)
    ensures
        entry@ == doctor_missing_entry(locale, id@),
{
    let mut entry = "• ".to_owned();
    entry.append(id);
    entry.append("\n  ");
    entry.append(lm_label(locale, LmLabel::Status));
    entry.append(": ");
    entry.append(lm_label(locale, LmLabel::MissingCatalog));
    entry
}

/// What [`render_lm_doctor_report`] renders.
pub open spec fn doctor_report(
    locale: Locale,
    target: Option<Seq<char>>,
    entries: Seq<Seq<char>>,
) -> Seq<char> {
    let heading = match target {
        Some(id) => lm_formatted(locale, LmText::DoctorModuleHeading, id, ""@),
        None => lm_text(locale, LmText::DoctorHeading)@,
    };
    let body = if entries.len() == 0 {
        lm_text(locale, LmText::DoctorEmpty)@
    } else {
        chars::joined(entries, "\n\n"@)
    };
    heading + "\n\n"@ + body
}

/// A diagnostics report, on one module or on all.
pub fn render_lm_doctor_report(locale: Locale, target: Option<&str>, entries: &Vec<String>) -> (report:
    String)
    ensures
        report@ == doctor_report(
            locale,
            match target {
                Some(id) => Some(id@),
                None => None,
            },
            chars::views(entries@),
        ),
{
    let mut report = match target {
        Some(id) => lm_format(locale, LmText::DoctorModuleHeading, id, ""),
        None => lm_text(locale, LmText::DoctorHeading).to_owned(),
    };
    report.append("\n\n");
    if entries.is_empty() {
        report.append(lm_text(locale, LmText::DoctorEmpty));
    } else {
        report.append(chars::join(entries, "\n\n").as_str());
    }
    report
}

/// A message in both languages, one line each, with the command prefix filled in.
pub fn bilingual(key: Text, prefix: &str) -> (message: String)
    ensures
        message@ == chars::replaced(text(Locale::English, key)@, "{prefix}"@, prefix@) + "\n"@
            + chars::replaced(text(Locale::Russian, key)@, "{prefix}"@, prefix@),
{
    let mut message = chars::replace(text(Locale::English, key), "{prefix}", prefix);
    message.append("\n");
    message.append(chars::replace(text(Locale::Russian, key), "{prefix}", prefix).as_str());
    message
}

proof fn lemma_regrouped(a: Seq<char>, b: Seq<char>, c: Seq<char>)
    ensures
        (a + b) + c == a + (b + c),
{
    assert((a + b) + c =~= a + (b + c));
}

/// Seven texts in a row, read from the right.
proof fn lemma_row(
    a: Seq<char>,
    b: Seq<char>,
    c: Seq<char>,
    d: Seq<char>,
    e: Seq<char>,
    f: Seq<char>,
    g: Seq<char>,
)
    ensures
        a + b + c + d + e + f + g == a + (b + (c + (d + (e + (f + g))))),
{
    lemma_regrouped(a + b + c + d + e, f, g);
    lemma_regrouped(a + b + c + d, e, f + g);
    lemma_regrouped(a + b + c, d, e + (f + g));
    lemma_regrouped(a + b, c, d + (e + (f + g)));
    lemma_regrouped(a, b, c + (d + (e + (f + g))));
}

proof fn lemma_filled(
    before: Seq<char>,
    key: Seq<char>,
    value: Seq<char>,
    rest: Seq<char>,
    values: Seq<(Seq<char>, Seq<char>)>,
)
    requires
        !before.contains('{'),
        !key.contains('}'),
        i18n::value_of(values, key) == Some(value),
    ensures
        i18n::interpolated(before + ((seq!['{'] + key + seq!['}']) + rest), values) == before + (
        value + i18n::interpolated(rest, values)),
{
    i18n::values_are_inserted_verbatim(before, key, rest, values);
    lemma_regrouped(before + seq!['{'] + key, seq!['}'], rest);
    lemma_regrouped(before + seq!['{'], key, seq!['}'] + rest);
    lemma_regrouped(before, seq!['{'], key + (seq!['}'] + rest));
    lemma_regrouped(seq!['{'] + key, seq!['}'], rest);
    lemma_regrouped(seq!['{'], key, seq!['}'] + rest);
    lemma_regrouped(before, value, i18n::interpolated(rest, values));
}

proof fn lemma_provenance(
    template: Seq<char>,
    opening: Seq<char>,
    closing: Seq<char>,
    name: Seq<char>,
    id: Seq<char>,
    version: Seq<char>,
)
    requires
        template == opening + "{name}"@ + "» ("@ + "{id}"@ + " v"@ + "{version}"@ + closing,
        !opening.contains('{'),
        !closing.contains('{'),
    ensures
        i18n::interpolated(
            template,
            seq![("name"@, name), ("id"@, id), ("version"@, version)],
        ) == opening + name + "» ("@ + id + " v"@ + version + closing,
{
    let values = seq![("name"@, name), ("id"@, id), ("version"@, version)];
    assert("{name}"@ == seq!['{'] + "name"@ + seq!['}'] && !"name"@.contains('}')
        && "name"@.len() == 4) by {
        reveal_strlit("{name}");
        reveal_strlit("name");
    }
    assert("{id}"@ == seq!['{'] + "id"@ + seq!['}'] && !"id"@.contains('}') && "id"@.len() == 2) by {
        reveal_strlit("{id}");
        reveal_strlit("id");
    }
    assert("{version}"@ == seq!['{'] + "version"@ + seq!['}'] && !"version"@.contains('}')
        && "version"@.len() == 7) by {
        reveal_strlit("{version}");
        reveal_strlit("version");
    }
    assert(!"» ("@.contains('{') && !" v"@.contains('{')) by {
        reveal_strlit("» (");
        reveal_strlit(" v");
    }
    assert(values.skip(1) == seq![("id"@, id), ("version"@, version)]);
    assert(values.skip(1).skip(1) == seq![("version"@, version)]);
    assert(i18n::value_of(values, "name"@) == Some(name));
    assert(i18n::value_of(values, "id"@) == Some(id)) by {
        reveal_with_fuel(i18n::value_of, 3);
    }
    assert(i18n::value_of(values, "version"@) == Some(version)) by {
        reveal_with_fuel(i18n::value_of, 4);
    }
    let third = " v"@ + ("{version}"@ + closing);
    let second = "» ("@ + ("{id}"@ + third);
    lemma_row(opening, "{name}"@, "» ("@, "{id}"@, " v"@, "{version}"@, closing);
    lemma_filled(opening, "name"@, name, second, values);
    lemma_filled("» ("@, "id"@, id, third, values);
    lemma_filled(" v"@, "version"@, version, closing, values);
    i18n::texts_without_placeholders_are_kept(closing, values);
    lemma_row(opening, name, "» ("@, id, " v"@, version, closing);
}

/// The provenance of a result names the module, its id and its version exactly as they are given,
/// whatever braces they hold.
pub proof fn provenance_names_the_module(
    locale: Locale,
    name: Seq<char>,
    id: Seq<char>,
    version: Seq<char>,
)
    ensures
        i18n::interpolated(
            response_text(locale, ResponseText::ExternalModuleProvenance)@,
            seq![("name"@, name), ("id"@, id), ("version"@, version)],
        ) == (match locale {
            Locale::English => "⚠️ External module «"@ + name + "» ("@ + id + " v"@ + version
                + ") — code runs without a sandbox."@,
            Locale::Russian => "⚠️ Внешний модуль «"@ + name + "» ("@ + id + " v"@ + version
                + ") — код без песочницы."@,
        }),
{
    reveal_strlit("{name}");
    reveal_strlit("{id}");
    reveal_strlit("{version}");
    reveal_strlit("» (");
    reveal_strlit(" v");
    match locale {
        Locale::English => {
            let template = "⚠️ External module «{name}» ({id} v{version}) — code runs without a sandbox."@;
            reveal_strlit("⚠️ External module «{name}» ({id} v{version}) — code runs without a sandbox.");
            reveal_strlit("⚠️ External module «");
            reveal_strlit(") — code runs without a sandbox.");
            assert(template == "⚠️ External module «"@ + "{name}"@ + "» ("@ + "{id}"@ + " v"@ + "{version}"@
                + ") — code runs without a sandbox."@);
            lemma_provenance(template, "⚠️ External module «"@, ") — code runs without a sandbox."@, name, id, version);
        },
        Locale::Russian => {
            let template = "⚠️ Внешний модуль «{name}» ({id} v{version}) — код без песочницы."@;
            reveal_strlit("⚠️ Внешний модуль «{name}» ({id} v{version}) — код без песочницы.");
            reveal_strlit("⚠️ Внешний модуль «");
            reveal_strlit(") — код без песочницы.");
            assert(template == "⚠️ Внешний модуль «"@ + "{name}"@ + "» ("@ + "{id}"@ + " v"@ + "{version}"@
                + ") — код без песочницы."@);
            lemma_provenance(template, "⚠️ Внешний модуль «"@, ") — код без песочницы."@, name, id, version);
        },
    }
}

} // verus!
