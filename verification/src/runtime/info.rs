//! Labels, measurements and reports.
use super::upstream::{RevisionRelation, VersionRelation};
use crate::i18n::{
    fastfetch_text, lm_label, lm_runtime_status, render_stats_text, stats_text,
    ExternalModuleRuntimeStatus, FastfetchText, LmLabel, Locale, StatsText,
};
use crate::response;
use crate::response::{Response, ResponseView};
use crate::text;
use vstd::prelude::*;
use vstd::string::*;

verus! {

/// The name of a module's switch position.
#[verifier::allow_in_spec]
pub fn enabled_label(locale: Locale, enabled: bool) -> &'static str
    returns
        lm_label(
            locale,
            if enabled {
                LmLabel::Enabled
            } else {
                LmLabel::Disabled
            },
        ),
{
    if enabled {
        lm_label(locale, LmLabel::Enabled)
    } else {
        lm_label(locale, LmLabel::Disabled)
    }
}

/// Who decides whether a module is enabled.
#[derive(Clone, Copy, Debug, PartialEq, Eq, Structural)]
pub enum ModuleManagement {
    Manual,
    DeclarativeNixOs,
}

/// The name of a module's management.
#[verifier::allow_in_spec]
pub fn management_label(locale: Locale, management: ModuleManagement) -> &'static str
    returns
        lm_label(
            locale,
            match management {
                ModuleManagement::Manual => LmLabel::Manual,
                ModuleManagement::DeclarativeNixOs => LmLabel::Declarative,
            },
        ),
{
    match management {
        ModuleManagement::Manual => lm_label(locale, LmLabel::Manual),
        ModuleManagement::DeclarativeNixOs => lm_label(locale, LmLabel::Declarative),
    }
}

/// Why an installed module cannot be read.
#[derive(Clone, Copy, Debug, PartialEq, Eq, Structural)]
pub enum ModuleDiagnostic {
    InvalidModuleId,
    InvalidManifest,
}

/// The name of a module's diagnostic.
#[verifier::allow_in_spec]
pub fn diagnostic_label(locale: Locale, diagnostic: Option<ModuleDiagnostic>) -> &'static str
    returns
        lm_label(
            locale,
            match diagnostic {
                Some(ModuleDiagnostic::InvalidModuleId) => LmLabel::InvalidId,
                Some(ModuleDiagnostic::InvalidManifest) => LmLabel::InvalidManifest,
                None => LmLabel::Absent,
            },
        ),
{
    match diagnostic {
        Some(ModuleDiagnostic::InvalidModuleId) => lm_label(locale, LmLabel::InvalidId),
        Some(ModuleDiagnostic::InvalidManifest) => lm_label(locale, LmLabel::InvalidManifest),
        None => lm_label(locale, LmLabel::Absent),
    }
}

/// What a module process was doing when it was last looked at.
#[derive(Clone, Debug, PartialEq, Eq)]
pub struct ModuleStatus {
    pub id: String,
    pub status: ExternalModuleRuntimeStatus,
}

/// The first status recorded for `id`.
pub open spec fn status_of(
    statuses: Seq<ModuleStatus>,
    id: Seq<char>,
) -> Option<ExternalModuleRuntimeStatus>
    decreases statuses.len(),
{
    if statuses.len() == 0 {
        None
    } else if statuses[0].id@ == id {
        Some(statuses[0].status)
    } else {
        status_of(statuses.skip(1), id)
    }
}

/// The label of a recorded status; a module without one is not running.
pub open spec fn runtime_label(
    locale: Locale,
    statuses: Seq<ModuleStatus>,
    id: Seq<char>,
) -> Seq<char> {
    match status_of(statuses, id) {
        Some(status) => lm_runtime_status(locale, status)@,
        None => lm_label(locale, LmLabel::NotRunning)@,
    }
}

/// [`runtime_label`] as a string.
pub fn runtime_status_from_snapshot(locale: Locale, statuses: &Vec<ModuleStatus>, id: &str) -> (label:
    String)
    ensures
        label@ == runtime_label(locale, statuses@, id@),
{
    let mut i: usize = 0;
    assert(statuses@.skip(0) == statuses@);
    while i < statuses.len()
        invariant
            i <= statuses@.len(),
            status_of(statuses@, id@) == status_of(statuses@.skip(i as int), id@),
        decreases statuses@.len() - i,
    {
        if text::same_text(statuses[i].id.as_str(), id) {
            return lm_runtime_status(locale, statuses[i].status).to_owned();
        }
        assert(statuses@.skip(i as int).skip(1) == statuses@.skip(i + 1));
        i = i + 1;
    }
    lm_label(locale, LmLabel::NotRunning).to_owned()
}

/// The label of a module: from the fresh look where there was one, else from the cached one.
pub fn fresh_runtime_status(
    locale: Locale,
    fresh: Option<&Vec<ModuleStatus>>,
    cached: &Vec<ModuleStatus>,
    id: &str,
) -> (label: String)
    ensures
        label@ == runtime_label(
            locale,
            match fresh {
                Some(fresh) => fresh@,
                None => cached@,
            },
            id@,
        ),
{
    match fresh {
        Some(fresh) => runtime_status_from_snapshot(locale, fresh, id),
        None => runtime_status_from_snapshot(locale, cached, id),
    }
}

/// Names in a row, or the word for none.
pub open spec fn names_label(locale: Locale, names: Seq<Seq<char>>) -> Seq<char> {
    if names.len() == 0 {
        lm_label(locale, LmLabel::Absent)@
    } else {
        text::joined(names, ", "@)
    }
}

/// The capabilities of a module, by their names.
pub fn capabilities_label(locale: Locale, capabilities: &Vec<String>) -> (label: String)
    ensures
        label@ == names_label(locale, text::views(capabilities@)),
{
    if capabilities.is_empty() {
        lm_label(locale, LmLabel::Absent).to_owned()
    } else {
        text::join(capabilities, ", ")
    }
}

/// The commands of a module, by their names.
pub fn commands_label(locale: Locale, commands: &Vec<String>) -> (label: String)
    ensures
        label@ == names_label(locale, text::views(commands@)),
{
    if commands.is_empty() {
        lm_label(locale, LmLabel::Absent).to_owned()
    } else {
        text::join(commands, ", ")
    }
}

/// The most items that a bounded list shows.
pub const MAX_ITEMS: usize = 8;

/// The most characters of an item that a bounded list shows.
pub const MAX_VALUE_CHARS: usize = 96;

/// What stands for the items that a bounded list leaves out.
pub open spec fn remaining_label(locale: Locale, remaining: nat) -> Seq<char> {
    match locale {
        Locale::English => "+"@ + text::decimal(remaining),
        Locale::Russian => "ещё "@ + text::decimal(remaining),
    }
}

/// The items that a bounded list shows.
pub open spec fn bounded_items(locale: Locale, values: Seq<Seq<char>>) -> Seq<Seq<char>> {
    let cut = |value: Seq<char>| text::first_chars(value, MAX_VALUE_CHARS as nat);
    if values.len() > MAX_ITEMS {
        values.take(MAX_ITEMS as int).map_values(cut).push(
            remaining_label(locale, (values.len() - MAX_ITEMS) as nat),
        )
    } else {
        values.map_values(cut)
    }
}

/// The first items in a row, each cut to a limit, and how many more there are.
pub fn bounded_list(locale: Locale, values: &Vec<String>) -> (list: String)
    ensures
        list@ == names_label(locale, bounded_items(locale, text::views(values@))),
{
    if values.is_empty() {
        return lm_label(locale, LmLabel::Absent).to_owned();
    }
    let ghost all = text::views(values@);
    let ghost cut = |value: Seq<char>| text::first_chars(value, MAX_VALUE_CHARS as nat);
    let mut shown: Vec<String> = Vec::new();
    let count: usize = if values.len() > MAX_ITEMS {
        MAX_ITEMS
    } else {
        values.len()
    };
    let mut i: usize = 0;
    assert(text::views(shown@) == all.take(0).map_values(cut));
    while i < count
        invariant
            i <= count <= values@.len(),
            all == text::views(values@),
            cut == (|value: Seq<char>| text::first_chars(value, MAX_VALUE_CHARS as nat)),
            text::views(shown@) == all.take(i as int).map_values(cut),
        decreases count - i,
    {
        let item = text::take_chars(values[i].as_str(), MAX_VALUE_CHARS);
        let ghost before = shown@;
        let ghost value = item@;
        shown.push(item);
        proof {
            assert(text::views(shown@) == text::views(before).push(value));
            assert(all.take(i + 1).map_values(cut) == all.take(i as int).map_values(cut).push(
                cut(all[i as int]),
            ));
        }
        i = i + 1;
    }
    if values.len() > MAX_ITEMS {
        let mut more = match locale {
            Locale::English => "+".to_owned(),
            Locale::Russian => "ещё ".to_owned(),
        };
        more.append(text::to_decimal((values.len() - MAX_ITEMS) as u128).as_str());
        let ghost before = shown@;
        let ghost value = more@;
        shown.push(more);
        assert(text::views(shown@) == text::views(before).push(value));
    } else {
        assert(all.take(i as int) == all);
    }
    assert(text::views(shown@) == bounded_items(locale, all));
    text::join(&shown, ", ")
}

/// However many values there are, a bounded list shows at most one item more than [`MAX_ITEMS`],
/// and none of the values in more than [`MAX_VALUE_CHARS`] characters.
pub proof fn bounded_lists_are_bounded(locale: Locale, values: Seq<Seq<char>>, i: int)
    requires
        0 <= i < bounded_items(locale, values).len(),
    ensures
        bounded_items(locale, values).len() <= MAX_ITEMS + 1,
        i < MAX_ITEMS ==> bounded_items(locale, values)[i].len() <= MAX_VALUE_CHARS,
        i < MAX_ITEMS && values[i].len() <= MAX_VALUE_CHARS ==> bounded_items(locale, values)[i]
            == values[i],
{
}

/// What is wrong with the arguments of the system summary.
#[derive(Clone, Copy, Debug, PartialEq, Eq, Structural)]
pub enum FastfetchInputError {
    Tokenization,
    UnsupportedOption,
    MissingValue,
    DuplicateOption,
    InvalidLogo,
    InvalidStructure,
    InvalidSeparator,
    InvalidLogoPadding,
}

/// What is wrong with the profile of the system summary.
#[derive(Clone, Copy, Debug, PartialEq, Eq, Structural)]
pub enum FastfetchProfileError {
    NotReadable,
    Malformed,
    UnsupportedVersion,
    TooLarge,
    UnsafePath,
    InvalidLogo,
    InvalidStructure,
    InvalidSeparator,
    InvalidLogoPadding,
}

/// How the system summary ended.
pub enum FastfetchResult {
    Success(Response),
    Empty,
    TimedOut,
    Unavailable,
    NonZero { code: i32, stderr: String },
    UnexpectedStatus,
    InvalidArguments(FastfetchInputError),
    ProfileError(FastfetchProfileError),
}

/// The message of a profile error.
#[verifier::allow_in_spec]
pub fn fastfetch_profile_error_text(error: FastfetchProfileError) -> FastfetchText
    returns
        (match error {
            FastfetchProfileError::NotReadable => FastfetchText::ProfileNotReadable,
            FastfetchProfileError::Malformed => FastfetchText::ProfileMalformed,
            FastfetchProfileError::UnsupportedVersion => FastfetchText::ProfileUnsupportedVersion,
            FastfetchProfileError::TooLarge => FastfetchText::ProfileTooLarge,
            FastfetchProfileError::UnsafePath => FastfetchText::ProfileUnsafePath,
            FastfetchProfileError::InvalidLogo => FastfetchText::ProfileInvalidLogo,
            FastfetchProfileError::InvalidStructure => FastfetchText::ProfileInvalidStructure,
            FastfetchProfileError::InvalidSeparator => FastfetchText::ProfileInvalidSeparator,
            FastfetchProfileError::InvalidLogoPadding => FastfetchText::ProfileInvalidLogoPadding,
        }),
{
    match error {
        FastfetchProfileError::NotReadable => FastfetchText::ProfileNotReadable,
        FastfetchProfileError::Malformed => FastfetchText::ProfileMalformed,
        FastfetchProfileError::UnsupportedVersion => FastfetchText::ProfileUnsupportedVersion,
        FastfetchProfileError::TooLarge => FastfetchText::ProfileTooLarge,
        FastfetchProfileError::UnsafePath => FastfetchText::ProfileUnsafePath,
        FastfetchProfileError::InvalidLogo => FastfetchText::ProfileInvalidLogo,
        FastfetchProfileError::InvalidStructure => FastfetchText::ProfileInvalidStructure,
        FastfetchProfileError::InvalidSeparator => FastfetchText::ProfileInvalidSeparator,
        FastfetchProfileError::InvalidLogoPadding => FastfetchText::ProfileInvalidLogoPadding,
    }
}

/// The message of an argument error.
#[verifier::allow_in_spec]
pub fn fastfetch_input_text(error: FastfetchInputError) -> FastfetchText
    returns
        (match error {
            FastfetchInputError::Tokenization => FastfetchText::InputTokenization,
            FastfetchInputError::UnsupportedOption => FastfetchText::InputUnsupportedOption,
            FastfetchInputError::MissingValue => FastfetchText::InputMissingValue,
            FastfetchInputError::DuplicateOption => FastfetchText::InputDuplicateOption,
            FastfetchInputError::InvalidLogo => FastfetchText::InputInvalidLogo,
            FastfetchInputError::InvalidStructure => FastfetchText::InputInvalidStructure,
            FastfetchInputError::InvalidSeparator => FastfetchText::InputInvalidSeparator,
            FastfetchInputError::InvalidLogoPadding => FastfetchText::InputInvalidLogoPadding,
        }),
{
    match error {
        FastfetchInputError::Tokenization => FastfetchText::InputTokenization,
        FastfetchInputError::UnsupportedOption => FastfetchText::InputUnsupportedOption,
        FastfetchInputError::MissingValue => FastfetchText::InputMissingValue,
        FastfetchInputError::DuplicateOption => FastfetchText::InputDuplicateOption,
        FastfetchInputError::InvalidLogo => FastfetchText::InputInvalidLogo,
        FastfetchInputError::InvalidStructure => FastfetchText::InputInvalidStructure,
        FastfetchInputError::InvalidSeparator => FastfetchText::InputInvalidSeparator,
        FastfetchInputError::InvalidLogoPadding => FastfetchText::InputInvalidLogoPadding,
    }
}

/// A failed system summary, with the command prefix filled in.
pub open spec fn fastfetch_failure_view(
    locale: Locale,
    key: FastfetchText,
    prefix: Seq<char>,
) -> ResponseView {
    response::plain_view(locale, text::replaced(fastfetch_text(locale, key)@, "{prefix}"@, prefix))
}

fn fastfetch_failure(locale: Locale, key: FastfetchText, prefix: &str) -> (response: Response)
    ensures
        response@ == fastfetch_failure_view(locale, key, prefix@),
{
    Response::plain_with_locale(
        locale,
        text::replace(fastfetch_text(locale, key), "{prefix}", prefix).as_str(),
    )
}

/// What the `Debug` form of a `std::path::Path` shows for a path: the path in quotes, escaped.
pub uninterp spec fn quoted_path(path: Seq<char>) -> Seq<char>;

/// The `Debug` form of `std::path::Path`, as [`quoted_path`] names it. Which characters it escapes, and
/// how, is left unsaid.
#[verifier::external_body]
fn quote_path(path: &str) -> (quoted: String)
    ensures
        quoted@ == quoted_path(path@),
{
    format!("{:?}", std::path::Path::new(path))
}

/// What is shown for a system summary, where the path of its profile is shown as `shown_path`. What the
/// program wrote to its error stream is never shown.
pub open spec fn fastfetch_view(
    result: FastfetchResult,
    locale: Locale,
    prefix: Seq<char>,
    shown_path: Seq<char>,
) -> ResponseView {
    match result {
        FastfetchResult::Success(response) => response@,
        FastfetchResult::Empty => fastfetch_failure_view(locale, FastfetchText::Empty, prefix),
        FastfetchResult::TimedOut => fastfetch_failure_view(
            locale,
            FastfetchText::TimedOut,
            prefix,
        ),
        FastfetchResult::Unavailable => fastfetch_failure_view(
            locale,
            FastfetchText::Unavailable,
            prefix,
        ),
        FastfetchResult::NonZero { code, .. } => response::plain_view(
            locale,
            text::replaced(
                text::replaced(
                    fastfetch_text(locale, FastfetchText::NonZero)@,
                    "{code}"@,
                    text::signed_decimal(code as int),
                ),
                "{prefix}"@,
                prefix,
            ),
        ),
        FastfetchResult::UnexpectedStatus => fastfetch_failure_view(
            locale,
            FastfetchText::UnexpectedStatus,
            prefix,
        ),
        FastfetchResult::InvalidArguments(error) => fastfetch_failure_view(
            locale,
            fastfetch_input_text(error),
            prefix,
        ),
        FastfetchResult::ProfileError(error) => response::plain_view(
            locale,
            text::replaced(
                text::replaced(
                    fastfetch_text(locale, fastfetch_profile_error_text(error))@,
                    "{path}"@,
                    shown_path,
                ),
                "{prefix}"@,
                prefix,
            ),
        ),
    }
}

/// [`fastfetch_view`] as a response; `shown_path` is the path in its quoted form.
pub fn fastfetch_answer(
    result: FastfetchResult,
    locale: Locale,
    prefix: &str,
    shown_path: &str,
) -> (response: Response)
    ensures
        response@ == fastfetch_view(result, locale, prefix@, shown_path@),
{
    match result {
        FastfetchResult::Success(response) => response,
        FastfetchResult::Empty => fastfetch_failure(locale, FastfetchText::Empty, prefix),
        FastfetchResult::TimedOut => fastfetch_failure(locale, FastfetchText::TimedOut, prefix),
        FastfetchResult::Unavailable => fastfetch_failure(
            locale,
            FastfetchText::Unavailable,
            prefix,
        ),
        FastfetchResult::NonZero { code, .. } => {
            let filled = text::replace(
                fastfetch_text(locale, FastfetchText::NonZero),
                "{code}",
                text::to_signed_decimal(code as i64).as_str(),
            );
            Response::plain_with_locale(
                locale,
                text::replace(filled.as_str(), "{prefix}", prefix).as_str(),
            )
        },
        FastfetchResult::UnexpectedStatus => fastfetch_failure(
            locale,
            FastfetchText::UnexpectedStatus,
            prefix,
        ),
        FastfetchResult::InvalidArguments(error) => fastfetch_failure(
            locale,
            fastfetch_input_text(error),
            prefix,
        ),
        FastfetchResult::ProfileError(error) => {
            let filled = text::replace(
                fastfetch_text(locale, fastfetch_profile_error_text(error)),
                "{path}",
                shown_path,
            );
            Response::plain_with_locale(
                locale,
                text::replace(filled.as_str(), "{prefix}", prefix).as_str(),
            )
        },
    }
}

/// The response to a system summary. The path of its profile is shown only in its quoted form.
pub fn fastfetch_response(
    result: FastfetchResult,
    locale: Locale,
    prefix: &str,
    profile_path: &str,
) -> (response: Response)
    ensures
        response@ == fastfetch_view(result, locale, prefix@, quoted_path(profile_path@)),
{
    let shown_path = quote_path(profile_path);
    fastfetch_answer(result, locale, prefix, shown_path.as_str())
}

/// A failed run is reported the same way whatever it wrote to its error stream.
pub proof fn error_output_is_never_shown(
    code: i32,
    one: String,
    other: String,
    locale: Locale,
    prefix: Seq<char>,
    shown_path: Seq<char>,
)
    ensures
        fastfetch_view(
            FastfetchResult::NonZero { code, stderr: one },
            locale,
            prefix,
            shown_path,
        ) == fastfetch_view(
            FastfetchResult::NonZero { code, stderr: other },
            locale,
            prefix,
            shown_path,
        ),
{
}

/// What the system tells about uptime, in whole seconds, and memory.
#[derive(Clone, Copy, Debug, PartialEq, Eq, Structural)]
pub struct ProcStats {
    pub system_uptime: Option<u64>,
    pub memory_kib: Option<u64>,
}

impl Default for ProcStats {
    fn default() -> (stats: ProcStats)
        ensures
            stats.system_uptime is None,
            stats.memory_kib is None,
    {
        ProcStats { system_uptime: None, memory_kib: None }
    }
}

/// A latency in milliseconds.
pub open spec fn latency_label(millis: nat) -> Seq<char> {
    if millis == 0 {
        "<1 ms"@
    } else {
        text::decimal(millis) + " ms"@
    }
}

/// [`latency_label`] as a string.
pub fn format_latency(millis: u128) -> (label: String)
    ensures
        label@ == latency_label(millis as nat),
{
    if millis == 0 {
        "<1 ms".to_owned()
    } else {
        let mut label = text::to_decimal(millis);
        label.append(" ms");
        label
    }
}

/// A number with at least two digits.
pub open spec fn two_digits(value: nat) -> Seq<char> {
    if value < 10 {
        "0"@ + text::decimal(value)
    } else {
        text::decimal(value)
    }
}

fn to_two_digits(value: u64) -> (s: String)
    ensures
        s@ == two_digits(value as nat),
{
    if value < 10 {
        let mut s = "0".to_owned();
        s.append(text::to_decimal(value as u128).as_str());
        s
    } else {
        text::to_decimal(value as u128)
    }
}

/// A duration in days, hours, minutes and seconds, from the largest unit that is not zero down.
pub open spec fn duration_label(seconds: nat) -> Seq<char> {
    let days = seconds / 86400;
    let hours = seconds % 86400 / 3600;
    let minutes = seconds % 3600 / 60;
    let rest = seconds % 60;
    if days > 0 {
        text::decimal(days) + "d "@ + two_digits(hours) + "h "@ + two_digits(minutes) + "m "@
            + two_digits(rest) + "s"@
    } else if hours > 0 {
        text::decimal(hours) + "h "@ + two_digits(minutes) + "m "@ + two_digits(rest) + "s"@
    } else if minutes > 0 {
        text::decimal(minutes) + "m "@ + two_digits(rest) + "s"@
    } else {
        text::decimal(rest) + "s"@
    }
}

proof fn lemma_units(seconds: u64)
    ensures
        seconds % 86_400 % 3_600 == seconds % 3600,
        seconds % 86_400 % 3_600 % 60 == seconds % 60,
{
    vstd::arithmetic::div_mod::lemma_mod_mod(seconds as int, 3600, 24);
    vstd::arithmetic::div_mod::lemma_mod_mod(seconds as int, 60, 60);
}

/// [`duration_label`] as a string.
#[verifier::rlimit(50)]
pub fn format_duration(seconds: u64) -> (label: String)
    ensures
        label@ == duration_label(seconds as nat),
{
    let days: u64 = seconds / 86_400;
    let in_day: u64 = seconds % 86_400;
    let hours: u64 = in_day / 3_600;
    let in_hour: u64 = in_day % 3_600;
    let minutes: u64 = in_hour / 60;
    let rest: u64 = in_hour % 60;
    proof {
        lemma_units(seconds);
    }
    if days > 0 {
        let mut label = text::to_decimal(days as u128);
        label.append("d ");
        label.append(to_two_digits(hours).as_str());
        label.append("h ");
        label.append(to_two_digits(minutes).as_str());
        label.append("m ");
        label.append(to_two_digits(rest).as_str());
        label.append("s");
        label
    } else if hours > 0 {
        let mut label = text::to_decimal(hours as u128);
        label.append("h ");
        label.append(to_two_digits(minutes).as_str());
        label.append("m ");
        label.append(to_two_digits(rest).as_str());
        label.append("s");
        label
    } else if minutes > 0 {
        let mut label = text::to_decimal(minutes as u128);
        label.append("m ");
        label.append(to_two_digits(rest).as_str());
        label.append("s");
        label
    } else {
        let mut label = text::to_decimal(rest as u128);
        label.append("s");
        label
    }
}

/// The length of the word that `text` starts with.
pub open spec fn word_len(text: Seq<char>) -> nat
    decreases text.len(),
{
    if text.len() == 0 || text::white_space(text[0]) {
        0
    } else {
        1 + word_len(text.skip(1))
    }
}

/// White space at the start is no longer than the text, and neither is the first word.
pub proof fn lemma_word_bounds(text: Seq<char>)
    ensures
        word_len(text) <= text.len(),
        text::trimmed_start(text).len() <= text.len(),
        text.len() > 0 && !text::white_space(text[0]) ==> word_len(text) > 0,
        text::trimmed_start(text).len() > 0 ==> !text::white_space(text::trimmed_start(text)[0]),
    decreases text.len(),
{
    if text.len() > 0 {
        lemma_word_bounds(text.skip(1));
    }
}

/// The words of `text`, which white space sets apart.
pub open spec fn words(text: Seq<char>) -> Seq<Seq<char>>
    decreases text.len(),
{
    let rest = text::trimmed_start(text);
    let len = word_len(rest) as int;
    proof {
        lemma_word_bounds(text);
        lemma_word_bounds(rest);
    }
    if rest.len() == 0 || rest.len() > text.len() || len == 0 {
        Seq::empty()
    } else {
        seq![rest.take(len)] + words(rest.skip(len))
    }
}

/// [`words`] as strings.
pub fn split_words(text: &str) -> (list: Vec<String>)
    ensures
        text::views(list@) == words(text@),
{
    let chars = text::chars_of(text);
    let mut list: Vec<String> = Vec::new();
    let mut i: usize = 0;
    assert(chars@.skip(0) == chars@);
    assert(text::views(list@) + words(chars@) == words(chars@));
    while i < chars.len()
        invariant
            i <= chars@.len(),
            words(chars@) == text::views(list@) + words(chars@.skip(i as int)),
        decreases chars@.len() - i,
    {
        let ghost rest = chars@.skip(i as int);
        if text::is_white_space(chars[i]) {
            proof {
                assert(rest.skip(1) == chars@.skip(i + 1));
                lemma_words_skip_space(rest);
            }
            i = i + 1;
        } else {
            let start: usize = i;
            while i < chars.len() && !text::is_white_space(chars[i])
                invariant
                    start <= i <= chars@.len(),
                    word_len(chars@.skip(start as int)) == (i - start) + word_len(
                        chars@.skip(i as int),
                    ),
                decreases chars@.len() - i,
            {
                assert(chars@.skip(i as int).skip(1) == chars@.skip(i + 1));
                i = i + 1;
            }
            let word = text::string_of(&chars, start, i);
            proof {
                assert(rest.take(i - start) == word@);
                assert(rest.skip(i - start) == chars@.skip(i as int));
                lemma_word_bounds(rest);
                assert(words(rest) == seq![word@] + words(chars@.skip(i as int)));
                assert(text::views(list@) + (seq![word@] + words(chars@.skip(i as int)))
                    == text::views(list@.push(word)) + words(chars@.skip(i as int)));
            }
            list.push(word);
        }
    }
    assert(words(chars@.skip(i as int)) == Seq::<Seq<char>>::empty());
    assert(text::views(list@) + Seq::<Seq<char>>::empty() == text::views(list@));
    list
}

proof fn lemma_words_skip_space(text: Seq<char>)
    requires
        text.len() > 0,
        text::white_space(text[0]),
    ensures
        words(text) == words(text.skip(1)),
{
    assert(text::trimmed_start(text) == text::trimmed_start(text.skip(1)));
    lemma_word_bounds(text.skip(1));
    lemma_word_bounds(text::trimmed_start(text));
}

/// Whether `c` is a decimal digit.
pub open spec fn decimal_digit(c: char) -> bool {
    '0' <= c && c <= '9'
}

/// The number that decimal digits stand for.
pub open spec fn digits_value(digits: Seq<char>) -> nat
    decreases digits.len(),
{
    if digits.len() == 0 {
        0
    } else {
        (digits_value(digits.drop_last()) * 10 + (digits.last() as u32 - '0' as u32)) as nat
    }
}

/// Whether every character is a decimal digit.
pub open spec fn all_digits(digits: Seq<char>) -> bool {
    forall|i: int| 0 <= i < digits.len() ==> decimal_digit(#[trigger] digits[i])
}

/// `text` without a plus sign at its start.
pub open spec fn without_plus(text: Seq<char>) -> Seq<char> {
    if text.len() > 0 && text[0] == '+' {
        text.skip(1)
    } else {
        text
    }
}

/// The number that a text stands for: digits, perhaps after a plus sign, that fit 64 bits.
pub open spec fn number(text: Seq<char>) -> Option<u64> {
    let digits = without_plus(text);
    if digits.len() > 0 && all_digits(digits) && digits_value(digits) <= u64::MAX {
        Some(digits_value(digits) as u64)
    } else {
        None
    }
}

proof fn lemma_digits_grow(digits: Seq<char>, end: int)
    requires
        0 <= end <= digits.len(),
        all_digits(digits),
    ensures
        digits_value(digits.take(end)) <= digits_value(digits),
    decreases digits.len(),
{
    if end == digits.len() {
        assert(digits.take(end) == digits);
    } else {
        let shorter = digits.drop_last();
        assert(shorter.take(end) == digits.take(end));
        assert(decimal_digit(digits[digits.len() - 1]));
        lemma_digits_grow(shorter, end);
    }
}

/// [`number`], computed.
pub fn parse_number(text: &str) -> (value: Option<u64>)
    ensures
        value == number(text@),
{
    let chars = text::chars_of(text);
    let start: usize = if chars.len() > 0 && chars[0] == '+' {
        1
    } else {
        0
    };
    let ghost digits = chars@.skip(start as int);
    proof {
        assert(chars@.skip(0) == chars@);
        assert(digits == without_plus(text@));
    }
    if start == chars.len() {
        return None;
    }
    let mut value: u128 = 0;
    let mut i: usize = start;
    while i < chars.len()
        invariant
            start <= i <= chars@.len(),
            digits == chars@.skip(start as int),
            value == digits_value(digits.take(i - start)),
            value <= u64::MAX,
            forall|j: int| 0 <= j < i - start ==> decimal_digit(#[trigger] digits[j]),
            digits == without_plus(text@),
        decreases chars@.len() - i,
    {
        let c = chars[i];
        assert(digits[i - start] == c);
        if !('0' <= c && c <= '9') {
            assert(!decimal_digit(digits[i - start]));
            return None;
        }
        assert(digits.take(i - start + 1).drop_last() == digits.take(i - start));
        value = value * 10 + (c as u32 - 48) as u128;
        if value > u64::MAX as u128 {
            proof {
                if all_digits(digits) {
                    lemma_digits_grow(digits, i - start + 1);
                }
            }
            return None;
        }
        i = i + 1;
    }
    assert(digits.take(i - start) == digits);
    Some(value as u64)
}

/// The resident memory that one line of a process status tells.
pub open spec fn line_memory_kib(line: Seq<char>) -> Option<u64> {
    let fields = words(line);
    if fields.len() >= 3 && fields[0] == "VmRSS:"@ && fields[2] == "kB"@ {
        number(fields[1])
    } else {
        None
    }
}

/// The resident memory that the first line which tells it gives.
pub open spec fn memory_kib(status: Seq<char>) -> Option<u64>
    decreases status.len(),
{
    let end = crate::i18n::index_of(status, '\n') as int;
    match line_memory_kib(status.take(end)) {
        Some(kib) => Some(kib),
        None => if end >= status.len() {
            None
        } else {
            memory_kib(status.skip(end + 1))
        },
    }
}

fn parse_memory_line(line: &str) -> (kib: Option<u64>)
    ensures
        kib == line_memory_kib(line@),
{
    let fields = split_words(line);
    proof {
        let all = text::views(fields@);
        assert(all.len() == fields@.len());
        assert(forall|i: int| 0 <= i < all.len() ==> #[trigger] all[i] == fields@[i]@);
    }
    if fields.len() < 3 {
        return None;
    }
    if text::same_text(fields[0].as_str(), "VmRSS:") && text::same_text(fields[2].as_str(), "kB") {
        parse_number(fields[1].as_str())
    } else {
        None
    }
}

/// [`memory_kib`], computed.
pub fn parse_memory_kib(input: &str) -> (kib: Option<u64>)
    ensures
        kib == memory_kib(input@),
{
    let chars = text::chars_of(input);
    let mut from: usize = 0;
    assert(chars@.skip(0) == chars@);
    loop
        invariant
            from <= chars@.len(),
            chars@ == input@,
            memory_kib(input@) == memory_kib(chars@.skip(from as int)),
        decreases chars@.len() - from,
    {
        let ghost rest = chars@.skip(from as int);
        let end: usize = crate::i18n::find_from(&chars, '\n', from);
        let line = text::string_of(&chars, from, end);
        assert(rest.take(end - from) == line@);
        let found = parse_memory_line(line.as_str());
        if found.is_some() {
            return found;
        }
        if end == chars.len() {
            return None;
        }
        assert(rest.skip(end - from + 1) == chars@.skip(end + 1));
        from = end + 1;
    }
}

/// `numerator / denominator` rounded to a whole number, ties to the even one.
pub open spec fn rounded_quotient(numerator: nat, denominator: nat) -> nat {
    let quotient = numerator / denominator;
    let rest = numerator % denominator;
    if 2 * rest > denominator || (2 * rest == denominator && quotient % 2 == 1) {
        quotient + 1
    } else {
        quotient
    }
}

fn divide_rounded(numerator: u128, denominator: u128) -> (quotient: u128)
    requires
        0 < denominator <= 0x1_0000,
        numerator <= 0x100_0000_0000_0000_0000,
    ensures
        quotient == rounded_quotient(numerator as nat, denominator as nat),
        quotient <= numerator + 1,
{
    let quotient: u128 = numerator / denominator;
    let rest: u128 = numerator % denominator;
    assert(quotient <= numerator) by (nonlinear_arith)
        requires
            quotient == numerator / denominator,
            denominator > 0,
    ;
    if 2 * rest > denominator || (2 * rest == denominator && quotient % 2 == 1) {
        quotient + 1
    } else {
        quotient
    }
}

/// The spacing of the numbers with 53 significant bits around `value`, where `unit` is too narrow or
/// just right.
pub open spec fn spacing(value: u64, unit: nat) -> nat
    decreases 0x1_0000 - unit,
{
    if unit == 0 || unit >= 0x1_0000 || value < 0x20_0000_0000_0000 * unit {
        unit
    } else {
        spacing(value, 2 * unit)
    }
}

/// The number with at most 53 significant bits that is closest to `value`, ties to the even one.
pub open spec fn with_53_bits(value: u64) -> nat {
    rounded_quotient(value as nat, spacing(value, 1)) * spacing(value, 1)
}

/// The tenths of a mebibyte that are shown for a number of kibibytes.
pub open spec fn memory_tenths(kib: u64) -> nat {
    rounded_quotient(with_53_bits(kib) * 10, 1024)
}

/// Resident memory in mebibytes with one decimal.
pub open spec fn memory_label(kib: u64) -> Seq<char> {
    text::decimal(memory_tenths(kib) / 10) + "."@ + text::decimal(memory_tenths(kib) % 10)
        + " MiB RSS"@
}

/// [`memory_label`] as a string.
pub fn format_memory(kib: u64) -> (label: String)
    ensures
        label@ == memory_label(kib),
{
    let mut unit: u128 = 1;
    while unit < 0x1_0000 && (kib as u128) >= 0x20_0000_0000_0000 * unit
        invariant
            1 <= unit <= 0x1_0000,
            spacing(kib, 1) == spacing(kib, unit as nat),
        decreases 0x1_0000 - unit,
    {
        assert(2 * unit <= 0x1_0000) by {
            if unit > 0x8000 {
                assert((kib as u128) >= 0x20_0000_0000_0000 * 0x8000);
            }
        }
        unit = 2 * unit;
    }
    let rounded: u128 = divide_rounded(kib as u128, unit);
    assert(rounded * unit <= (kib + 1) * 0x1_0000) by (nonlinear_arith)
        requires
            rounded <= kib + 1,
            unit <= 0x1_0000,
    ;
    assert(rounded * unit <= kib + unit) by (nonlinear_arith)
        requires
            rounded == rounded_quotient(kib as nat, unit as nat),
            rounded <= kib as int / unit as int + 1,
            unit > 0,
    ;
    let tenths: u128 = divide_rounded(rounded * unit * 10, 1024);
    let mut label = text::to_decimal(tenths / 10);
    label.append(".");
    label.append(text::to_decimal(tenths % 10).as_str());
    label.append(" MiB RSS");
    label
}

/// The statistics report of a version.
pub open spec fn stats_report(
    locale: Locale,
    telegram: Seq<char>,
    lavis_uptime: u64,
    proc_stats: ProcStats,
    recognized_commands: u64,
    version: Seq<char>,
) -> Seq<char> {
    let unavailable = stats_text(locale, StatsText::Unavailable)@;
    let system_uptime = match proc_stats.system_uptime {
        Some(seconds) => duration_label(seconds as nat),
        None => unavailable,
    };
    let memory = match proc_stats.memory_kib {
        Some(kib) => memory_label(kib),
        None => unavailable,
    };
    crate::i18n::render::stats_rendered(
        locale,
        telegram,
        duration_label(lavis_uptime as nat),
        system_uptime,
        memory,
        recognized_commands,
        version,
    )
}

/// [`stats_report`] as a string; uptimes are in whole seconds.
pub fn format_stats(
    locale: Locale,
    telegram: &str,
    lavis_uptime: u64,
    proc_stats: &ProcStats,
    recognized_commands: u64,
    version: &str,
) -> (report: String)
    ensures
        report@ == stats_report(
            locale,
            telegram@,
            lavis_uptime,
            *proc_stats,
            recognized_commands,
            version@,
        ),
{
    let system_uptime = match proc_stats.system_uptime {
        Some(seconds) => format_duration(seconds),
        None => stats_text(locale, StatsText::Unavailable).to_owned(),
    };
    let memory = match proc_stats.memory_kib {
        Some(kib) => format_memory(kib),
        None => stats_text(locale, StatsText::Unavailable).to_owned(),
    };
    render_stats_text(
        locale,
        telegram,
        format_duration(lavis_uptime).as_str(),
        system_uptime.as_str(),
        memory.as_str(),
        recognized_commands,
        version,
    )
}

/// How a version relates to upstream, in words; nothing where upstream told no version.
pub open spec fn version_status_text(
    locale: Locale,
    known: bool,
    relation: VersionRelation,
    upstream: Option<Seq<char>>,
) -> Seq<char> {
    let upstream = match upstream {
        Some(upstream) => upstream,
        None => Seq::empty(),
    };
    if !known {
        Seq::empty()
    } else {
        match (relation, locale) {
            (VersionRelation::Current, Locale::English) => "current ✅"@,
            (VersionRelation::Current, Locale::Russian) => "актуальная ✅"@,
            (VersionRelation::NewerAvailable, Locale::English) => "newer available: "@ + upstream
                + " ⬆️"@,
            (VersionRelation::NewerAvailable, Locale::Russian) => "доступна новая: "@ + upstream
                + " ⬆️"@,
            (VersionRelation::Unavailable, _) => Seq::empty(),
        }
    }
}

/// [`version_status_text`] as a string.
pub fn version_status(
    locale: Locale,
    known: bool,
    relation: VersionRelation,
    upstream: Option<&str>,
) -> (status: String)
    ensures
        status@ == version_status_text(
            locale,
            known,
            relation,
            match upstream {
                Some(upstream) => Some(upstream@),
                None => None,
            },
        ),
{
    if !known {
        return String::new();
    }
    match relation {
        VersionRelation::Current => match locale {
            Locale::English => "current ✅".to_owned(),
            Locale::Russian => "актуальная ✅".to_owned(),
        },
        VersionRelation::NewerAvailable => {
            let mut status = match locale {
                Locale::English => "newer available: ".to_owned(),
                Locale::Russian => "доступна новая: ".to_owned(),
            };
            if let Some(upstream) = upstream {
                status.append(upstream);
            } else {
                assert(status@ + Seq::<char>::empty() == status@);
            }
            status.append(" ⬆️");
            status
        },
        VersionRelation::Unavailable => String::new(),
    }
}

/// The words of an instance summary that tells how the build relates to upstream.
pub struct SummaryWords<'a> {
    /// The summary itself, with the placeholders of the catalog's own and, where the relation is told,
    /// `{upstream_status}`.
    pub caption: &'a str,
    pub unavailable: &'a str,
    pub current: &'a str,
    /// How many commits the build is ahead stands for `{commits}`.
    pub ahead: &'a str,
    /// How many commits the build is behind stands for `{commits}`.
    pub behind: &'a str,
    /// Both numbers of commits stand for `{ahead}` and `{behind}`.
    pub diverged: &'a str,
}

/// How a build relates to upstream, in words.
pub open spec fn revision_status_text(words: SummaryWords, relation: RevisionRelation) -> Seq<char> {
    match relation {
        RevisionRelation::Unavailable => words.unavailable@,
        RevisionRelation::Current => words.current@,
        RevisionRelation::Ahead { commits } => text::replaced(
            words.ahead@,
            "{commits}"@,
            text::decimal(commits as nat),
        ),
        RevisionRelation::Behind { commits } => text::replaced(
            words.behind@,
            "{commits}"@,
            text::decimal(commits as nat),
        ),
        RevisionRelation::Diverged { ahead, behind } => text::replaced(
            text::replaced(words.diverged@, "{ahead}"@, text::decimal(ahead as nat)),
            "{behind}"@,
            text::decimal(behind as nat),
        ),
    }
}

/// [`revision_status_text`] as a string.
pub fn revision_status(words: &SummaryWords<'_>, relation: RevisionRelation) -> (status: String)
    ensures
        status@ == revision_status_text(*words, relation),
{
    match relation {
        RevisionRelation::Unavailable => words.unavailable.to_owned(),
        RevisionRelation::Current => words.current.to_owned(),
        RevisionRelation::Ahead { commits } => text::replace(
            words.ahead,
            "{commits}",
            text::to_decimal(commits as u128).as_str(),
        ),
        RevisionRelation::Behind { commits } => text::replace(
            words.behind,
            "{commits}",
            text::to_decimal(commits as u128).as_str(),
        ),
        RevisionRelation::Diverged { ahead, behind } => {
            let status = text::replace(
                words.diverged,
                "{ahead}",
                text::to_decimal(ahead as u128).as_str(),
            );
            text::replace(status.as_str(), "{behind}", text::to_decimal(behind as u128).as_str())
        },
    }
}

/// A version with its status behind it in parentheses, where it has one.
pub open spec fn version_line(version: Seq<char>, status: Seq<char>) -> Seq<char> {
    if status.len() == 0 {
        version
    } else {
        version + " ("@ + status + ")"@
    }
}

/// [`version_line`] as a string.
pub fn versioned(version: &str, status: &str) -> (line: String)
    ensures
        line@ == version_line(version@, status@),
{
    let mut line = version.to_owned();
    if !status.is_empty() {
        line.append(" (");
        line.append(status);
        line.append(")");
    }
    line
}

/// Where the source code is.
pub const LAVIS_SOURCE_URL: &'static str = "https://tangled.org/zumuvik.tngl.sh/lavis";

/// A text-only summary of the instance.
pub open spec fn info_report(
    locale: Locale,
    version: Seq<char>,
    prefix: Seq<char>,
    installed_external_modules: nat,
) -> Seq<char> {
    let built_in = text::decimal(crate::modules::registry().len());
    let installed = text::decimal(installed_external_modules);
    match locale {
        Locale::English => "ℹ️ Lavis — really your userbot\n\nVersion: "@ + version
            + "\nMTProto: grammers\nModule API: v6\nPrefix: "@ + prefix + "\nBuilt-in modules: "@
            + built_in + "\nInstalled external modules: "@ + installed + "\nSource: "@
            + LAVIS_SOURCE_URL@,
        Locale::Russian => "ℹ️ Lavis — really your userbot\n\nВерсия: "@ + version
            + "\nMTProto: grammers\nAPI модулей: v6\nПрефикс: "@ + prefix
            + "\nВстроенные модули: "@ + built_in + "\nУстановленные внешние модули: "@ + installed
            + "\nИсходники: "@ + LAVIS_SOURCE_URL@,
    }
}

/// [`info_report`] as a string.
pub fn format_info(
    locale: Locale,
    version: &str,
    prefix: &str,
    installed_external_modules: usize,
) -> (report: String)
    ensures
        report@ == info_report(locale, version@, prefix@, installed_external_modules as nat),
{
    let modules = crate::modules::modules();
    assert(modules@.len() == modules@.map_values(|module: crate::modules::ModuleSpec| module@).len());
    let built_in = text::to_decimal(modules.len() as u128);
    let installed = text::to_decimal(installed_external_modules as u128);
    match locale {
        Locale::English => {
            let mut report = "ℹ️ Lavis — really your userbot\n\nVersion: ".to_owned();
            report.append(version);
            report.append("\nMTProto: grammers\nModule API: v6\nPrefix: ");
            report.append(prefix);
            report.append("\nBuilt-in modules: ");
            report.append(built_in.as_str());
            report.append("\nInstalled external modules: ");
            report.append(installed.as_str());
            report.append("\nSource: ");
            report.append(LAVIS_SOURCE_URL);
            report
        },
        Locale::Russian => {
            let mut report = "ℹ️ Lavis — really your userbot\n\nВерсия: ".to_owned();
            report.append(version);
            report.append("\nMTProto: grammers\nAPI модулей: v6\nПрефикс: ");
            report.append(prefix);
            report.append("\nВстроенные модули: ");
            report.append(built_in.as_str());
            report.append("\nУстановленные внешние модули: ");
            report.append(installed.as_str());
            report.append("\nИсходники: ");
            report.append(LAVIS_SOURCE_URL);
            report
        },
    }
}

} // verus!
