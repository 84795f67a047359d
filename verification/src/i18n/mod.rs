//! Interface languages and the message catalog.
//!
//! Fixed messages live in tables, one per area of the interface. Messages with placeholders are
//! rendered here: a placeholder is a name in braces, and a value is always inserted verbatim.
use crate::text;
use vstd::prelude::*;
use vstd::string::*;

pub mod catalog;
pub mod companion;
pub mod general;
pub mod modules;
pub mod render;
pub mod reports;

pub use companion::{setup_text, SetupText};
pub use general::{
    alias_text, prefix_text, reboot_template, runtime_text, sensitive_text, text, AliasText,
    PrefixText, RebootText, RuntimeText, SensitiveText, Text,
};
pub use modules::{
    inspection_warning_text, lm_label, lm_runtime_status, lm_text, ExternalModuleRuntimeStatus,
    InspectionWarning, LmLabel, LmText,
};
pub use render::{
    bilingual, external_command_text, external_module_provenance, fill_info_text, lm_fill, lm_format,
    lm_state_text, ping_text, reboot_text, render_info_text, render_lm_doctor_missing_catalog,
    render_lm_doctor_module, render_lm_doctor_report, render_lm_info, render_lm_install_plan,
    render_stats_text, InfoCaptionData, LmInfoResponse, LmInstallPlanText,
};
pub use reports::{
    external_command_template, fastfetch_text, info_text, ping_template, response_text, stats_text,
    ExternalCommandText, FastfetchText, InfoText, PingText, ResponseText, StatsText,
};

verus! {

/// The deliberately small set of supported interface languages.
#[derive(Clone, Copy, Debug, PartialEq, Eq, Structural)]
pub enum Locale {
    English,
    Russian,
}

impl Default for Locale {
    fn default() -> (locale: Locale)
        ensures
            locale == Locale::Russian,
    {
        Locale::Russian
    }
}

/// The language that a code stands for, ignoring surrounding white space and the case of ASCII
/// letters.
pub open spec fn parsed(value: Seq<char>) -> Option<Locale> {
    let code = text::lowered(text::trimmed(value));
    if code == "en"@ {
        Some(Locale::English)
    } else if code == "ru"@ {
        Some(Locale::Russian)
    } else {
        None
    }
}

/// The code of a language reads as that language. Trimmed lower-case text that reads as a language is
/// its code.
pub proof fn codes_read_as_their_language(locale: Locale, value: Seq<char>)
    ensures
        parsed(locale.code()@) == Some(locale),
        text::lowered(text::trimmed(value)) == value && parsed(value) == Some(locale) ==> value
            == locale.code()@,
{
    reveal_strlit("en");
    reveal_strlit("ru");
    let code = locale.code()@;
    assert(code.len() == 2 && !text::white_space(code[0]) && !text::white_space(code[1]));
    assert(text::trimmed_start(code) == code);
    assert(text::trimmed_end(code) == code);
    assert(text::lowered(code) =~= code);
    assert("en"@[0] != "ru"@[0]);
}

impl Locale {
    /// Reads a language code, as [`parsed`] says.
    pub fn parse(value: &str) -> (locale: Option<Self>)
        ensures
            locale == parsed(value@),
    {
        let code = text::to_ascii_lowercase(text::trim(value));
        if text::same_text(code.as_str(), "en") {
            Some(Locale::English)
        } else if text::same_text(code.as_str(), "ru") {
            Some(Locale::Russian)
        } else {
            None
        }
    }

    /// The language code that [`Locale::parse`] reads back.
    #[verifier::allow_in_spec]
    pub fn code(self) -> &'static str
        returns
            (match self {
                Locale::English => "en",
                Locale::Russian => "ru",
            }),
    {
        match self {
            Locale::English => "en",
            Locale::Russian => "ru",
        }
    }
}

/// The index of the first `c` in `chars`, or the length where there is none.
pub open spec fn index_of(chars: Seq<char>, c: char) -> nat
    decreases chars.len(),
{
    if chars.len() == 0 || chars[0] == c {
        0
    } else {
        1 + index_of(chars.skip(1), c)
    }
}

/// The characters of named values.
pub open spec fn named(values: Seq<(&str, &str)>) -> Seq<(Seq<char>, Seq<char>)> {
    values.map_values(|entry: (&str, &str)| (entry.0@, entry.1@))
}

/// The first value named `key`.
pub open spec fn value_of(values: Seq<(Seq<char>, Seq<char>)>, key: Seq<char>) -> Option<Seq<char>>
    decreases values.len(),
{
    if values.len() == 0 {
        None
    } else if values[0].0 == key {
        Some(values[0].1)
    } else {
        value_of(values.skip(1), key)
    }
}

/// What stands for the placeholder `key`: its value, or the placeholder itself where it has none.
pub open spec fn placeholder(values: Seq<(Seq<char>, Seq<char>)>, key: Seq<char>) -> Seq<char> {
    match value_of(values, key) {
        Some(value) => value,
        None => seq!['{'] + key + seq!['}'],
    }
}

/// `template` with each placeholder `{key}` filled in, read once from left to right. An opening
/// brace that nothing closes is kept with all that follows it.
pub open spec fn interpolated(
    template: Seq<char>,
    values: Seq<(Seq<char>, Seq<char>)>,
) -> Seq<char>
    decreases template.len(),
{
    let start = index_of(template, '{') as int;
    if start >= template.len() {
        template
    } else {
        let after = template.skip(start + 1);
        let end = index_of(after, '}') as int;
        if end >= after.len() {
            template
        } else {
            template.take(start) + placeholder(values, after.take(end)) + interpolated(
                after.skip(end + 1),
                values,
            )
        }
    }
}

proof fn lemma_index_of(chars: Seq<char>, c: char)
    ensures
        index_of(chars, c) <= chars.len(),
        index_of(chars, c) < chars.len() ==> chars[index_of(chars, c) as int] == c,
        forall|i: int| 0 <= i < index_of(chars, c) ==> chars[i] != c,
    decreases chars.len(),
{
    if chars.len() > 0 && chars[0] != c {
        lemma_index_of(chars.skip(1), c);
        assert forall|i: int| 0 <= i < index_of(chars, c) implies chars[i] != c by {
            if i > 0 {
                assert(chars.skip(1)[i - 1] == chars[i]);
            }
        }
    }
}

/// A character with nothing like it before stands where it is first found.
pub proof fn lemma_index_of_is(chars: Seq<char>, c: char, at: int)
    requires
        0 <= at <= chars.len(),
        at < chars.len() ==> chars[at] == c,
        forall|i: int| 0 <= i < at ==> chars[i] != c,
    ensures
        index_of(chars, c) == at,
{
    lemma_index_of(chars, c);
}

/// The index of the first `c` at or after `from`, or the length where there is none.
pub fn find_from(chars: &Vec<char>, c: char, from: usize) -> (at: usize)
    requires
        from <= chars@.len(),
    ensures
        from <= at <= chars@.len(),
        at - from == index_of(chars@.skip(from as int), c),
{
    let mut at: usize = from;
    while at < chars.len() && chars[at] != c
        invariant
            from <= at <= chars@.len(),
            forall|i: int| from <= i < at ==> chars@[i] != c,
        decreases chars@.len() - at,
    {
        at = at + 1;
    }
    proof {
        lemma_index_of_is(chars@.skip(from as int), c, at - from);
    }
    at
}

fn find_value<'a>(values: &Vec<(&'a str, &'a str)>, key: &str) -> (found: Option<&'a str>)
    ensures
        value_of(named(values@), key@) == (match found {
            Some(value) => Some(value@),
            None => None,
        }),
{
    let mut i: usize = 0;
    assert(named(values@).skip(0) == named(values@));
    while i < values.len()
        invariant
            i <= values@.len(),
            value_of(named(values@), key@) == value_of(named(values@).skip(i as int), key@),
        decreases values@.len() - i,
    {
        let entry = values[i];
        if text::same_text(entry.0, key) {
            return Some(entry.1);
        }
        assert(named(values@).skip(i as int).skip(1) == named(values@).skip(i + 1));
        i = i + 1;
    }
    None
}

/// [`interpolated`] as a string.
pub fn interpolate(template: &str, values: &Vec<(&str, &str)>) -> (rendered: String)
    ensures
        rendered@ == interpolated(template@, named(values@)),
{
    let chars = text::chars_of(template);
    let ghost known = named(values@);
    let mut rendered = String::new();
    let mut i: usize = 0;
    assert(chars@.skip(0) == chars@);
    loop
        invariant_except_break
            i <= chars@.len(),
            chars@ == template@,
            known == named(values@),
            interpolated(template@, known) == rendered@ + interpolated(
                chars@.skip(i as int),
                known,
            ),
        ensures
            rendered@ == interpolated(template@, known),
        decreases chars@.len() - i,
    {
        let ghost rest = chars@.skip(i as int);
        let ghost before = rendered@;
        let start: usize = find_from(&chars, '{', i);
        if start == chars.len() {
            rendered.append(text::string_of(&chars, i, chars.len()).as_str());
            assert(chars@.subrange(i as int, chars@.len() as int) == rest);
            break ;
        }
        let end: usize = find_from(&chars, '}', start + 1);
        proof {
            assert(rest.skip(start - i + 1) == chars@.skip(start + 1));
        }
        if end == chars.len() {
            rendered.append(text::string_of(&chars, i, chars.len()).as_str());
            assert(chars@.subrange(i as int, chars@.len() as int) == rest);
            break ;
        }
        rendered.append(text::string_of(&chars, i, start).as_str());
        let key = text::string_of(&chars, start + 1, end);
        match find_value(values, key.as_str()) {
            Some(value) => {
                rendered.append(value);
            },
            None => {
                rendered.push('{');
                rendered.append(key.as_str());
                rendered.push('}');
            },
        }
        proof {
            let after = rest.skip(start - i + 1);
            assert(rest.take(start - i) == chars@.subrange(i as int, start as int));
            assert(after.take(end - start - 1) == key@);
            assert(after.skip(end - start) == chars@.skip(end + 1));
            assert(rendered@ == before + rest.take(start - i) + placeholder(known, key@));
            assert(before + (rest.take(start - i) + placeholder(known, key@) + interpolated(
                after.skip(end - start),
                known,
            )) == rendered@ + interpolated(chars@.skip(end + 1), known));
        }
        i = end + 1;
    }
    rendered
}

/// A text without an opening brace is rendered as it is.
pub proof fn texts_without_placeholders_are_kept(
    template: Seq<char>,
    values: Seq<(Seq<char>, Seq<char>)>,
)
    requires
        !template.contains('{'),
    ensures
        interpolated(template, values) == template,
{
    lemma_index_of(template, '{');
    if index_of(template, '{') < template.len() {
        assert(template[index_of(template, '{') as int] == '{');
    }
}

/// The first placeholder of a template is replaced by its value as it is, and rendering goes on behind
/// it: braces in a value never start a placeholder.
pub proof fn values_are_inserted_verbatim(
    before: Seq<char>,
    key: Seq<char>,
    rest: Seq<char>,
    values: Seq<(Seq<char>, Seq<char>)>,
)
    requires
        !before.contains('{'),
        !key.contains('}'),
    ensures
        interpolated(before + seq!['{'] + key + seq!['}'] + rest, values) == before + placeholder(
            values,
            key,
        ) + interpolated(rest, values),
{
    let template = before + seq!['{'] + key + seq!['}'] + rest;
    let start = before.len() as int;
    assert forall|i: int| 0 <= i < start implies template[i] != '{' by {
        assert(before.contains(before[i]));
    }
    lemma_index_of_is(template, '{', start);
    let after = template.skip(start + 1);
    assert(after == key + seq!['}'] + rest);
    let end = key.len() as int;
    assert forall|i: int| 0 <= i < end implies after[i] != '}' by {
        assert(key.contains(key[i]));
    }
    lemma_index_of_is(after, '}', end);
    assert(template.take(start) == before);
    assert(after.take(end) == key);
    assert(after.skip(end + 1) == rest);
}

} // verus!
