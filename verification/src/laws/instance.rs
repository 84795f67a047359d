//! What holds of the facts about the running instance.
use super::text::{numeral_value, of_digits};
use crate::i18n;
use crate::i18n::{info_text, render, stats_text, InfoText, Locale, StatsText};
use crate::info;
use crate::info::SelfIdentity;
use crate::runtime::external;
use crate::runtime::info as runtime_info;
use crate::runtime::info::{ProcStats, SummaryWords};
use crate::runtime::upstream::RevisionRelation;
use crate::runtime::{InfoFacts, RuntimeState};
use crate::text;
use vstd::prelude::*;
use vstd::utf8::*;

verus! {

/// The owner is named by the username, else by the display name, else by the account number; an empty name
/// is no name.
pub proof fn owners_are_named(identity: SelfIdentity)
    ensures
        ({
            let label = info::owner_name(identity);
            let username = identity.username is Some && identity.username->0@.len() > 0;
            let display = identity.display_name is Some && identity.display_name->0@.len() > 0;
            &&& username ==> label == seq!['@'] + identity.username->0@
            &&& !username && display ==> label == identity.display_name->0@
            &&& !username && !display && identity.id >= 0 ==> of_digits(label) && numeral_value(label, 10)
                == identity.id
            &&& !username && !display && identity.id < 0 ==> label[0] == '-' && numeral_value(
                label.skip(1),
                10,
            ) == -identity.id
        }),
{
    reveal_strlit("@");
    assert("@"@ == seq!['@']);
    super::text::signs_are_written(identity.id as int);
}

/// A value between two equal quotes is what stands between them, one without quotes is itself; both are cut to
/// 128 characters, and an empty one is none.
pub proof fn system_names_lose_their_quotes(quote: char, value: Seq<char>)
    requires
        quote == '"' || quote == '\'',
        value.len() > 0,
        !text::white_space(value[0]) && !text::white_space(value.last()),
    ensures
        ({
            let shown = if value.len() > 128 {
                value.take(128)
            } else {
                value
            };
            &&& info::pretty_value(seq![quote] + value + seq![quote]) == Some(shown)
            &&& value[0] != '"' && value[0] != '\'' ==> info::pretty_value(value) == Some(shown)
            &&& info::pretty_value(seq![quote] + seq![quote]) is None
            &&& info::pretty_value(Seq::empty()) is None
        }),
{
    let quoted = seq![quote] + value + seq![quote];
    assert(quoted.subrange(1, quoted.len() - 1) == value);
    let empty = seq![quote] + seq![quote];
    assert(empty.subrange(1, 1).len() == 0);
    assert(text::trimmed(quoted) == quoted);
    assert(text::trimmed(value) == value);
    assert(text::trimmed(empty) == empty);
}

/// The system name is the value of the first line that assigns it; lines before it do not matter.
pub proof fn the_first_assignment_names_the_system(
    line: Seq<char>,
    value: Seq<char>,
    behind: Seq<char>,
)
    requires
        forall|i: int| 0 <= i < line.len() ==> #[trigger] line[i] != '\n',
    ensures
        text::trimmed(line) == "PRETTY_NAME="@ + value ==> info::pretty_name(
            line + seq!['\n'] + behind,
        ) == info::pretty_value(value) && info::pretty_name(line) == info::pretty_value(value),
        !super::text::stands_at(text::trimmed(line), "PRETTY_NAME="@, 0) ==> info::pretty_name(
            line + seq!['\n'] + behind,
        ) == info::pretty_name(behind) && info::pretty_name(line) is None,
{
    let whole = line + seq!['\n'] + behind;
    let key = "PRETTY_NAME="@;
    let shown = text::trimmed(line);
    i18n::lemma_index_of_is(whole, '\n', line.len() as int);
    i18n::lemma_index_of_is(line, '\n', line.len() as int);
    assert(whole.take(line.len() as int) == line);
    assert(whole.skip((line.len() + 1) as int) == behind);
    assert(line.take(line.len() as int) == line);
    if shown == key + value {
        assert(shown.subrange(0, key.len() as int) == key);
        assert(shown.skip(key.len() as int) == value);
    }
    if text::occurs_at(shown, key, 0) {
        assert forall|i: int| 0 <= i < key.len() implies shown[0 + i] == #[trigger] key[i] by {
            assert(shown.subrange(0, key.len() as int)[i] == key[i]);
        }
        assert(super::text::stands_at(shown, key, 0));
    }
}

/// A language is read from its code, in whatever case and with whatever white space around it, and from
/// nothing else.
pub proof fn languages_are_read_from_their_codes(value: Seq<char>)
    ensures
        i18n::parsed(value) == Some(Locale::English) <==> text::lowered(text::trimmed(value)) == seq![
            'e',
            'n',
        ],
        i18n::parsed(value) == Some(Locale::Russian) <==> text::lowered(text::trimmed(value)) == seq![
            'r',
            'u',
        ],
{
    reveal_strlit("en");
    reveal_strlit("ru");
    assert("en"@ == seq!['e', 'n']);
    assert("ru"@ == seq!['r', 'u']);
    assert("en"@[0] != "ru"@[0]);
}

/// The value of a name is the first one given for it.
pub proof fn values_are_found_by_their_names(values: Seq<(Seq<char>, Seq<char>)>, key: Seq<char>)
    ensures
        match i18n::value_of(values, key) {
            Some(value) => exists|i: int|
                0 <= i < values.len() && #[trigger] values[i] == (key, value) && forall|j: int|
                    0 <= j < i ==> (#[trigger] values[j]).0 != key,
            None => forall|i: int| 0 <= i < values.len() ==> (#[trigger] values[i]).0 != key,
        },
    decreases values.len(),
{
    if values.len() > 0 {
        let rest = values.skip(1);
        if values[0].0 == key {
            assert(values[0] == (key, values[0].1));
        } else {
            values_are_found_by_their_names(rest, key);
            match i18n::value_of(rest, key) {
                Some(value) => {
                    let i = choose|i: int|
                        0 <= i < rest.len() && #[trigger] rest[i] == (key, value) && forall|j: int|
                            0 <= j < i ==> (#[trigger] rest[j]).0 != key;
                    assert(values[i + 1] == (key, value));
                    assert forall|j: int| 0 <= j < i + 1 implies (#[trigger] values[j]).0 != key by {
                        if j > 0 {
                            assert(rest[j - 1] == values[j]);
                        }
                    }
                },
                None => {
                    assert forall|i: int| 0 <= i < values.len() implies (#[trigger] values[i]).0
                        != key by {
                        if i > 0 {
                            assert(rest[i - 1] == values[i]);
                        }
                    }
                },
            }
        }
    }
}

/// A brace that nothing closes is kept with all that follows it, and a placeholder without a value as it is.
pub proof fn unknown_placeholders_are_kept(
    before: Seq<char>,
    behind: Seq<char>,
    values: Seq<(Seq<char>, Seq<char>)>,
    key: Seq<char>,
)
    requires
        !before.contains('{'),
        !behind.contains('}'),
        forall|i: int| 0 <= i < values.len() ==> (#[trigger] values[i]).0 != key,
    ensures
        i18n::interpolated(before + seq!['{'] + behind, values) == before + seq!['{'] + behind,
        i18n::placeholder(values, key) == seq!['{'] + key + seq!['}'],
{
    let template = before + seq!['{'] + behind;
    assert forall|i: int| 0 <= i < before.len() implies template[i] != '{' by {
        assert(before.contains(before[i]));
    }
    i18n::lemma_index_of_is(template, '{', before.len() as int);
    let after = template.skip((before.len() + 1) as int);
    assert(after == behind);
    assert forall|i: int| 0 <= i < behind.len() implies behind[i] != '}' by {
        assert(behind.contains(behind[i]));
    }
    i18n::lemma_index_of_is(after, '}', behind.len() as int);
    values_are_found_by_their_names(values, key);
}

/// The summary tells the state: who owns it, its version, its build, what is known of upstream, the prefix, how
/// many modules there are and run, built-in ones included, and where it runs.
pub proof fn summaries_tell_the_state(state: RuntimeState, facts: InfoFacts)
    ensures
        ({
            let locale = state.settings.language();
            let served = state.upstream_revision_cache@.served();
            state.summary(facts) == render::info_filled(
                state.summary_template(facts),
                match state.self_identity {
                    Some(identity) => info::owner_name(identity),
                    None => info_text(locale, InfoText::Unknown)@,
                },
                runtime_info::version_line(
                    facts.version@,
                    runtime_info::version_status_text(
                        locale,
                        state.upstream_version_known,
                        facts.version_relation,
                        if served is Some {
                            served->0.version
                        } else {
                            None
                        },
                    ),
                ),
                info::short_form(facts.build_rev@),
                if served is Some {
                    info::short_form(served->0.revision)
                } else {
                    info_text(locale, InfoText::Unavailable)@
                },
                state.settings.prefix@,
                3 + external::running(state.external_snapshot.module_statuses@),
                3 + state.external_snapshot.descriptors@.len(),
                facts.host@,
                facts.os@,
            )
        }),
        facts.words is None ==> state.summary_template(facts) == info_text(
            state.settings.language(),
            InfoText::Caption,
        )@,
{
}

/// The statistics tell the latency, both uptimes, the memory, the commands and the version; what could not be
/// measured is told to be unavailable.
pub proof fn statistics_tell_what_was_measured(
    locale: Locale,
    telegram: Seq<char>,
    uptime: u64,
    measured: ProcStats,
    commands: u64,
    version: Seq<char>,
)
    ensures
        ({
            let unavailable = stats_text(locale, StatsText::Unavailable)@;
            runtime_info::stats_report(locale, telegram, uptime, measured, commands, version)
                == text::replaced(
                text::replaced(
                    text::replaced(
                        text::replaced(
                            text::replaced(
                                text::replaced(
                                    stats_text(locale, StatsText::Report)@,
                                    "{telegram}"@,
                                    telegram,
                                ),
                                "{lavis_uptime}"@,
                                runtime_info::duration_label(uptime as nat),
                            ),
                            "{system_uptime}"@,
                            if measured.system_uptime is Some {
                                runtime_info::duration_label(measured.system_uptime->0 as nat)
                            } else {
                                unavailable
                            },
                        ),
                        "{memory}"@,
                        if measured.memory_kib is Some {
                            runtime_info::memory_label(measured.memory_kib->0)
                        } else {
                            unavailable
                        },
                    ),
                    "{commands}"@,
                    text::decimal(commands as nat),
                ),
                "{version}"@,
                version,
            )
        }),
{
}

/// The placeholders of a summary are filled one after another, each with its own value.
pub proof fn summaries_are_filled_one_after_another(
    template: Seq<char>,
    names: (Seq<char>, Seq<char>, Seq<char>, Seq<char>, Seq<char>),
    active: nat,
    total: nat,
    host: Seq<char>,
    os: Seq<char>,
)
    ensures
        ({
            let owner = text::replaced(template, "{owner}"@, names.0);
            let version = text::replaced(owner, "{version}"@, names.1);
            let commit = text::replaced(version, "{commit}"@, names.2);
            let upstream = text::replaced(commit, "{upstream}"@, names.3);
            let prefix = text::replaced(upstream, "{prefix}"@, names.4);
            let running = text::replaced(prefix, "{active}"@, text::decimal(active));
            let all = text::replaced(running, "{total}"@, text::decimal(total));
            let placed = text::replaced(all, "{host}"@, host);
            render::info_filled(
                template,
                names.0,
                names.1,
                names.2,
                names.3,
                names.4,
                active,
                total,
                host,
                os,
            ) == text::replaced(placed, "{os}"@, os)
        }),
{
}

/// How the build relates to upstream is told in the words for it, with the numbers of commits; where upstream is
/// not known, as unavailable.
pub proof fn summaries_tell_the_relation(
    words: SummaryWords,
    commits: u64,
    ahead: u64,
    behind: u64,
    state: RuntimeState,
    facts: InfoFacts,
)
    ensures
        ({
            let told = |relation: RevisionRelation| runtime_info::revision_status_text(words, relation);
            let count = text::decimal(commits as nat);
            &&& told(RevisionRelation::Unavailable) == words.unavailable@
            &&& told(RevisionRelation::Current) == words.current@
            &&& told(RevisionRelation::Ahead { commits }) == text::replaced(
                words.ahead@,
                "{commits}"@,
                count,
            )
            &&& told(RevisionRelation::Behind { commits }) == text::replaced(
                words.behind@,
                "{commits}"@,
                count,
            )
            &&& told(RevisionRelation::Diverged { ahead, behind }) == text::replaced(
                text::replaced(words.diverged@, "{ahead}"@, text::decimal(ahead as nat)),
                "{behind}"@,
                text::decimal(behind as nat),
            )
        }),
        facts.words == Some(words) ==> state.summary_template(facts) == text::replaced(
            words.caption@,
            "{upstream_status}"@,
            match state.upstream_revision_cache@.served() {
                Some(served) => runtime_info::revision_status_text(words, served.relation),
                None => info_text(state.settings.language(), InfoText::Unavailable)@,
            },
        ),
{
}

/// The packaging entry points are told apart by their markers; any other start is a standalone one.
pub proof fn deployments_are_told_by_their_markers(marker: Seq<char>)
    ensures
        marker == "nixos-module"@ ==> info::deployment(Some(marker)) == "NixOS module"@,
        marker == "nix-run"@ ==> info::deployment(Some(marker)) == "nix run"@,
        marker == "nix-package"@ ==> info::deployment(Some(marker)) == "Nix package"@,
        marker != "nixos-module"@ && marker != "nix-run"@ && marker != "nix-package"@
            ==> info::deployment(Some(marker)) == "standalone"@,
        info::deployment(None) == "standalone"@,
{
    reveal_strlit("nixos-module");
    reveal_strlit("nix-run");
    reveal_strlit("nix-package");
    assert("nixos-module"@.len() == 12 && "nix-run"@.len() == 7 && "nix-package"@.len() == 11);
}

/// A revision of ASCII characters is shown by its first seven, or as it is where it is shorter.
pub proof fn revisions_are_shown_by_seven_characters(revision: Seq<char>)
    requires
        is_ascii_chars(revision),
    ensures
        revision.len() >= 7 ==> info::short_form(revision) == revision.take(7),
        revision.len() < 7 ==> info::short_form(revision) == revision,
{
    let bytes = encode_utf8(revision);
    is_ascii_chars_encode_utf8(revision);
    encode_utf8_valid_utf8(revision);
    if revision.len() >= 7 {
        let first = revision.take(7);
        is_ascii_chars_encode_utf8(first);
        assert(bytes.subrange(0, 7) =~= encode_utf8(first));
        encode_utf8_decode_utf8(first);
        if revision.len() == 7 {
            is_char_boundary_start_end_of_seq(bytes);
        } else {
            is_char_boundary_iff_not_is_continuation_byte(bytes, 7);
        }
    }
}

/// The text-only summary tells the version, the prefix and how many modules there are.
pub proof fn text_summaries_tell_the_modules(
    locale: Locale,
    version: Seq<char>,
    prefix: Seq<char>,
    installed: nat,
)
    ensures
        runtime_info::info_report(locale, version, prefix, installed) == (match locale {
            Locale::English => "ℹ️ Lavis — really your userbot\n\nVersion: "@ + version
                + "\nMTProto: grammers\nModule API: v6\nPrefix: "@ + prefix
                + "\nBuilt-in modules: "@ + text::decimal(3) + "\nInstalled external modules: "@
                + text::decimal(installed) + "\nSource: "@
                + "https://tangled.org/zumuvik.tngl.sh/lavis"@,
            Locale::Russian => "ℹ️ Lavis — really your userbot\n\nВерсия: "@ + version
                + "\nMTProto: grammers\nAPI модулей: v6\nПрефикс: "@ + prefix
                + "\nВстроенные модули: "@ + text::decimal(3) + "\nУстановленные внешние модули: "@
                + text::decimal(installed) + "\nИсходники: "@
                + "https://tangled.org/zumuvik.tngl.sh/lavis"@,
        }),
{
}

/// A system name is read from at most 16 KiB of valid text, and from the text alone.
pub proof fn system_names_are_read_from_text(contents: Seq<u8>, text: Seq<char>)
    ensures
        contents.len() > 16_384 || !valid_utf8(contents) ==> info::system_name(contents) is None,
        contents == encode_utf8(text) && contents.len() <= 16_384 ==> info::system_name(contents)
            == info::pretty_name(text),
{
    encode_utf8_valid_utf8(text);
    encode_utf8_decode_utf8(text);
}

} // verus!
