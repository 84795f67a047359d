//! Command aliases: what they stand for, and the answers to requests about them.
use crate::i18n::{alias_text, AliasText, Locale};
use crate::response;
use crate::response::{Response, ResponseView};
use crate::text;
use vstd::prelude::*;
use vstd::string::*;

verus! {

/// What an alias stands for.
pub struct Alias {
    pub target: String,
    pub args: Vec<String>,
}

/// The model of an [`Alias`].
pub struct AliasView {
    pub target: Seq<char>,
    pub args: Seq<Seq<char>>,
}

impl View for Alias {
    type V = AliasView;

    open spec fn view(&self) -> AliasView {
        AliasView { target: self.target@, args: text::views(self.args@) }
    }
}

/// An alias and its name, in lower case.
pub struct AliasEntry {
    pub name: String,
    pub alias: Alias,
}

/// The aliases, in the order in which they are listed.
pub struct AliasTable {
    pub entries: Vec<AliasEntry>,
}

/// What the owner asked about aliases.
pub enum AliasRequest {
    List,
    Add { name: String, target: String, args: Vec<String> },
    Delete { name: String },
    Show { name: String },
    Invalid,
}

/// What came of changing the stored aliases.
#[derive(Clone, Copy, Debug, PartialEq, Eq, Structural)]
pub enum AliasChange {
    /// The change was made.
    Made,
    /// There is no such alias.
    NotFound,
    Failed,
}

/// What `shell_words::split` gives for a command line: its words, or nothing where a quote is not
/// closed.
pub uninterp spec fn shell_split(line: Seq<char>) -> Option<Seq<Seq<char>>>;

/// What `shell_words::join` gives for words: a command line in which each is quoted.
pub uninterp spec fn shell_join(words: Seq<Seq<char>>) -> Seq<char>;

/// `shell_words::split` takes a command line apart into words, as [`shell_split`] names; it fails
/// where a quote is not closed.
#[verifier::external_body]
fn split_line(line: &str) -> (words: Option<Vec<String>>)
    ensures
        shell_split(line@) == (match words {
            Some(words) => Some(text::views(words@)),
            None => None,
        }),
{
    shell_words::split(line).ok()
}

/// `shell_words::join` quotes words and puts them in a row, as [`shell_join`] names. Splitting the
/// line that it gives yields the words again.
#[verifier::external_body]
fn join_words(words: &Vec<String>) -> (line: String)
    ensures
        line@ == shell_join(text::views(words@)),
        shell_split(line@) == Some(text::views(words@)),
{
    shell_words::join(words)
}

/// The first alias named `name`, in lower case.
pub open spec fn alias_index(entries: Seq<AliasEntry>, name: Seq<char>) -> nat
    decreases entries.len(),
{
    if entries.len() == 0 || entries[0].name@ == name {
        0
    } else {
        1 + alias_index(entries.skip(1), name)
    }
}

/// What is listed first under `name`.
pub open spec fn found_in(entries: Seq<AliasEntry>, name: Seq<char>) -> Option<Alias> {
    let at = alias_index(entries, name) as int;
    if at < entries.len() {
        Some(entries[at].alias)
    } else {
        None
    }
}

/// The aliases that are not named `name`.
pub open spec fn without(entries: Seq<AliasEntry>, name: Seq<char>) -> Seq<AliasEntry> {
    entries.filter(|entry: AliasEntry| entry.name@ != name)
}

/// Where an alias named `name` is listed: before the first whose name comes after it.
pub open spec fn place_of(entries: Seq<AliasEntry>, name: Seq<char>) -> nat
    decreases entries.len(),
{
    if entries.len() == 0 || text::precedes(name, entries[0].name@) {
        0
    } else {
        1 + place_of(entries.skip(1), name)
    }
}

/// Whether `after` lists what `before` does, but for the aliases named `name`, and in its place an alias
/// of that name that stands for `alias`.
pub open spec fn adds(
    before: Seq<AliasEntry>,
    name: Seq<char>,
    alias: AliasView,
    after: Seq<AliasEntry>,
) -> bool {
    let others = without(before, name);
    let at = place_of(others, name) as int;
    &&& after.len() == others.len() + 1
    &&& at < after.len()
    &&& after == others.insert(at, after[at])
    &&& after[at].name@ == name
    &&& after[at].alias@ == alias
}

/// Whether the names are in lower case, and none occurs twice.
pub open spec fn well_named(entries: Seq<AliasEntry>) -> bool {
    &&& forall|i: int|
        0 <= i < entries.len() ==> text::lowered((#[trigger] entries[i]).name@) == entries[i].name@
    &&& forall|i: int, j: int|
        0 <= i < j < entries.len() ==> (#[trigger] entries[i]).name@ != (
        #[trigger] entries[j]).name@
}

/// Whether the aliases are listed in the order of their names.
pub open spec fn in_order(entries: Seq<AliasEntry>) -> bool {
    forall|i: int, j: int|
        0 <= i < j < entries.len() ==> text::precedes(
            (#[trigger] entries[i]).name@,
            (#[trigger] entries[j]).name@,
        )
}

proof fn lemma_without(entries: Seq<AliasEntry>, name: Seq<char>)
    ensures
        without(entries, name).len() <= entries.len(),
        forall|i: int|
            0 <= i < without(entries, name).len() ==> (#[trigger] without(
                entries,
                name,
            )[i]).name@ != name && entries.contains(without(entries, name)[i]),
        well_named(entries) ==> well_named(without(entries, name)),
        in_order(entries) ==> in_order(without(entries, name)),
    decreases entries.len(),
{
    reveal(Seq::filter);
    if entries.len() > 0 {
        let shorter = entries.drop_last();
        let kept = without(shorter, name);
        lemma_without(shorter, name);
        assert forall|i: int| 0 <= i < kept.len() implies exists|j: int|
            0 <= j < entries.len() - 1 && #[trigger] entries[j] == #[trigger] kept[i] by {
            assert(shorter.contains(kept[i]));
            let j = choose|j: int| 0 <= j < shorter.len() && shorter[j] == kept[i];
            assert(entries[j] == kept[i]);
        }
        assert(well_named(entries) ==> well_named(shorter));
        assert(in_order(entries) ==> in_order(shorter));
        assert(entries.contains(entries.last()));
    }
}

proof fn lemma_without_removed(entries: Seq<AliasEntry>, name: Seq<char>, at: int)
    requires
        0 <= at < entries.len(),
        entries[at].name@ == name,
    ensures
        without(entries.remove(at), name) == without(entries, name),
    decreases entries.len(),
{
    reveal(Seq::filter);
    if at == entries.len() - 1 {
        assert(entries.remove(at) == entries.drop_last());
    } else {
        assert(entries.remove(at).drop_last() == entries.drop_last().remove(at));
        lemma_without_removed(entries.drop_last(), name, at);
    }
}

proof fn lemma_without_nothing(entries: Seq<AliasEntry>, name: Seq<char>)
    requires
        forall|i: int| 0 <= i < entries.len() ==> (#[trigger] entries[i]).name@ != name,
    ensures
        without(entries, name) == entries,
    decreases entries.len(),
{
    reveal(Seq::filter);
    if entries.len() > 0 {
        lemma_without_nothing(entries.drop_last(), name);
        assert(entries == entries.drop_last().push(entries.last()));
    }
}

proof fn lemma_found_in_parts(before: Seq<AliasEntry>, after: Seq<AliasEntry>, name: Seq<char>)
    ensures
        found_in(before + after, name) == (match found_in(before, name) {
            Some(alias) => Some(alias),
            None => found_in(after, name),
        }),
    decreases before.len(),
{
    if before.len() == 0 {
        assert(before + after == after);
    } else if before[0].name@ != name {
        assert((before + after).skip(1) == before.skip(1) + after);
        lemma_found_in_parts(before.skip(1), after, name);
    }
}

proof fn lemma_found_without(entries: Seq<AliasEntry>, name: Seq<char>, other: Seq<char>)
    ensures
        found_in(without(entries, name), other) == (if other == name {
            None
        } else {
            found_in(entries, other)
        }),
    decreases entries.len(),
{
    reveal(Seq::filter);
    if entries.len() > 0 {
        let shorter = entries.drop_last();
        let last = seq![entries.last()];
        lemma_found_without(shorter, name, other);
        lemma_found_in_parts(shorter, last, other);
        assert(entries == shorter + last);
        if entries.last().name@ != name {
            lemma_found_in_parts(without(shorter, name), last, other);
            assert(without(entries, name) == without(shorter, name) + last);
        } else {
            assert(last.skip(1).len() == 0);
            assert(other != name ==> alias_index(last, other) == 1 + alias_index(
                last.skip(1),
                other,
            ));
        }
    }
}

proof fn lemma_place(entries: Seq<AliasEntry>, name: Seq<char>)
    ensures
        place_of(entries, name) <= entries.len(),
        forall|i: int|
            0 <= i < place_of(entries, name) ==> !text::precedes(
                name,
                (#[trigger] entries[i]).name@,
            ),
        place_of(entries, name) < entries.len() ==> text::precedes(
            name,
            entries[place_of(entries, name) as int].name@,
        ),
    decreases entries.len(),
{
    if entries.len() > 0 && !text::precedes(name, entries[0].name@) {
        let rest = entries.skip(1);
        lemma_place(rest, name);
        assert forall|i: int| 0 <= i < place_of(entries, name) implies !text::precedes(
            name,
            (#[trigger] entries[i]).name@,
        ) by {
            if i > 0 {
                assert(rest[i - 1] == entries[i]);
            }
        }
    }
}

/// An alias that was added is found by its name, and every other name finds what it did. Names stay
/// unique and in lower case, and a list in the order of the names stays in that order.
pub proof fn added_aliases_are_found(
    before: Seq<AliasEntry>,
    name: Seq<char>,
    alias: AliasView,
    after: Seq<AliasEntry>,
)
    requires
        adds(before, name, alias, after),
    ensures
        found_in(after, name) is Some && found_in(after, name)->0@ == alias,
        forall|other: Seq<char>|
            other != name ==> #[trigger] found_in(after, other) == found_in(before, other),
        well_named(before) && text::lowered(name) == name ==> well_named(after),
        in_order(before) ==> in_order(after),
{
    let others = without(before, name);
    let at = place_of(others, name) as int;
    let first = others.take(at);
    let rest = others.skip(at);
    let middle = seq![after[at]];
    lemma_without(before, name);
    lemma_place(others, name);
    assert(after == first + (middle + rest));
    assert(others == first + rest);
    assert(middle.skip(1).len() == 0);
    assert forall|other: Seq<char>| true implies #[trigger] found_in(after, other) == (if other
        == name {
        Some(after[at].alias)
    } else {
        found_in(before, other)
    }) by {
        lemma_found_in_parts(first, middle + rest, other);
        lemma_found_in_parts(middle, rest, other);
        lemma_found_in_parts(first, rest, other);
        lemma_found_without(before, name, other);
        if other != name {
            assert(alias_index(middle, other) == 1 + alias_index(middle.skip(1), other));
        }
    }
    assert forall|i: int, j: int| 0 <= i < j < after.len() && in_order(before) implies text::precedes(
        (#[trigger] after[i]).name@,
        (#[trigger] after[j]).name@,
    ) by {
        if i == at {
            assert(after[j] == others[j - 1]);
            if j - 1 > at {
                text::text_order_is_transitive(name, others[at].name@, others[j - 1].name@);
            }
        } else if j == at {
            assert(after[i] == others[i]);
            text::texts_are_ordered(others[i].name@, name);
        }
    }
}

/// An alias that was deleted is not found, and every other name finds what it did. Names stay unique and
/// in lower case, and a list in the order of the names stays in that order.
pub proof fn deleted_aliases_are_not_found(before: Seq<AliasEntry>, name: Seq<char>)
    ensures
        found_in(without(before, name), name) is None,
        forall|other: Seq<char>|
            other != name ==> #[trigger] found_in(without(before, name), other) == found_in(
                before,
                other,
            ),
        well_named(before) ==> well_named(without(before, name)),
        in_order(before) ==> in_order(without(before, name)),
{
    lemma_without(before, name);
    lemma_found_without(before, name, name);
    assert forall|other: Seq<char>| other != name implies #[trigger] found_in(
        without(before, name),
        other,
    ) == found_in(before, other) by {
        lemma_found_without(before, name, other);
    }
}

/// What a use of an alias stands for.
pub enum AliasUse {
    /// There is no such alias, or its arguments do not read as words.
    Unknown,
    /// A system summary whose arguments do not read as words: it tells what is wrong with them.
    Fastfetch { arguments: String },
    /// A command with these words.
    Invoke { target: String, words: Vec<String> },
}

/// The command that an alias stands for.
pub enum ResolvedAlias {
    Fastfetch { arguments: String },
    Command { name: String, args: String },
}

/// What a use of an alias resolves to. The arguments after the alias's own are those given; splitting
/// the command's arguments yields just these words. Arguments that do not read as words are for the
/// system summary alone.
pub open spec fn resolution(
    alias: Option<Alias>,
    args: Seq<char>,
    resolved: Option<ResolvedAlias>,
) -> bool {
    match (alias, shell_split(args)) {
        (Some(alias), Some(words)) => resolved matches Some(
            ResolvedAlias::Command { name: target, args: line },
        ) && target@ == alias.target@ && line@ == shell_join(text::views(alias.args@) + words)
            && shell_split(line@) == Some(text::views(alias.args@) + words),
        (Some(alias), None) => if alias.target@ == "fastfetch"@ {
            resolved matches Some(ResolvedAlias::Fastfetch { arguments }) && arguments@ == args
        } else {
            resolved is None
        },
        (None, _) => resolved is None,
    }
}

fn copy_strings(words: &Vec<String>) -> (copy: Vec<String>)
    ensures
        text::views(copy@) == text::views(words@),
{
    let mut copy: Vec<String> = Vec::new();
    push_strings(&mut copy, words);
    assert(text::views(copy@) == text::views(words@));
    copy
}

fn push_strings(list: &mut Vec<String>, words: &Vec<String>)
    ensures
        text::views(final(list)@) == text::views(old(list)@) + text::views(words@),
{
    let ghost before = text::views(list@);
    let ghost all = text::views(words@);
    let mut i: usize = 0;
    assert(before + all.take(0) == before);
    while i < words.len()
        invariant
            i <= words@.len(),
            all == text::views(words@),
            text::views(list@) == before + all.take(i as int),
        decreases words@.len() - i,
    {
        let ghost earlier = list@;
        list.push(words[i].clone());
        proof {
            assert(text::views(list@) == text::views(earlier).push(all[i as int]));
            assert(before + all.take(i + 1) == (before + all.take(i as int)).push(all[i as int]));
        }
        i = i + 1;
    }
    assert(all.take(i as int) == all);
}

impl AliasTable {
    /// No name occurs twice, and each is in lower case.
    pub open spec fn wf(self) -> bool {
        well_named(self.entries@)
    }

    /// The alias that a name stands for, up to the case of ASCII letters.
    pub open spec fn found(self, name: Seq<char>) -> Option<Alias> {
        found_in(self.entries@, text::lowered(name))
    }

    /// Lets `name` stand for `alias`, in place of what it stood for.
    pub fn add(&mut self, name: &str, alias: Alias)
        ensures
            adds(old(self).entries@, text::lowered(name@), alias@, final(self).entries@),
            final(self).found(name@) is Some && final(self).found(name@)->0@ == alias@,
            forall|other: Seq<char>|
                text::lowered(other) != text::lowered(name@) ==> #[trigger] final(self).found(other)
                    == old(self).found(other),
            old(self).wf() ==> final(self).wf(),
            in_order(old(self).entries@) ==> in_order(final(self).entries@),
    {
        let ghost before = self.entries@;
        self.delete(name);
        let key = text::to_ascii_lowercase(name);
        let ghost others = self.entries@;
        let ghost stored = alias@;
        let mut at: usize = 0;
        assert(others.skip(0) == others);
        while at < self.entries.len() && !text::comes_before(
            key.as_str(),
            self.entries[at].name.as_str(),
        )
            invariant
                at <= others.len(),
                self.entries@ == others,
                place_of(others, key@) == at + place_of(others.skip(at as int), key@),
            decreases others.len() - at,
        {
            assert(others.skip(at as int).skip(1) == others.skip(at + 1));
            at = at + 1;
        }
        self.entries.insert(at, AliasEntry { name: key, alias });
        proof {
            text::lowering_is_idempotent(name@);
            added_aliases_are_found(before, text::lowered(name@), stored, self.entries@);
        }
    }

    /// Lets `name` stand for nothing.
    pub fn delete(&mut self, name: &str)
        ensures
            final(self).entries@ == without(old(self).entries@, text::lowered(name@)),
            final(self).found(name@) is None,
            forall|other: Seq<char>|
                text::lowered(other) != text::lowered(name@) ==> #[trigger] final(self).found(other)
                    == old(self).found(other),
            old(self).wf() ==> final(self).wf(),
            in_order(old(self).entries@) ==> in_order(final(self).entries@),
    {
        let ghost before = self.entries@;
        let key = text::to_ascii_lowercase(name);
        let mut i: usize = 0;
        while i < self.entries.len()
            invariant
                i <= self.entries@.len(),
                without(self.entries@, key@) == without(before, key@),
                forall|j: int| 0 <= j < i ==> (#[trigger] self.entries@[j]).name@ != key@,
            decreases self.entries@.len() - i,
        {
            if text::same_text(self.entries[i].name.as_str(), key.as_str()) {
                proof {
                    lemma_without_removed(self.entries@, key@, i as int);
                }
                self.entries.remove(i);
            } else {
                i = i + 1;
            }
        }
        proof {
            lemma_without_nothing(self.entries@, key@);
            deleted_aliases_are_not_found(before, key@);
        }
    }

    /// Makes the change that a request asks for, where it was stored.
    pub fn apply(&mut self, request: &AliasRequest, change: AliasChange)
        ensures
            changed(*old(self), *request, change, *final(self)),
            old(self).wf() ==> final(self).wf(),
            in_order(old(self).entries@) ==> in_order(final(self).entries@),
    {
        if change != AliasChange::Made {
            return;
        }
        match request {
            AliasRequest::Add { name, target, args } => {
                let alias = Alias { target: target.clone(), args: copy_strings(args) };
                self.add(name.as_str(), alias);
            },
            AliasRequest::Delete { name } => self.delete(name.as_str()),
            _ => {},
        }
    }

    /// [`AliasTable::found`], looked up.
    pub fn lookup(&self, name: &str) -> (alias: Option<&Alias>)
        ensures
            match alias {
                Some(alias) => self.found(name@) == Some(*alias),
                None => self.found(name@) is None,
            },
    {
        let key = text::to_ascii_lowercase(name);
        let mut i: usize = 0;
        assert(self.entries@.skip(0) == self.entries@);
        while i < self.entries.len()
            invariant
                i <= self.entries@.len(),
                key@ == text::lowered(name@),
                alias_index(self.entries@, key@) == i + alias_index(
                    self.entries@.skip(i as int),
                    key@,
                ),
            decreases self.entries@.len() - i,
        {
            if text::same_text(self.entries[i].name.as_str(), key.as_str()) {
                return Some(&self.entries[i].alias);
            }
            assert(self.entries@.skip(i as int).skip(1) == self.entries@.skip(i + 1));
            i = i + 1;
        }
        None
    }

    /// What a use of the alias `name` stands for, given its arguments and the words that they split
    /// into. The alias's own arguments come first.
    pub fn invocation(&self, name: &str, args: &str, split: Option<Vec<String>>) -> (found: AliasUse)
        ensures
            match (self.found(name@), split) {
                (Some(alias), Some(words)) => found matches AliasUse::Invoke {
                    target,
                    words: all,
                } && target@ == alias.target@ && text::views(all@) == text::views(alias.args@)
                    + text::views(words@),
                (Some(alias), None) => if alias.target@ == "fastfetch"@ {
                    found matches AliasUse::Fastfetch { arguments } && arguments@ == args@
                } else {
                    found is Unknown
                },
                (None, _) => found is Unknown,
            },
    {
        let alias = match self.lookup(name) {
            Some(alias) => alias,
            None => return AliasUse::Unknown,
        };
        match split {
            Some(words) => {
                let mut all = copy_strings(&alias.args);
                push_strings(&mut all, &words);
                AliasUse::Invoke { target: alias.target.clone(), words: all }
            },
            None => {
                if text::same_text(alias.target.as_str(), "fastfetch") {
                    AliasUse::Fastfetch { arguments: args.to_owned() }
                } else {
                    AliasUse::Unknown
                }
            },
        }
    }

    /// The command that a use of the alias `name` stands for: its target, with the alias's own
    /// arguments before those given. Splitting the command's arguments yields just these words.
    pub fn resolve_alias(&self, name: &str, args: &str) -> (resolved: Option<ResolvedAlias>)
        ensures
            resolution(self.found(name@), args@, resolved),
    {
        let split = split_line(args);
        match self.invocation(name, args, split) {
            AliasUse::Unknown => None,
            AliasUse::Fastfetch { arguments } => Some(ResolvedAlias::Fastfetch { arguments }),
            AliasUse::Invoke { target, words } => Some(
                ResolvedAlias::Command { name: target, args: join_words(&words) },
            ),
        }
    }
}

/// Arguments after a command, quoted and set apart, where there are any.
pub open spec fn arguments_suffix(args: Seq<Seq<char>>) -> Seq<char> {
    if args.len() == 0 {
        Seq::empty()
    } else {
        " "@ + shell_join(args)
    }
}

fn render_arguments(args: &Vec<String>) -> (suffix: String)
    ensures
        suffix@ == arguments_suffix(text::views(args@)),
{
    if args.is_empty() {
        String::new()
    } else {
        let mut suffix = " ".to_owned();
        suffix.append(join_words(args).as_str());
        suffix
    }
}

/// The line of an alias in the list.
pub open spec fn list_line(locale: Locale, prefix: Seq<char>, entry: AliasEntry) -> Seq<char> {
    text::replaced(
        text::replaced(
            text::replaced(
                text::replaced(alias_text(locale, AliasText::ListItem)@, "{prefix}"@, prefix),
                "{name}"@,
                entry.name@,
            ),
            "{target}"@,
            entry.alias.target@,
        ),
        "{args}"@,
        arguments_suffix(text::views(entry.alias.args@)),
    )
}

fn render_list_line(locale: Locale, prefix: &str, entry: &AliasEntry) -> (line: String)
    ensures
        line@ == list_line(locale, prefix@, *entry),
{
    let line = text::replace(alias_text(locale, AliasText::ListItem), "{prefix}", prefix);
    let line = text::replace(line.as_str(), "{name}", entry.name.as_str());
    let line = text::replace(line.as_str(), "{target}", entry.alias.target.as_str());
    text::replace(line.as_str(), "{args}", render_arguments(&entry.alias.args).as_str())
}

/// A message about the alias `name`, with the command prefix filled in.
pub open spec fn about_alias(
    locale: Locale,
    key: AliasText,
    prefix: Seq<char>,
    name: Seq<char>,
) -> Seq<char> {
    text::replaced(
        text::replaced(alias_text(locale, key)@, "{prefix}"@, prefix),
        "{name}"@,
        name,
    )
}

fn render_about(locale: Locale, key: AliasText, prefix: &str, name: &str) -> (message: String)
    ensures
        message@ == about_alias(locale, key, prefix@, name@),
{
    let message = text::replace(alias_text(locale, key), "{prefix}", prefix);
    text::replace(message.as_str(), "{name}", name)
}

/// What is shown of an alias that stands for `target` with `args`.
pub open spec fn shown_view(
    locale: Locale,
    prefix: Seq<char>,
    name: Seq<char>,
    target: Seq<char>,
    args: Seq<Seq<char>>,
) -> ResponseView {
    response::collapsed_view(
        locale,
        about_alias(locale, AliasText::ShowHeading, prefix, text::lowered(name)),
        text::replaced(
            text::replaced(
                text::replaced(alias_text(locale, AliasText::Target)@, "{prefix}"@, prefix),
                "{target}"@,
                target,
            ),
            "{args}"@,
            arguments_suffix(args),
        ),
    ).0
}

/// The answer to a request about aliases; `change` is what came of the change that it asks for.
pub open spec fn alias_view(
    locale: Locale,
    prefix: Seq<char>,
    table: AliasTable,
    request: AliasRequest,
    change: AliasChange,
) -> ResponseView {
    match request {
        AliasRequest::List => response::plain_view(
            locale,
            if table.entries@.len() == 0 {
                alias_text(locale, AliasText::Empty)@
            } else {
                text::replaced(
                    alias_text(locale, AliasText::List)@,
                    "{items}"@,
                    text::joined(
                        table.entries@.map_values(
                            |entry: AliasEntry| list_line(locale, prefix, entry),
                        ),
                        "\n"@,
                    ),
                )
            },
        ),
        AliasRequest::Add { name, .. } => response::plain_view(
            locale,
            if change == AliasChange::Made {
                about_alias(locale, AliasText::Added, prefix, name@)
            } else {
                alias_text(locale, AliasText::AddFailed)@
            },
        ),
        AliasRequest::Delete { name } => response::plain_view(
            locale,
            match change {
                AliasChange::Made => about_alias(locale, AliasText::Deleted, prefix, name@),
                AliasChange::NotFound => text::replaced(
                    alias_text(locale, AliasText::NotFound)@,
                    "{name}"@,
                    name@,
                ),
                AliasChange::Failed => alias_text(locale, AliasText::DeleteFailed)@,
            },
        ),
        AliasRequest::Show { name } => match table.found(name@) {
            Some(alias) => shown_view(
                locale,
                prefix,
                name@,
                alias.target@,
                text::views(alias.args@),
            ),
            None => response::plain_view(
                locale,
                about_alias(locale, AliasText::DoesNotExist, prefix, text::lowered(name@)),
            ),
        },
        AliasRequest::Invalid => response::plain_view(
            locale,
            text::replaced(alias_text(locale, AliasText::Usage)@, "{prefix}"@, prefix),
        ),
    }
}

/// Whether a request turns the aliases `before` into `after`: one that was stored adds or deletes its
/// alias, any other changes nothing.
pub open spec fn changed(
    before: AliasTable,
    request: AliasRequest,
    change: AliasChange,
    after: AliasTable,
) -> bool {
    match (request, change) {
        (AliasRequest::Add { name, target, args }, AliasChange::Made) => adds(
            before.entries@,
            text::lowered(name@),
            AliasView { target: target@, args: text::views(args@) },
            after.entries@,
        ),
        (AliasRequest::Delete { name }, AliasChange::Made) => after.entries@ == without(
            before.entries@,
            text::lowered(name@),
        ),
        _ => after == before,
    }
}

/// After a change that was stored, an added name stands for what was asked, a deleted one for nothing, and
/// every other name for what it did.
pub proof fn changes_take_effect(
    before: AliasTable,
    request: AliasRequest,
    change: AliasChange,
    after: AliasTable,
)
    requires
        changed(before, request, change, after),
    ensures
        match (request, change) {
            (AliasRequest::Add { name, target, args }, AliasChange::Made) => {
                &&& after.found(name@) is Some
                &&& after.found(name@)->0.target@ == target@
                &&& text::views(after.found(name@)->0.args@) == text::views(args@)
                &&& forall|other: Seq<char>|
                    text::lowered(other) != text::lowered(name@) ==> #[trigger] after.found(other)
                        == before.found(other)
            },
            (AliasRequest::Delete { name }, AliasChange::Made) => {
                &&& after.found(name@) is None
                &&& forall|other: Seq<char>|
                    text::lowered(other) != text::lowered(name@) ==> #[trigger] after.found(other)
                        == before.found(other)
            },
            _ => after == before,
        },
        before.wf() ==> after.wf(),
        in_order(before.entries@) ==> in_order(after.entries@),
{
    match (request, change) {
        (AliasRequest::Add { name, target, args }, AliasChange::Made) => {
            text::lowering_is_idempotent(name@);
            added_aliases_are_found(
                before.entries@,
                text::lowered(name@),
                AliasView { target: target@, args: text::views(args@) },
                after.entries@,
            );
        },
        (AliasRequest::Delete { name }, AliasChange::Made) => {
            deleted_aliases_are_not_found(before.entries@, text::lowered(name@));
        },
        _ => {},
    }
}

/// Once an alias was added, every use of it, in whatever case, resolves to its target with its own
/// arguments before those given; once it was deleted, to nothing. Uses of other names resolve as before.
pub proof fn uses_follow_the_changes(
    before: AliasTable,
    request: AliasRequest,
    after: AliasTable,
    used: Seq<char>,
    args: Seq<char>,
    resolved: Option<ResolvedAlias>,
)
    requires
        changed(before, request, AliasChange::Made, after),
        resolution(after.found(used), args, resolved),
    ensures
        match request {
            AliasRequest::Add { name, target, args: own } => if text::lowered(used)
                == text::lowered(name@) {
                match shell_split(args) {
                    Some(words) => resolved matches Some(
                        ResolvedAlias::Command { name: command, args: line },
                    ) && command@ == target@ && shell_split(line@) == Some(
                        text::views(own@) + words,
                    ),
                    None => resolved is Some <==> target@ == "fastfetch"@,
                }
            } else {
                resolution(before.found(used), args, resolved)
            },
            AliasRequest::Delete { name } => if text::lowered(used) == text::lowered(name@) {
                resolved is None
            } else {
                resolution(before.found(used), args, resolved)
            },
            _ => resolution(before.found(used), args, resolved),
        },
{
    changes_take_effect(before, request, AliasChange::Made, after);
}

/// [`alias_view`] as a response.
pub fn execute_alias(
    locale: Locale,
    prefix: &str,
    table: &AliasTable,
    request: &AliasRequest,
    change: AliasChange,
) -> (answer: Response)
    ensures
        answer@ == alias_view(locale, prefix@, *table, *request, change),
{
    match request {
        AliasRequest::List => {
            if table.entries.is_empty() {
                return Response::plain_with_locale(locale, alias_text(locale, AliasText::Empty));
            }
            let items = render_items(locale, prefix, table);
            Response::plain_with_locale(
                locale,
                text::replace(
                    alias_text(locale, AliasText::List),
                    "{items}",
                    text::join(&items, "\n").as_str(),
                ).as_str(),
            )
        },
        AliasRequest::Add { name, .. } => {
            if change == AliasChange::Made {
                let message = render_about(locale, AliasText::Added, prefix, name.as_str());
                Response::plain_with_locale(locale, message.as_str())
            } else {
                Response::plain_with_locale(locale, alias_text(locale, AliasText::AddFailed))
            }
        },
        AliasRequest::Delete { name } => match change {
            AliasChange::Made => {
                let message = render_about(locale, AliasText::Deleted, prefix, name.as_str());
                Response::plain_with_locale(locale, message.as_str())
            },
            AliasChange::NotFound => {
                let message = text::replace(
                    alias_text(locale, AliasText::NotFound),
                    "{name}",
                    name.as_str(),
                );
                Response::plain_with_locale(locale, message.as_str())
            },
            AliasChange::Failed => Response::plain_with_locale(
                locale,
                alias_text(locale, AliasText::DeleteFailed),
            ),
        },
        AliasRequest::Show { name } => {
            let normalized = text::to_ascii_lowercase(name.as_str());
            match table.lookup(name.as_str()) {
                Some(alias) => {
                    let heading = render_about(
                        locale,
                        AliasText::ShowHeading,
                        prefix,
                        normalized.as_str(),
                    );
                    let body = text::replace(
                        alias_text(locale, AliasText::Target),
                        "{prefix}",
                        prefix,
                    );
                    let body = text::replace(body.as_str(), "{target}", alias.target.as_str());
                    let body = text::replace(
                        body.as_str(),
                        "{args}",
                        render_arguments(&alias.args).as_str(),
                    );
                    Response::collapsed_with_locale(locale, heading, body).response
                },
                None => {
                    let message = render_about(
                        locale,
                        AliasText::DoesNotExist,
                        prefix,
                        normalized.as_str(),
                    );
                    Response::plain_with_locale(locale, message.as_str())
                },
            }
        },
        AliasRequest::Invalid => {
            let message = text::replace(alias_text(locale, AliasText::Usage), "{prefix}", prefix);
            Response::plain_with_locale(locale, message.as_str())
        },
    }
}

fn render_items(locale: Locale, prefix: &str, table: &AliasTable) -> (items: Vec<String>)
    ensures
        text::views(items@) == table.entries@.map_values(
            |entry: AliasEntry| list_line(locale, prefix@, entry),
        ),
{
    let ghost shown = |entry: AliasEntry| list_line(locale, prefix@, entry);
    let mut items: Vec<String> = Vec::new();
    let mut i: usize = 0;
    assert(text::views(items@) == table.entries@.take(0).map_values(shown));
    while i < table.entries.len()
        invariant
            i <= table.entries@.len(),
            shown == (|entry: AliasEntry| list_line(locale, prefix@, entry)),
            text::views(items@) == table.entries@.take(i as int).map_values(shown),
        decreases table.entries@.len() - i,
    {
        let line = render_list_line(locale, prefix, &table.entries[i]);
        let ghost before = items@;
        let ghost rendered = line@;
        items.push(line);
        proof {
            assert(text::views(items@) == text::views(before).push(rendered));
            assert(table.entries@.take(i + 1).map_values(shown) == table.entries@.take(
                i as int,
            ).map_values(shown).push(shown(table.entries@[i as int])));
        }
        i = i + 1;
    }
    assert(table.entries@.take(i as int) == table.entries@);
    items
}

proof fn lemma_alias_index(entries: Seq<AliasEntry>, at: int)
    requires
        0 <= at < entries.len(),
        forall|i: int| 0 <= i < at ==> (#[trigger] entries[i]).name@ != entries[at].name@,
    ensures
        alias_index(entries, entries[at].name@) == at,
    decreases at,
{
    if at > 0 {
        assert(entries[0].name@ != entries[at].name@);
        let rest = entries.skip(1);
        assert forall|i: int| 0 <= i < at - 1 implies (#[trigger] rest[i]).name@ != rest[at
            - 1].name@ by {
            assert(rest[i] == entries[i + 1]);
        }
        lemma_alias_index(rest, at - 1);
    }
}

/// Each alias is found by its own name, in whatever case it is written.
pub proof fn aliases_are_found_by_their_names(table: AliasTable, at: int, name: Seq<char>)
    requires
        table.wf(),
        0 <= at < table.entries@.len(),
        text::lowered(name) == table.entries@[at].name@,
    ensures
        table.found(name) == Some(table.entries@[at].alias),
{
    lemma_alias_index(table.entries@, at);
}

/// An alias that was added is listed and shown as it was asked for, and one that was deleted is told not to
/// exist.
pub proof fn answers_follow_the_changes(
    before: AliasTable,
    request: AliasRequest,
    after: AliasTable,
    locale: Locale,
    prefix: Seq<char>,
    shown: String,
    change: AliasChange,
)
    requires
        changed(before, request, AliasChange::Made, after),
    ensures
        match request {
            AliasRequest::Add { name, target, args } => {
                &&& exists|i: int|
                    0 <= i < after.entries@.len() && (#[trigger] after.entries@[i]).name@
                        == text::lowered(name@) && after.entries@[i].alias.target@ == target@
                        && text::views(after.entries@[i].alias.args@) == text::views(args@)
                &&& text::lowered(shown@) == text::lowered(name@) ==> alias_view(
                    locale,
                    prefix,
                    after,
                    AliasRequest::Show { name: shown },
                    change,
                ) == shown_view(locale, prefix, shown@, target@, text::views(args@))
            },
            AliasRequest::Delete { name } => text::lowered(shown@) == text::lowered(name@)
                ==> alias_view(
                locale,
                prefix,
                after,
                AliasRequest::Show { name: shown },
                change,
            ) == response::plain_view(
                locale,
                about_alias(locale, AliasText::DoesNotExist, prefix, text::lowered(name@)),
            ),
            _ => after == before,
        },
{
    changes_take_effect(before, request, AliasChange::Made, after);
    match request {
        AliasRequest::Add { name, .. } => {
            let at = place_of(
                without(before.entries@, text::lowered(name@)),
                text::lowered(name@),
            ) as int;
            assert(after.entries@[at].name@ == text::lowered(name@));
        },
        _ => {},
    }
}

/// Every answer about aliases can be sent, whatever they are called and stand for.
pub proof fn alias_answers_are_sendable(
    locale: Locale,
    prefix: Seq<char>,
    table: AliasTable,
    request: AliasRequest,
    change: AliasChange,
)
    ensures
        response::sendable(alias_view(locale, prefix, table, request, change)),
{
    let answer = alias_view(locale, prefix, table, request, change);
    assert forall|text: Seq<char>| #[trigger]
        response::plain_view(locale, text) == answer implies response::sendable(answer) by {
        response::plain_is_sendable(locale, text);
    }
    assert forall|heading: Seq<char>, body: Seq<char>| #[trigger]
        response::collapsed_view(locale, heading, body).0 == answer implies response::sendable(
        answer,
    ) by {
        response::collapsed_is_sendable(locale, heading, body);
    }
}

} // verus!
