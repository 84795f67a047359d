//! What holds of aliases beyond their changes: how they are listed and what their uses mean.
use crate::i18n::{alias_text, AliasText, Locale};
use crate::response;
use crate::runtime::alias;
use crate::runtime::alias::{
    Alias, AliasChange, AliasEntry, AliasRequest, AliasTable, ResolvedAlias,
};
use crate::text;
use vstd::prelude::*;

verus! {

/// A use of an alias is its target with the alias's own words before the given ones. Where the given text does
/// not split into words, only the system summary is used, with the text as it is; a name without an alias means
/// nothing.
pub proof fn uses_put_the_own_words_first(
    alias: Alias,
    args: Seq<char>,
    words: Seq<Seq<char>>,
    resolved: Option<ResolvedAlias>,
)
    ensures
        alias::resolution(Some(alias), args, resolved) && alias::shell_split(args) == Some(words) ==> (
        resolved matches Some(ResolvedAlias::Command { name, args: line }) && name@ == alias.target@
            && alias::shell_split(line@) == Some(text::views(alias.args@) + words)),
        alias::resolution(Some(alias), args, resolved) && alias::shell_split(args) is None ==> match resolved {
            Some(ResolvedAlias::Fastfetch { arguments }) => alias.target@ == "fastfetch"@ && arguments@
                == args,
            Some(ResolvedAlias::Command { .. }) => false,
            None => alias.target@ != "fastfetch"@,
        },
        alias::resolution(None, args, resolved) ==> resolved is None,
{
}

/// An alias is found where its name, in lower case, is listed, and the first one so listed; nothing is found
/// where it is not.
pub proof fn names_are_looked_up_in_lower_case(table: AliasTable, name: Seq<char>)
    ensures
        match table.found(name) {
            Some(found) => exists|i: int|
                0 <= i < table.entries@.len() && (#[trigger] table.entries@[i]).name@ == text::lowered(name)
                    && table.entries@[i].alias == found && forall|j: int|
                    0 <= j < i ==> (#[trigger] table.entries@[j]).name@ != text::lowered(name),
            None => forall|i: int|
                0 <= i < table.entries@.len() ==> (#[trigger] table.entries@[i]).name@ != text::lowered(
                    name,
                ),
        },
{
    lemma_first(table.entries@, text::lowered(name));
    let at = alias::alias_index(table.entries@, text::lowered(name)) as int;
    if at < table.entries@.len() {
        assert(table.entries@[at].name@ == text::lowered(name));
    }
}

proof fn lemma_first(entries: Seq<AliasEntry>, name: Seq<char>)
    ensures
        ({
            let at = alias::alias_index(entries, name) as int;
            &&& at <= entries.len()
            &&& at < entries.len() ==> entries[at].name@ == name
            &&& forall|i: int| 0 <= i < at ==> (#[trigger] entries[i]).name@ != name
        }),
    decreases entries.len(),
{
    if entries.len() > 0 && entries[0].name@ != name {
        let rest = entries.skip(1);
        lemma_first(rest, name);
        let at = alias::alias_index(entries, name) as int;
        assert forall|i: int| 0 <= i < at implies (#[trigger] entries[i]).name@ != name by {
            if i > 0 {
                assert(rest[i - 1] == entries[i]);
            }
        }
    }
}

/// The list shows every alias, in order, one line each; without aliases it says so.
pub proof fn lists_show_every_alias(
    locale: Locale,
    prefix: Seq<char>,
    table: AliasTable,
    lines: Seq<Seq<char>>,
    change: AliasChange,
)
    requires
        lines.len() == table.entries@.len(),
        forall|i: int|
            0 <= i < lines.len() ==> #[trigger] lines[i] == alias::list_line(
                locale,
                prefix,
                table.entries@[i],
            ),
    ensures
        alias::alias_view(locale, prefix, table, AliasRequest::List, change) == response::plain_view(
            locale,
            if lines.len() == 0 {
                alias_text(locale, AliasText::Empty)@
            } else {
                text::replaced(
                    alias_text(locale, AliasText::List)@,
                    "{items}"@,
                    text::joined(lines, seq!['\n']),
                )
            },
        ),
{
    reveal_strlit("\n");
    assert("\n"@ == seq!['\n']);
    let shown = table.entries@.map_values(
        |entry: AliasEntry| alias::list_line(locale, prefix, entry),
    );
    assert(shown =~= lines);
}

/// A line of the list tells the prefix, the name, the target and, set apart by a space, the quoted arguments;
/// without arguments nothing follows the target.
pub proof fn lines_tell_name_target_and_arguments(
    locale: Locale,
    prefix: Seq<char>,
    entry: AliasEntry,
)
    ensures
        ({
            let args = text::views(entry.alias.args@);
            let suffix = if args.len() == 0 {
                Seq::empty()
            } else {
                seq![' '] + alias::shell_join(args)
            };
            alias::list_line(locale, prefix, entry) == text::replaced(
                text::replaced(
                    text::replaced(
                        text::replaced(
                            alias_text(locale, AliasText::ListItem)@,
                            "{prefix}"@,
                            prefix,
                        ),
                        "{name}"@,
                        entry.name@,
                    ),
                    "{target}"@,
                    entry.alias.target@,
                ),
                "{args}"@,
                suffix,
            )
        }),
{
    reveal_strlit(" ");
    assert(" "@ == seq![' ']);
}

/// A change is told to have been made exactly where it was, under the name that was given; a deletion also says
/// where there was nothing to delete.
pub proof fn changes_are_told_as_they_were_made(
    locale: Locale,
    prefix: Seq<char>,
    table: AliasTable,
    name: String,
    target: String,
    args: Vec<String>,
)
    ensures
        ({
            let told = |request: AliasRequest, change: AliasChange|
                alias::alias_view(locale, prefix, table, request, change);
            let add = AliasRequest::Add { name, target, args };
            let delete = AliasRequest::Delete { name };
            let about = |key: AliasText|
                response::plain_view(
                    locale,
                    text::replaced(
                        text::replaced(alias_text(locale, key)@, "{prefix}"@, prefix),
                        "{name}"@,
                        name@,
                    ),
                );
            &&& told(add, AliasChange::Made) == about(AliasText::Added)
            &&& told(add, AliasChange::Failed) == response::plain_view(
                locale,
                alias_text(locale, AliasText::AddFailed)@,
            )
            &&& told(add, AliasChange::NotFound) == told(add, AliasChange::Failed)
            &&& told(delete, AliasChange::Made) == about(AliasText::Deleted)
            &&& told(delete, AliasChange::NotFound) == response::plain_view(
                locale,
                text::replaced(alias_text(locale, AliasText::NotFound)@, "{name}"@, name@),
            )
            &&& told(delete, AliasChange::Failed) == response::plain_view(
                locale,
                alias_text(locale, AliasText::DeleteFailed)@,
            )
        }),
{
}

/// An alias is shown with its target and its own arguments, under its name in lower case; a name without an alias
/// is told not to exist.
pub proof fn aliases_are_shown_as_they_are(
    locale: Locale,
    prefix: Seq<char>,
    table: AliasTable,
    name: String,
    change: AliasChange,
)
    ensures
        ({
            let shown = alias::alias_view(
                locale,
                prefix,
                table,
                AliasRequest::Show { name },
                change,
            );
            match table.found(name@) {
                Some(found) => shown == response::collapsed_view(
                    locale,
                    text::replaced(
                        text::replaced(
                            alias_text(locale, AliasText::ShowHeading)@,
                            "{prefix}"@,
                            prefix,
                        ),
                        "{name}"@,
                        text::lowered(name@),
                    ),
                    text::replaced(
                        text::replaced(
                            text::replaced(
                                alias_text(locale, AliasText::Target)@,
                                "{prefix}"@,
                                prefix,
                            ),
                            "{target}"@,
                            found.target@,
                        ),
                        "{args}"@,
                        alias::arguments_suffix(text::views(found.args@)),
                    ),
                ).0,
                None => shown == response::plain_view(
                    locale,
                    text::replaced(
                        text::replaced(
                            alias_text(locale, AliasText::DoesNotExist)@,
                            "{prefix}"@,
                            prefix,
                        ),
                        "{name}"@,
                        text::lowered(name@),
                    ),
                ),
            }
        }),
        alias::alias_view(locale, prefix, table, AliasRequest::Invalid, change) == response::plain_view(
            locale,
            text::replaced(alias_text(locale, AliasText::Usage)@, "{prefix}"@, prefix),
        ),
{
}

} // verus!
