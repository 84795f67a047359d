//! What holds of the built-in modules and of the origins of external ones.
use crate::modules;
use crate::modules::{CommandDefinition, ModuleId, ModuleOrigin};
use crate::text;
use vstd::prelude::*;

verus! {

/// A built-in module is found by its name alone, in whatever case.
pub proof fn modules_are_found_by_their_names(name: Seq<char>)
    ensures
        modules::named(name) == Some(ModuleId::Core) <==> text::lowered(name) == "core"@,
        modules::named(name) == Some(ModuleId::System) <==> text::lowered(name) == "system"@,
        modules::named(name) == Some(ModuleId::Aliases) <==> text::lowered(name) == "aliases"@,
        modules::registry().len() == 3,
{
    reveal_strlit("core");
    reveal_strlit("system");
    reveal_strlit("aliases");
    assert("core"@.len() == 4 && "system"@.len() == 6 && "aliases"@.len() == 7);
}

/// The commands of a module are those that belong to it, all of them and in their order.
pub proof fn commands_belong_to_their_module(commands: Seq<CommandDefinition>, id: ModuleId)
    ensures
        modules::of_module(commands, id) == commands.filter(
            |command: CommandDefinition| command.module == id,
        ),
    decreases commands.len(),
{
    reveal(Seq::filter);
    if commands.len() > 0 {
        commands_belong_to_their_module(commands.drop_last(), id);
    }
}

/// Whether a character may stand in what an external module says of its origin.
pub open spec fn honest(c: char) -> bool {
    c as int >= 32 && !(127 <= c as int && (c as int) < 160) && c as int != 8232 && c as int != 8233
        && !super::text::direction_codes().contains(c as int)
}

/// Whether a value is not empty, within its limit and made of honest characters.
pub open spec fn honest_within(value: Seq<char>, limit: nat) -> bool {
    0 < value.len() <= limit && forall|i: int| 0 <= i < value.len() ==> honest(#[trigger] value[i])
}

proof fn lemma_honest_character(c: char)
    ensures
        honest(c) <==> !modules::deceptive(c),
{
    super::text::control_characters_are_unicodes(c);
    super::text::directional_characters_are_unicodes(c);
    assert(c as int == (c as u32) as int);
}

proof fn lemma_honest(value: Seq<char>, limit: nat)
    ensures
        modules::valid_value(value, limit) <==> honest_within(value, limit),
{
    if honest_within(value, limit) {
        assert forall|i: int| 0 <= i < value.len() implies !modules::deceptive(#[trigger] value[i]) by {
            lemma_honest_character(value[i]);
            assert(honest(value[i]));
        }
    }
    if modules::valid_value(value, limit) {
        assert forall|i: int| 0 <= i < value.len() implies honest(#[trigger] value[i]) by {
            lemma_honest_character(value[i]);
            assert(!modules::deceptive(value[i]));
        }
    }
}

/// An external origin is valid exactly where author, version and source are given within 64, 32 and 256
/// characters, none of which could mislead, and the source is no place on this machine.
pub proof fn valid_origins_do_not_mislead(
    author: &'static str,
    version: &'static str,
    source: &'static str,
)
    ensures
        modules::valid_origin(ModuleOrigin::External { author, version, source }) <==> honest_within(
            author@,
            64,
        ) && honest_within(version@, 32) && honest_within(source@, 256) && !modules::local_source(source@),
        modules::valid_origin(ModuleOrigin::Builtin),
{
    lemma_honest(author@, 64);
    lemma_honest(version@, 32);
    lemma_honest(source@, 256);
}

/// A source on this machine is a path from the root, with either slash, a file address in whatever case, or a
/// path on a drive; whatever else follows.
pub proof fn local_sources_are_recognized(rest: Seq<char>, drive: char, slash: char, source: Seq<char>)
    requires
        slash == '/' || slash == '\\',
        (65 <= drive as int && drive as int <= 90) || (97 <= drive as int && drive as int <= 122),
    ensures
        modules::local_source(seq![slash] + rest),
        modules::local_source(seq![drive, ':', slash] + rest),
        source.len() >= 5 && text::lowered(source.take(5)) == seq!['f', 'i', 'l', 'e', ':']
            ==> modules::local_source(source),
        source.len() == 0 ==> !modules::local_source(source),
        source.len() > 0 && source[0] != '/' && source[0] != '\\' && (source.len() < 3 || source[1] != ':')
            && (source.len() < 5 || source[4] != ':') ==> !modules::local_source(source),
{
    reveal_strlit("file:");
    assert("file:"@ == seq!['f', 'i', 'l', 'e', ':']);
    super::text::control_characters_are_unicodes(drive);
    if source.len() >= 5 && source[4] != ':' {
        super::text::lower_case_changes_capitals_alone(source.take(5));
        assert(source.take(5)[4] == source[4]);
        assert(text::lowered(source.take(5))[4] as u32 != ':' as u32);
    }
    let path = seq![drive, ':', slash] + rest;
    assert(path[0] == drive && path[1] == ':' && path[2] == slash);
    assert((seq![slash] + rest)[0] == slash);
}

} // verus!
