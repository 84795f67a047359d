//! The built-in modules and the checks on the origin of external ones.
use crate::text;
use vstd::prelude::*;

verus! {

/// The built-in modules.
#[derive(Clone, Copy, Debug, PartialEq, Eq, Hash, Structural)]
pub enum ModuleId {
    Core,
    System,
    Aliases,
}

/// Where a module comes from.
#[derive(Clone, Copy, Debug, PartialEq, Eq)]
pub enum ModuleOrigin {
    Builtin,
    External { author: &'static str, version: &'static str, source: &'static str },
}

/// What a module may use.
#[derive(Clone, Copy, Debug, PartialEq, Eq, Hash, Structural)]
pub enum ModuleCapability {
    TelegramRpc,
    PersistentStateRead,
    PersistentStateWrite,
    HostInformation,
    RestrictedProcess,
    Network,
}

/// The description of a module.
#[derive(Clone, Debug, PartialEq, Eq)]
pub struct ModuleSpec {
    pub id: ModuleId,
    pub name: &'static str,
    pub description_ru: &'static str,
    pub icon: &'static str,
    pub origin: ModuleOrigin,
    pub capabilities: Vec<ModuleCapability>,
    pub unloadable: bool,
    pub replaceable: bool,
}

/// The model of a [`ModuleSpec`].
#[verifier::ext_equal]
pub struct ModuleView {
    pub id: ModuleId,
    pub name: Seq<char>,
    pub description_ru: Seq<char>,
    pub icon: Seq<char>,
    pub origin: ModuleOrigin,
    pub capabilities: Seq<ModuleCapability>,
    pub unloadable: bool,
    pub replaceable: bool,
}

impl View for ModuleSpec {
    type V = ModuleView;

    open spec fn view(&self) -> ModuleView {
        ModuleView {
            id: self.id,
            name: self.name@,
            description_ru: self.description_ru@,
            icon: self.icon@,
            origin: self.origin,
            capabilities: self.capabilities@,
            unloadable: self.unloadable,
            replaceable: self.replaceable,
        }
    }
}

/// The definition of each built-in module.
pub open spec fn definition(id: ModuleId) -> ModuleView {
    match id {
        ModuleId::Core => ModuleView {
            id,
            name: "core"@,
            description_ru: "Основные команды Lavis."@,
            icon: "🧩"@,
            origin: ModuleOrigin::Builtin,
            capabilities: seq![
                ModuleCapability::TelegramRpc,
                ModuleCapability::PersistentStateRead,
                ModuleCapability::PersistentStateWrite,
                ModuleCapability::HostInformation,
            ],
            unloadable: false,
            replaceable: false,
        },
        ModuleId::System => ModuleView {
            id,
            name: "system"@,
            description_ru: "Безопасно ограниченная системная информация."@,
            icon: "🖥"@,
            origin: ModuleOrigin::Builtin,
            capabilities: seq![
                ModuleCapability::HostInformation,
                ModuleCapability::RestrictedProcess,
            ],
            unloadable: false,
            replaceable: false,
        },
        ModuleId::Aliases => ModuleView {
            id,
            name: "aliases"@,
            description_ru: "Постоянные псевдонимы команд."@,
            icon: "🔗"@,
            origin: ModuleOrigin::Builtin,
            capabilities: seq![
                ModuleCapability::PersistentStateRead,
                ModuleCapability::PersistentStateWrite,
            ],
            unloadable: false,
            replaceable: false,
        },
    }
}

/// The built-in modules in the order in which they are listed.
pub open spec fn registry() -> Seq<ModuleView> {
    seq![
        definition(ModuleId::Core),
        definition(ModuleId::System),
        definition(ModuleId::Aliases),
    ]
}

/// The module whose name is `name` up to the case of ASCII letters.
pub open spec fn named(name: Seq<char>) -> Option<ModuleId> {
    if text::lowered(name) == "core"@ {
        Some(ModuleId::Core)
    } else if text::lowered(name) == "system"@ {
        Some(ModuleId::System)
    } else if text::lowered(name) == "aliases"@ {
        Some(ModuleId::Aliases)
    } else {
        None
    }
}

/// [`registry`], built.
pub fn modules() -> (modules: Vec<ModuleSpec>)
    ensures
        modules@.map_values(|module: ModuleSpec| module@) == registry(),
{
    let modules = vec![
        module_definition(ModuleId::Core),
        module_definition(ModuleId::System),
        module_definition(ModuleId::Aliases),
    ];
    assert(modules@.map_values(|module: ModuleSpec| module@) == registry());
    modules
}

/// The module with this id. Every id is registered.
pub fn module_by_id(id: ModuleId) -> (module: Option<ModuleSpec>)
    ensures
        module is Some,
        module->0@ == definition(id),
{
    Some(module_definition(id))
}

/// The module whose name is `name` up to the case of ASCII letters.
pub fn module_by_name(name: &str) -> (module: Option<ModuleSpec>)
    ensures
        match named(name@) {
            Some(id) => module is Some && module->0@ == definition(id),
            None => module is None,
        },
{
    let lower = text::to_ascii_lowercase(name);
    if text::same_text(lower.as_str(), "core") {
        Some(module_definition(ModuleId::Core))
    } else if text::same_text(lower.as_str(), "system") {
        Some(module_definition(ModuleId::System))
    } else if text::same_text(lower.as_str(), "aliases") {
        Some(module_definition(ModuleId::Aliases))
    } else {
        None
    }
}

/// [`definition`], built.
pub fn module_definition(id: ModuleId) -> (module: ModuleSpec)
    ensures
        module@ == definition(id),
{
    match id {
        ModuleId::Core => ModuleSpec {
            id,
            name: "core",
            description_ru: "Основные команды Lavis.",
            icon: "🧩",
            origin: ModuleOrigin::Builtin,
            capabilities: vec![
                ModuleCapability::TelegramRpc,
                ModuleCapability::PersistentStateRead,
                ModuleCapability::PersistentStateWrite,
                ModuleCapability::HostInformation,
            ],
            unloadable: false,
            replaceable: false,
        },
        ModuleId::System => ModuleSpec {
            id,
            name: "system",
            description_ru: "Безопасно ограниченная системная информация.",
            icon: "🖥",
            origin: ModuleOrigin::Builtin,
            capabilities: vec![
                ModuleCapability::HostInformation,
                ModuleCapability::RestrictedProcess,
            ],
            unloadable: false,
            replaceable: false,
        },
        ModuleId::Aliases => ModuleSpec {
            id,
            name: "aliases",
            description_ru: "Постоянные псевдонимы команд.",
            icon: "🔗",
            origin: ModuleOrigin::Builtin,
            capabilities: vec![
                ModuleCapability::PersistentStateRead,
                ModuleCapability::PersistentStateWrite,
            ],
            unloadable: false,
            replaceable: false,
        },
    }
}

proof fn lemma_lower_ascii_is_kept(name: Seq<char>)
    requires
        forall|i: int| 0 <= i < name.len() ==> 'a' <= #[trigger] name[i] && name[i] <= 'z',
    ensures
        text::lowered(name) == name,
{
    assert(text::lowered(name) =~= name);
}

/// Built-in modules cannot be confused, removed or replaced: their ids and their names differ, even
/// up to case, each is found under its own name, and none may use the network.
pub proof fn builtin_modules_are_distinct(i: int, j: int)
    requires
        0 <= i < registry().len(),
        0 <= j < registry().len(),
    ensures
        registry()[i].id == registry()[j].id ==> i == j,
        text::lowered(registry()[i].name) == text::lowered(registry()[j].name) ==> i == j,
        named(registry()[i].name) == Some(registry()[i].id),
        registry()[i].origin == ModuleOrigin::Builtin,
        !registry()[i].unloadable && !registry()[i].replaceable,
        !registry()[i].capabilities.contains(ModuleCapability::Network),
{
    reveal_strlit("core");
    reveal_strlit("system");
    reveal_strlit("aliases");
    lemma_lower_ascii_is_kept("core"@);
    lemma_lower_ascii_is_kept("system"@);
    lemma_lower_ascii_is_kept("aliases"@);
    assert("core"@.len() == 4 && "system"@.len() == 6 && "aliases"@.len() == 7);
}

/// A built-in command and the module that it belongs to.
#[derive(Clone, Copy, Debug, PartialEq, Eq)]
pub struct CommandDefinition {
    pub name: &'static str,
    pub module: ModuleId,
}

/// The commands of a module, in their order.
pub open spec fn of_module(commands: Seq<CommandDefinition>, id: ModuleId) -> Seq<CommandDefinition>
    decreases commands.len(),
{
    if commands.len() == 0 {
        Seq::empty()
    } else if commands.last().module == id {
        of_module(commands.drop_last(), id).push(commands.last())
    } else {
        of_module(commands.drop_last(), id)
    }
}

/// [`of_module`] as a list.
pub fn commands_for_module(commands: &Vec<CommandDefinition>, id: ModuleId) -> (own: Vec<
    CommandDefinition,
>)
    ensures
        own@ == of_module(commands@, id),
{
    let mut own: Vec<CommandDefinition> = Vec::new();
    let mut i: usize = 0;
    while i < commands.len()
        invariant
            i <= commands@.len(),
            own@ == of_module(commands@.take(i as int), id),
        decreases commands@.len() - i,
    {
        assert(commands@.take(i + 1).drop_last() == commands@.take(i as int));
        let command = commands[i];
        if command.module == id {
            own.push(command);
        }
        i = i + 1;
    }
    assert(commands@.take(i as int) == commands@);
    own
}

/// The most characters of an external author's name.
pub const EXTERNAL_AUTHOR_MAX: usize = 64;

/// The most characters of an external version.
pub const EXTERNAL_VERSION_MAX: usize = 32;

/// The most characters of an external source.
pub const EXTERNAL_SOURCE_MAX: usize = 256;

/// Whether a character could hide or reorder the text around it, or break its line.
pub open spec fn deceptive(c: char) -> bool {
    text::control(c) || text::bidi_control(c) || c as u32 == 0x2028 || c as u32 == 0x2029
}

/// Whether a value is present, not too long and free of deceptive characters.
pub open spec fn valid_value(value: Seq<char>, max_chars: nat) -> bool {
    &&& 0 < value.len() <= max_chars
    &&& forall|i: int| 0 <= i < value.len() ==> !deceptive(#[trigger] value[i])
}

/// Whether a source names a place on the local machine: an absolute Unix or UNC path, a `file:`
/// address, or a path on a drive.
pub open spec fn local_source(source: Seq<char>) -> bool {
    ||| source.len() >= 1 && (source[0] == '/' || source[0] == '\\')
    ||| source.len() >= 5 && text::lowered(source.take(5)) == "file:"@
    ||| source.len() >= 3 && text::ascii_letter(source[0]) && source[1] == ':' && (source[2] == '/'
        || source[2] == '\\')
}

/// Whether an origin may be shown and trusted to be what it says.
pub open spec fn valid_origin(origin: ModuleOrigin) -> bool {
    match origin {
        ModuleOrigin::Builtin => true,
        ModuleOrigin::External { author, version, source } => {
            &&& valid_value(author@, EXTERNAL_AUTHOR_MAX as nat)
            &&& valid_value(version@, EXTERNAL_VERSION_MAX as nat)
            &&& valid_value(source@, EXTERNAL_SOURCE_MAX as nat)
            &&& !local_source(source@)
        },
    }
}

/// Decides [`valid_origin`].
pub fn validate_external_origin(origin: &ModuleOrigin) -> (valid: bool)
    ensures
        valid == valid_origin(*origin),
{
    match *origin {
        ModuleOrigin::Builtin => true,
        ModuleOrigin::External { author, version, source } => valid_external_value(
            author,
            EXTERNAL_AUTHOR_MAX,
        ) && valid_external_value(version, EXTERNAL_VERSION_MAX) && valid_external_value(
            source,
            EXTERNAL_SOURCE_MAX,
        ) && !is_absolute_local_source(source),
    }
}

/// Decides [`valid_value`].
pub fn valid_external_value(value: &str, max_chars: usize) -> (valid: bool)
    ensures
        valid == valid_value(value@, max_chars as nat),
{
    let chars = text::chars_of(value);
    if chars.len() == 0 || chars.len() > max_chars {
        return false;
    }
    let mut i: usize = 0;
    while i < chars.len()
        invariant
            i <= chars@.len(),
            chars@ == value@,
            forall|j: int| 0 <= j < i ==> !deceptive(#[trigger] chars@[j]),
        decreases chars@.len() - i,
    {
        let c = chars[i];
        if text::is_control(c) || text::is_bidi_control(c) || c as u32 == 0x2028 || c as u32
            == 0x2029 {
            assert(deceptive(value@[i as int]));
            return false;
        }
        i = i + 1;
    }
    true
}

/// Decides [`local_source`].
pub fn is_absolute_local_source(source: &str) -> (local: bool)
    ensures
        local == local_source(source@),
{
    let chars = text::chars_of(source);
    if chars.len() >= 1 && (chars[0] == '/' || chars[0] == '\\') {
        return true;
    }
    if chars.len() >= 5 {
        let scheme = text::string_of(&chars, 0, 5);
        assert(scheme@ == source@.take(5));
        if text::same_text(text::to_ascii_lowercase(scheme.as_str()).as_str(), "file:") {
            return true;
        }
    }
    chars.len() >= 3 && text::is_ascii_letter(chars[0]) && chars[1] == ':' && (chars[2] == '/'
        || chars[2] == '\\')
}

} // verus!
