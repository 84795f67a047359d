//! External modules as the runtime last saw them, and the answers to their commands.
use super::info::ModuleStatus;
use crate::i18n::{external_command_template, external_command_text, ExternalCommandText, Locale};
use crate::message_provenance::InvocationFailure;
use crate::response;
use crate::response::{sanitize_external_output, Response, ResponseView};
use crate::text;
use vstd::prelude::*;
use vstd::string::*;

verus! {

/// The events that external modules are told of.
#[derive(Clone, Copy, Debug, PartialEq, Eq, Structural)]
pub enum MessageEventKind {
    Created,
    /// Any other kind, by the caller's number.
    Other(u32),
}

/// What an external module may use.
#[derive(Clone, Copy, Debug, PartialEq, Eq, Structural)]
pub enum ExternalCapability {
    MessageRead,
    MessagePeerId,
    /// Any other capability, by the caller's number.
    Other(u32),
}

/// An installed external module.
pub struct ExternalModuleDescriptor {
    pub id: String,
    pub display_name: String,
    pub version: String,
    pub capabilities: Vec<ExternalCapability>,
    /// The events that the module subscribed to and may receive.
    pub receives: Vec<MessageEventKind>,
}

/// The external modules as they were last seen.
pub struct ExternalRuntimeSnapshot {
    pub descriptors: Vec<ExternalModuleDescriptor>,
    /// The full names, `module.command`, of the commands that can be run.
    pub active_commands: Vec<String>,
    /// The default command of each module that has one running.
    pub active_defaults: Vec<(String, String)>,
    pub module_statuses: Vec<ModuleStatus>,
}

/// A custom emoji in a message, in UTF-16 code units.
#[derive(Clone, Copy, Debug, PartialEq, Eq, Structural)]
pub struct CustomEmojiEntity {
    pub offset: i32,
    pub length: i32,
    pub document_id: i64,
}

/// A command of an external module.
pub struct ExternalInvocation {
    pub module_id: String,
    pub command_name: String,
    pub arguments: String,
    pub argument_entities: Vec<CustomEmojiEntity>,
}

/// The model of an [`ExternalInvocation`].
pub struct InvocationView {
    pub module_id: Seq<char>,
    pub command_name: Seq<char>,
    pub arguments: Seq<char>,
    pub argument_entities: Seq<CustomEmojiEntity>,
}

impl View for ExternalInvocation {
    type V = InvocationView;

    open spec fn view(&self) -> InvocationView {
        InvocationView {
            module_id: self.module_id@,
            command_name: self.command_name@,
            arguments: self.arguments@,
            argument_entities: self.argument_entities@,
        }
    }
}

/// The index of the first module with this id, or the number of modules where there is none.
pub open spec fn descriptor_index(descriptors: Seq<ExternalModuleDescriptor>, id: Seq<char>) -> nat
    decreases descriptors.len(),
{
    if descriptors.len() == 0 || descriptors[0].id@ == id {
        0
    } else {
        1 + descriptor_index(descriptors.skip(1), id)
    }
}

/// The first value under `key`.
pub open spec fn default_of(defaults: Seq<(String, String)>, key: Seq<char>) -> Option<Seq<char>>
    decreases defaults.len(),
{
    if defaults.len() == 0 {
        None
    } else if defaults[0].0@ == key {
        Some(defaults[0].1@)
    } else {
        default_of(defaults.skip(1), key)
    }
}

/// The invocation that a full name stands for: the module before the first dot, the command after it.
/// Its arguments are plain text.
pub open spec fn named_invocation(name: Seq<char>, args: Seq<char>) -> Option<InvocationView> {
    let dot = crate::i18n::index_of(name, '.') as int;
    if dot >= name.len() {
        None
    } else {
        Some(
            InvocationView {
                module_id: name.take(dot),
                command_name: name.skip(dot + 1),
                arguments: args,
                argument_entities: Seq::empty(),
            },
        )
    }
}

/// The model of an invocation that may be missing.
pub open spec fn invocation_view(invocation: Option<ExternalInvocation>) -> Option<InvocationView> {
    match invocation {
        Some(invocation) => Some(invocation@),
        None => None,
    }
}

impl ExternalRuntimeSnapshot {
    /// No command is active twice, and no module has two default commands.
    pub open spec fn wf(self) -> bool {
        &&& text::views(self.active_commands@).no_duplicates()
        &&& forall|i: int, j: int|
            0 <= i < j < self.active_defaults@.len() ==> (#[trigger] self.active_defaults@[i]).0@
                != (#[trigger] self.active_defaults@[j]).0@
    }

    /// No modules.
    pub fn new() -> (snapshot: Self)
        ensures
            snapshot.wf(),
            snapshot.descriptors@.len() == 0,
            snapshot.active_commands@.len() == 0,
            snapshot.active_defaults@.len() == 0,
            snapshot.module_statuses@.len() == 0,
    {
        ExternalRuntimeSnapshot {
            descriptors: Vec::new(),
            active_commands: Vec::new(),
            active_defaults: Vec::new(),
            module_statuses: Vec::new(),
        }
    }

    /// Whether a command can be run under this full name.
    pub fn has_active_external_command(&self, name: &str) -> (active: bool)
        ensures
            active == text::views(self.active_commands@).contains(name@),
    {
        let ghost all = text::views(self.active_commands@);
        let mut i: usize = 0;
        while i < self.active_commands.len()
            invariant
                i <= self.active_commands@.len(),
                all == text::views(self.active_commands@),
                forall|j: int| 0 <= j < i ==> #[trigger] all[j] != name@,
            decreases self.active_commands@.len() - i,
        {
            if text::same_text(self.active_commands[i].as_str(), name) {
                assert(all[i as int] == name@);
                return true;
            }
            i = i + 1;
        }
        false
    }

    /// The invocation of an active command by its full name.
    pub fn resolve_external(&self, name: &str, args: &str) -> (invocation: Option<
        ExternalInvocation,
    >)
        ensures
            invocation_view(invocation) == (if text::views(self.active_commands@).contains(name@) {
                named_invocation(name@, args@)
            } else {
                None
            }),
    {
        if !self.has_active_external_command(name) {
            return None;
        }
        let chars = text::chars_of(name);
        let dot: usize = crate::i18n::find_from(&chars, '.', 0);
        assert(chars@.skip(0) == chars@);
        if dot == chars.len() {
            return None;
        }
        let module_id = text::string_of(&chars, 0, dot);
        let command_name = text::string_of(&chars, dot + 1, chars.len());
        assert(command_name@ == name@.skip(dot + 1));
        Some(
            ExternalInvocation {
                module_id,
                command_name,
                arguments: args.to_owned(),
                argument_entities: Vec::new(),
            },
        )
    }

    /// The invocation of a module's default command by the module's name.
    pub fn resolve_external_default(&self, name: &str, args: &str) -> (invocation: Option<
        ExternalInvocation,
    >)
        ensures
            invocation_view(invocation) == (match default_of(self.active_defaults@, name@) {
                Some(command_name) => Some(
                    InvocationView {
                        module_id: name@,
                        command_name,
                        arguments: args@,
                        argument_entities: Seq::empty(),
                    },
                ),
                None => None,
            }),
    {
        let mut i: usize = 0;
        assert(self.active_defaults@.skip(0) == self.active_defaults@);
        while i < self.active_defaults.len()
            invariant
                i <= self.active_defaults@.len(),
                default_of(self.active_defaults@, name@) == default_of(
                    self.active_defaults@.skip(i as int),
                    name@,
                ),
            decreases self.active_defaults@.len() - i,
        {
            if text::same_text(self.active_defaults[i].0.as_str(), name) {
                return Some(
                    ExternalInvocation {
                        module_id: name.to_owned(),
                        command_name: self.active_defaults[i].1.clone(),
                        arguments: args.to_owned(),
                        argument_entities: Vec::new(),
                    },
                );
            }
            assert(self.active_defaults@.skip(i as int).skip(1) == self.active_defaults@.skip(
                i + 1,
            ));
            i = i + 1;
        }
        None
    }

    /// The first module with this id.
    pub fn descriptor(&self, id: &str) -> (found: Option<&ExternalModuleDescriptor>)
        ensures
            ({
                let at = descriptor_index(self.descriptors@, id@) as int;
                match found {
                    Some(descriptor) => at < self.descriptors@.len() && *descriptor
                        == self.descriptors@[at],
                    None => at >= self.descriptors@.len(),
                }
            }),
    {
        let mut i: usize = 0;
        assert(self.descriptors@.skip(0) == self.descriptors@);
        while i < self.descriptors.len()
            invariant
                i <= self.descriptors@.len(),
                descriptor_index(self.descriptors@, id@) == i + descriptor_index(
                    self.descriptors@.skip(i as int),
                    id@,
                ),
            decreases self.descriptors@.len() - i,
        {
            if text::same_text(self.descriptors[i].id.as_str(), id) {
                return Some(&self.descriptors[i]);
            }
            assert(self.descriptors@.skip(i as int).skip(1) == self.descriptors@.skip(i + 1));
            i = i + 1;
        }
        None
    }

    /// Whether a module with this id is installed.
    pub fn has_external_module(&self, module_id: &str) -> (installed: bool)
        ensures
            installed == (descriptor_index(self.descriptors@, module_id@)
                < self.descriptors@.len()),
    {
        self.descriptor(module_id).is_some()
    }

    /// Whether the module with this id may use a capability; without such a module nothing may.
    pub fn external_has_capability(&self, module_id: &str, capability: ExternalCapability) -> (has:
        bool)
        ensures
            has == ({
                let at = descriptor_index(self.descriptors@, module_id@) as int;
                at < self.descriptors@.len() && self.descriptors@[at].capabilities@.contains(
                    capability,
                )
            }),
    {
        match self.descriptor(module_id) {
            Some(descriptor) => has_capability(&descriptor.capabilities, capability),
            None => false,
        }
    }

    /// How many modules are running.
    pub fn running_modules(&self) -> (count: usize)
        ensures
            count == running(self.module_statuses@),
            count <= self.module_statuses@.len(),
    {
        let mut count: usize = 0;
        let mut i: usize = 0;
        while i < self.module_statuses.len()
            invariant
                i <= self.module_statuses@.len(),
                count <= i,
                count == running(self.module_statuses@.take(i as int)),
            decreases self.module_statuses@.len() - i,
        {
            assert(self.module_statuses@.take(i + 1).drop_last() == self.module_statuses@.take(
                i as int,
            ));
            if self.module_statuses[i].status
                == crate::i18n::ExternalModuleRuntimeStatus::Running {
                count = count + 1;
            }
            i = i + 1;
        }
        assert(self.module_statuses@.take(i as int) == self.module_statuses@);
        count
    }
}

/// How many statuses are those of running modules.
pub open spec fn running(statuses: Seq<ModuleStatus>) -> nat
    decreases statuses.len(),
{
    if statuses.len() == 0 {
        0
    } else {
        running(statuses.drop_last()) + (if statuses.last().status
            == crate::i18n::ExternalModuleRuntimeStatus::Running {
            1nat
        } else {
            0nat
        })
    }
}

/// Whether a list of capabilities holds one.
pub fn has_capability(capabilities: &Vec<ExternalCapability>, capability: ExternalCapability) -> (has:
    bool)
    ensures
        has == capabilities@.contains(capability),
{
    let mut i: usize = 0;
    while i < capabilities.len()
        invariant
            i <= capabilities@.len(),
            forall|j: int| 0 <= j < i ==> #[trigger] capabilities@[j] != capability,
        decreases capabilities@.len() - i,
    {
        if capabilities[i] == capability {
            return true;
        }
        i = i + 1;
    }
    false
}

/// Why an external command failed.
#[derive(Clone, Copy, Debug, PartialEq, Eq, Structural)]
pub enum ExternalError {
    Unavailable,
    ExecutionTimeout,
    ProtocolDecode,
    LineTooLarge,
    WrongRequestId,
    WrongModuleId,
    ResultTooLarge,
    ModuleError,
    NotReadable,
    Other,
}

/// The category of a failure that may be logged; it tells nothing of the failure's details.
#[verifier::allow_in_spec]
pub fn external_event_error_category(error: &ExternalError) -> &'static str
    returns
        (match *error {
            ExternalError::Unavailable => "unavailable",
            ExternalError::ExecutionTimeout => "timeout",
            ExternalError::ProtocolDecode => "protocol",
            ExternalError::LineTooLarge => "protocol",
            ExternalError::WrongRequestId => "protocol",
            ExternalError::WrongModuleId => "protocol",
            ExternalError::ResultTooLarge => "result_too_large",
            ExternalError::ModuleError => "module_error",
            _ => "other",
        }),
{
    match *error {
        ExternalError::Unavailable => "unavailable",
        ExternalError::ExecutionTimeout => "timeout",
        ExternalError::ProtocolDecode
        | ExternalError::LineTooLarge
        | ExternalError::WrongRequestId
        | ExternalError::WrongModuleId => "protocol",
        ExternalError::ResultTooLarge => "result_too_large",
        ExternalError::ModuleError => "module_error",
        _ => "other",
    }
}

/// The category of a failed request to Telegram that may be logged.
#[verifier::allow_in_spec]
pub fn invocation_error_category(error: &InvocationFailure) -> &'static str
    returns
        (match *error {
            InvocationFailure::Session => "session",
            InvocationFailure::Rpc => "rpc",
            InvocationFailure::Io => "io",
            InvocationFailure::Deserialize => "deserialize",
            InvocationFailure::Transport => "transport",
            InvocationFailure::Dropped => "dropped",
            InvocationFailure::InvalidDc => "invalid_dc",
            InvocationFailure::Authentication => "authentication",
        }),
{
    match *error {
        InvocationFailure::Session => "session",
        InvocationFailure::Rpc => "rpc",
        InvocationFailure::Io => "io",
        InvocationFailure::Deserialize => "deserialize",
        InvocationFailure::Transport => "transport",
        InvocationFailure::Dropped => "dropped",
        InvocationFailure::InvalidDc => "invalid_dc",
        InvocationFailure::Authentication => "authentication",
    }
}

/// What running an external command gave.
pub enum ExternalOutcome {
    /// There is no module runtime.
    RuntimeUnavailable,
    Success { text: String },
    /// `detail` is the failure in words.
    Failure { error: ExternalError, detail: String },
}

/// What the owner is told about a failure: its kind, and its details only where it has no kind.
pub open spec fn failure_text(
    locale: Locale,
    error: ExternalError,
    module_id: Seq<char>,
    detail: Seq<char>,
) -> Seq<char> {
    let (key, detail) = match error {
        ExternalError::Unavailable => (ExternalCommandText::Unavailable, Seq::empty()),
        ExternalError::ExecutionTimeout => (ExternalCommandText::Timeout, Seq::empty()),
        ExternalError::ProtocolDecode => (ExternalCommandText::ProtocolDecode, Seq::empty()),
        ExternalError::WrongRequestId => (ExternalCommandText::WrongRequestId, Seq::empty()),
        ExternalError::ModuleError => (ExternalCommandText::ModuleError, Seq::empty()),
        ExternalError::ResultTooLarge => (ExternalCommandText::ResultTooLarge, Seq::empty()),
        _ => (ExternalCommandText::GenericError, detail),
    };
    text::replaced(
        text::replaced(external_command_template(locale, key)@, "{id}"@, module_id),
        "{detail}"@,
        detail,
    )
}

/// The result of a module that is not in the catalog: its sanitized text, and a note that it is
/// missing.
pub open spec fn missing_descriptor_view(
    locale: Locale,
    module_text: Seq<char>,
    module_id: Seq<char>,
) -> ResponseView {
    response::plain_view(
        locale,
        response::sanitized(module_text) + "\n\n"@ + text::replaced(
            text::replaced(
                external_command_template(locale, ExternalCommandText::MissingDescriptor)@,
                "{id}"@,
                module_id,
            ),
            "{detail}"@,
            Seq::empty(),
        ),
    )
}

/// [`missing_descriptor_view`] as a response.
pub fn missing_descriptor_response(locale: Locale, module_text: &str, module_id: &str) -> (response:
    Response)
    ensures
        response@ == missing_descriptor_view(locale, module_text@, module_id@),
{
    let mut message = sanitize_external_output(module_text);
    message.append("\n\n");
    message.append(
        external_command_text(
            locale,
            ExternalCommandText::MissingDescriptor,
            module_id,
            None,
        ).as_str(),
    );
    Response::plain_with_locale(locale, message.as_str())
}

/// The answer to an external command.
pub open spec fn external_view(
    locale: Locale,
    descriptors: Seq<ExternalModuleDescriptor>,
    module_id: Seq<char>,
    outcome: ExternalOutcome,
) -> ResponseView {
    match outcome {
        ExternalOutcome::RuntimeUnavailable => response::plain_view(
            locale,
            text::replaced(
                text::replaced(
                    external_command_template(locale, ExternalCommandText::RuntimeUnavailable)@,
                    "{id}"@,
                    ""@,
                ),
                "{detail}"@,
                Seq::empty(),
            ),
        ),
        ExternalOutcome::Success { text } => {
            let at = descriptor_index(descriptors, module_id) as int;
            if at < descriptors.len() {
                let found = descriptors[at];
                response::external_result_view(
                    locale,
                    text@,
                    response::provenance_line(locale, found.display_name@, found.id@, found.version@),
                )
            } else {
                missing_descriptor_view(locale, text@, module_id)
            }
        },
        ExternalOutcome::Failure { error, detail } => response::plain_view(
            locale,
            failure_text(locale, error, module_id, detail@),
        ),
    }
}

/// Whether the modules are to be looked at anew after a command.
pub open spec fn looks_again(outcome: ExternalOutcome) -> bool {
    outcome is Failure
}

/// The answer to an external command, and whether to look at the modules anew: after every failure of
/// a module.
pub fn execute_external(
    locale: Locale,
    snapshot: &ExternalRuntimeSnapshot,
    invocation: &ExternalInvocation,
    outcome: ExternalOutcome,
) -> (answer: (Response, bool))
    ensures
        answer.0@ == external_view(
            locale,
            snapshot.descriptors@,
            invocation.module_id@,
            outcome,
        ),
        answer.1 == (outcome is Failure),
        answer.1 == looks_again(outcome),
{
    let module_id = invocation.module_id.as_str();
    match outcome {
        ExternalOutcome::RuntimeUnavailable => {
            let told = external_command_text(
                locale,
                ExternalCommandText::RuntimeUnavailable,
                "",
                None,
            );
            (Response::plain_with_locale(locale, told.as_str()), false)
        },
        ExternalOutcome::Success { text } => {
            let response = match snapshot.descriptor(module_id) {
                Some(found) => Response::external_result(
                    locale,
                    text.as_str(),
                    found.display_name.as_str(),
                    found.id.as_str(),
                    found.version.as_str(),
                ),
                None => missing_descriptor_response(locale, text.as_str(), module_id),
            };
            (response, false)
        },
        ExternalOutcome::Failure { error, detail } => {
            let (key, told) = match error {
                ExternalError::Unavailable => (ExternalCommandText::Unavailable, None),
                ExternalError::ExecutionTimeout => (ExternalCommandText::Timeout, None),
                ExternalError::ProtocolDecode => (ExternalCommandText::ProtocolDecode, None),
                ExternalError::WrongRequestId => (ExternalCommandText::WrongRequestId, None),
                ExternalError::ModuleError => (ExternalCommandText::ModuleError, None),
                ExternalError::ResultTooLarge => (ExternalCommandText::ResultTooLarge, None),
                _ => (ExternalCommandText::GenericError, Some(detail.as_str())),
            };
            let told = external_command_text(locale, key, module_id, told);
            (Response::plain_with_locale(locale, told.as_str()), true)
        },
    }
}

proof fn lemma_default_of(defaults: Seq<(String, String)>, at: int)
    requires
        0 <= at < defaults.len(),
        forall|i: int| 0 <= i < at ==> (#[trigger] defaults[i]).0@ != defaults[at].0@,
    ensures
        default_of(defaults, defaults[at].0@) == Some(defaults[at].1@),
    decreases at,
{
    if at > 0 {
        assert(defaults[0].0@ != defaults[at].0@);
        let rest = defaults.skip(1);
        assert forall|i: int| 0 <= i < at - 1 implies (#[trigger] rest[i]).0@ != rest[at - 1].0@ by {
            assert(rest[i] == defaults[i + 1]);
        }
        lemma_default_of(rest, at - 1);
    }
}

/// Each default command is found by the name of its module.
pub proof fn defaults_are_found_by_their_modules(snapshot: ExternalRuntimeSnapshot, at: int)
    requires
        snapshot.wf(),
        0 <= at < snapshot.active_defaults@.len(),
    ensures
        default_of(snapshot.active_defaults@, snapshot.active_defaults@[at].0@) == Some(
            snapshot.active_defaults@[at].1@,
        ),
{
    lemma_default_of(snapshot.active_defaults@, at);
}

/// Every answer to an external command can be sent, whatever the module wrote.
pub proof fn external_answers_are_sendable(
    locale: Locale,
    descriptors: Seq<ExternalModuleDescriptor>,
    module_id: Seq<char>,
    outcome: ExternalOutcome,
)
    ensures
        response::sendable(external_view(locale, descriptors, module_id, outcome)),
{
    let answer = external_view(locale, descriptors, module_id, outcome);
    assert forall|text: Seq<char>| #[trigger]
        response::plain_view(locale, text) == answer implies response::sendable(answer) by {
        response::plain_is_sendable(locale, text);
    }
}

} // verus!
