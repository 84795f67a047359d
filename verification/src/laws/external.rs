//! What holds of external commands, and of the events that external modules are told of.
use crate::i18n::{external_command_template, ExternalCommandText, Locale};
use crate::message_provenance::InvocationFailure;
use crate::peer::PeerId;
use crate::response;
use crate::runtime::dispatch;
use crate::runtime::dispatch::{CreatedEventRequest, EventMessage, EventNames, EventRequestView};
use crate::runtime::external;
use crate::runtime::external::{
    ExternalCapability, ExternalError, ExternalModuleDescriptor, ExternalOutcome, InvocationView,
};
use crate::text;
use vstd::bytes::*;
use vstd::prelude::*;
use vstd::utf8::*;

verus! {

/// A full name is a module, a dot and a command; the first dot sets them apart. The arguments are handed on as
/// they are.
pub proof fn full_names_are_set_apart_by_their_first_dot(
    module: Seq<char>,
    command: Seq<char>,
    args: Seq<char>,
)
    requires
        forall|i: int| 0 <= i < module.len() ==> #[trigger] module[i] != '.',
    ensures
        external::named_invocation(module + seq!['.'] + command, args) == Some(
            InvocationView {
                module_id: module,
                command_name: command,
                arguments: args,
                argument_entities: Seq::empty(),
            },
        ),
        external::named_invocation(module, args) is None,
{
    let name = module + seq!['.'] + command;
    crate::i18n::lemma_index_of_is(name, '.', module.len() as int);
    crate::i18n::lemma_index_of_is(module, '.', module.len() as int);
    assert(name.take(module.len() as int) == module);
    assert(name.skip((module.len() + 1) as int) == command);
}

/// A module is found by its id: the first one, and none where there is no such id.
pub proof fn modules_are_found_by_id(descriptors: Seq<ExternalModuleDescriptor>, id: Seq<char>)
    ensures
        ({
            let at = external::descriptor_index(descriptors, id) as int;
            &&& at <= descriptors.len()
            &&& at < descriptors.len() ==> descriptors[at].id@ == id
            &&& forall|i: int| 0 <= i < at ==> (#[trigger] descriptors[i]).id@ != id
        }),
    decreases descriptors.len(),
{
    if descriptors.len() > 0 && descriptors[0].id@ != id {
        let rest = descriptors.skip(1);
        modules_are_found_by_id(rest, id);
        let at = external::descriptor_index(descriptors, id) as int;
        assert forall|i: int| 0 <= i < at implies (#[trigger] descriptors[i]).id@ != id by {
            if i > 0 {
                assert(rest[i - 1] == descriptors[i]);
            }
        }
    }
}

/// The default command of a module is the first one recorded for it.
pub proof fn defaults_are_found_by_module(defaults: Seq<(String, String)>, module: Seq<char>)
    ensures
        match external::default_of(defaults, module) {
            Some(command) => exists|i: int|
                0 <= i < defaults.len() && (#[trigger] defaults[i]).0@ == module && defaults[i].1@
                    == command && forall|j: int| 0 <= j < i ==> (#[trigger] defaults[j]).0@ != module,
            None => forall|i: int| 0 <= i < defaults.len() ==> (#[trigger] defaults[i]).0@ != module,
        },
    decreases defaults.len(),
{
    if defaults.len() > 0 {
        let rest = defaults.skip(1);
        if defaults[0].0@ == module {
            assert(defaults[0].1@ == external::default_of(defaults, module)->0);
        } else {
            defaults_are_found_by_module(rest, module);
            match external::default_of(rest, module) {
                Some(command) => {
                    let i = choose|i: int|
                        0 <= i < rest.len() && (#[trigger] rest[i]).0@ == module && rest[i].1@ == command
                            && forall|j: int| 0 <= j < i ==> (#[trigger] rest[j]).0@ != module;
                    assert(defaults[i + 1] == rest[i]);
                    assert forall|j: int| 0 <= j < i + 1 implies (#[trigger] defaults[j]).0@ != module by {
                        if j > 0 {
                            assert(rest[j - 1] == defaults[j]);
                        }
                    }
                },
                None => {
                    assert forall|i: int| 0 <= i < defaults.len() implies (#[trigger] defaults[i]).0@
                        != module by {
                        if i > 0 {
                            assert(rest[i - 1] == defaults[i]);
                        }
                    }
                },
            }
        }
    }
}

/// The message of an external command, with the module and the detail filled in.
pub open spec fn command_message(
    locale: Locale,
    key: ExternalCommandText,
    module: Seq<char>,
    detail: Seq<char>,
) -> Seq<char> {
    text::replaced(
        text::replaced(external_command_template(locale, key)@, "{id}"@, module),
        "{detail}"@,
        detail,
    )
}

/// A failure of a known kind is told by its kind alone, whatever the details; any other with its details.
pub proof fn failures_are_told_by_their_kind(
    locale: Locale,
    error: ExternalError,
    module: Seq<char>,
    detail: Seq<char>,
    other_detail: Seq<char>,
)
    ensures
        ({
            let told = external::failure_text(locale, error, module, detail);
            let none = Seq::<char>::empty();
            &&& error is Unavailable ==> told == command_message(
                locale,
                ExternalCommandText::Unavailable,
                module,
                none,
            )
            &&& error is ExecutionTimeout ==> told == command_message(
                locale,
                ExternalCommandText::Timeout,
                module,
                none,
            )
            &&& error is ProtocolDecode ==> told == command_message(
                locale,
                ExternalCommandText::ProtocolDecode,
                module,
                none,
            )
            &&& error is WrongRequestId ==> told == command_message(
                locale,
                ExternalCommandText::WrongRequestId,
                module,
                none,
            )
            &&& error is ModuleError ==> told == command_message(
                locale,
                ExternalCommandText::ModuleError,
                module,
                none,
            )
            &&& error is ResultTooLarge ==> told == command_message(
                locale,
                ExternalCommandText::ResultTooLarge,
                module,
                none,
            )
            &&& error is LineTooLarge || error is WrongModuleId || error is NotReadable || error is Other
                ==> told == command_message(
                locale,
                ExternalCommandText::GenericError,
                module,
                detail,
            )
            &&& !(error is LineTooLarge || error is WrongModuleId || error is NotReadable
                || error is Other) ==> told == external::failure_text(
                locale,
                error,
                module,
                other_detail,
            )
        }),
{
}

/// The result of an installed module is shown over the name, the id and the version of that very module; the
/// result of one that is not installed over a note that says so.
pub proof fn results_name_their_module(
    locale: Locale,
    descriptors: Seq<ExternalModuleDescriptor>,
    module: Seq<char>,
    output: String,
    i: int,
)
    ensures
        0 <= i < descriptors.len() && descriptors[i].id@ == module && (forall|j: int|
            0 <= j < i ==> (#[trigger] descriptors[j]).id@ != module) ==> external::external_view(
            locale,
            descriptors,
            module,
            ExternalOutcome::Success { text: output },
        ) == response::external_result_view(
            locale,
            output@,
            response::provenance_line(
                locale,
                descriptors[i].display_name@,
                module,
                descriptors[i].version@,
            ),
        ),
        (forall|j: int| 0 <= j < descriptors.len() ==> (#[trigger] descriptors[j]).id@ != module)
            ==> external::external_view(
            locale,
            descriptors,
            module,
            ExternalOutcome::Success { text: output },
        ) == response::plain_view(
            locale,
            response::sanitized(output@) + seq!['\n', '\n'] + command_message(
                locale,
                ExternalCommandText::MissingDescriptor,
                module,
                Seq::empty(),
            ),
        ),
{
    reveal_strlit("\n\n");
    assert("\n\n"@ == seq!['\n', '\n']);
    modules_are_found_by_id(descriptors, module);
    let at = external::descriptor_index(descriptors, module) as int;
    if at < descriptors.len() {
        assert(descriptors[at].id@ == module);
    }
    if 0 <= i < descriptors.len() && descriptors[i].id@ == module && (forall|j: int|
        0 <= j < i ==> (#[trigger] descriptors[j]).id@ != module) {
        if at < i {
            assert(descriptors[at].id@ != module);
        }
        if i < at {
            assert(descriptors[i].id@ != module);
        }
    }
}

/// A message is told to each module that receives its kind and has a reference for it, in order and once; no
/// other module hears of it.
pub proof fn events_go_to_those_who_receive_them(
    descriptors: Seq<ExternalModuleDescriptor>,
    descriptor: ExternalModuleDescriptor,
    names: Seq<EventNames>,
    message: EventMessage,
)
    ensures
        dispatch::events_for(Seq::empty(), names, message).len() == 0,
        ({
            let at = descriptors.len() as int;
            let told = at < names.len() && names[at].message_ref is Some
                && descriptor.receives@.contains(message.event);
            dispatch::events_for(descriptors.push(descriptor), names, message) == dispatch::events_for(
                descriptors,
                names,
                message,
            ) + (if told {
                seq![
                    EventRequestView {
                        module_id: descriptor.id@,
                        event: message.event,
                        event_id: names[at].event_id@,
                        message_ref: names[at].message_ref->0@,
                        message_key: dispatch::message_key(
                            message.peer_id,
                            message.message_id,
                            descriptor.id@,
                        ),
                        peer_id: if descriptor.capabilities@.contains(ExternalCapability::MessagePeerId) {
                            message.peer_id.dialog_id
                        } else {
                            None
                        },
                        text: message.text@,
                        outgoing: message.outgoing,
                        entities: message.entities@,
                    },
                ]
            } else {
                Seq::empty()
            })
        }),
{
    let all = descriptors.push(descriptor);
    let earlier = dispatch::events_for(descriptors, names, message);
    let at = descriptors.len() as int;
    assert(all.drop_last() == descriptors);
    assert(all.last() == descriptor);
    assert(earlier + Seq::<EventRequestView>::empty() == earlier);
    if at < names.len() && names[at].message_ref is Some && descriptor.receives@.contains(message.event) {
        let event = dispatch::event_for(
            descriptor,
            message,
            names[at].event_id@,
            names[at].message_ref->0@,
        );
        assert(earlier.push(event) == earlier + seq![event]);
    }
}

/// Of what the modules ask for, what may be done is done, in order, and nothing else; a module that failed asks
/// for nothing.
pub proof fn allowed_actions_are_done_in_order(
    outcomes: Seq<Result<Vec<(u64, bool)>, ExternalError>>,
    actions: Vec<(u64, bool)>,
    error: ExternalError,
)
    ensures
        dispatch::accepted(actions@) == actions@.filter(|action: (u64, bool)| action.1).map_values(
            |action: (u64, bool)| action.0,
        ),
        dispatch::accepted_actions(Seq::empty()).len() == 0,
        dispatch::accepted_actions(outcomes.push(Ok(actions))) == dispatch::accepted_actions(outcomes)
            + dispatch::accepted(actions@),
        dispatch::accepted_actions(outcomes.push(Err(error))) == dispatch::accepted_actions(outcomes),
{
    lemma_accepted(actions@);
    assert(outcomes.push(Ok(actions)).drop_last() == outcomes);
    assert(outcomes.push(Err(error)).drop_last() == outcomes);
    assert(dispatch::accepted_actions(outcomes) + Seq::<u64>::empty() == dispatch::accepted_actions(
        outcomes,
    ));
}

proof fn lemma_accepted(actions: Seq<(u64, bool)>)
    ensures
        dispatch::accepted(actions) == actions.filter(|action: (u64, bool)| action.1).map_values(
            |action: (u64, bool)| action.0,
        ),
    decreases actions.len(),
{
    reveal(Seq::filter);
    let allowed = |action: (u64, bool)| action.1;
    let number = |action: (u64, bool)| action.0;
    if actions.len() == 0 {
        assert(dispatch::accepted(actions) == actions.filter(allowed).map_values(number));
    } else {
        let rest = actions.drop_last();
        lemma_accepted(rest);
        if actions.last().1 {
            assert(rest.filter(allowed).push(actions.last()).map_values(number) == rest.filter(
                allowed,
            ).map_values(number).push(actions.last().0));
        }
    }
}

/// Each module that failed is named with the category of its failure, in order; the others are not.
pub proof fn failed_modules_are_named(
    requests: Seq<CreatedEventRequest>,
    outcomes: Seq<Result<Vec<(u64, bool)>, ExternalError>>,
    actions: Vec<(u64, bool)>,
    error: ExternalError,
)
    requires
        outcomes.len() < requests.len(),
    ensures
        dispatch::failed_modules(requests, Seq::empty()).len() == 0,
        dispatch::failed_modules(requests, outcomes.push(Ok(actions))) == dispatch::failed_modules(
            requests,
            outcomes,
        ),
        dispatch::failed_modules(requests, outcomes.push(Err(error))) == dispatch::failed_modules(
            requests,
            outcomes,
        ).push(
            (
                requests[outcomes.len() as int].module_id@,
                external::external_event_error_category(&error)@,
            ),
        ),
{
    assert(outcomes.push(Ok(actions)).drop_last() == outcomes);
    assert(outcomes.push(Err(error)).drop_last() == outcomes);
}

/// What is hashed for a message key tells dialogs, messages and modules apart, and the two halves of a key
/// apart.
pub proof fn message_keys_tell_messages_apart(
    domain: Seq<char>,
    other_domain: Seq<char>,
    peer: PeerId,
    other_peer: PeerId,
    message_id: i32,
    other_message_id: i32,
    module: Seq<char>,
    other_module: Seq<char>,
)
    requires
        dispatch::key_writes(domain, peer, message_id, module) == dispatch::key_writes(
            other_domain,
            other_peer,
            other_message_id,
            other_module,
        ),
    ensures
        domain == other_domain,
        message_id == other_message_id,
        module == other_module,
        peer.dialog_id is Some && other_peer.dialog_id is Some ==> peer == other_peer,
        peer.dialog_id is None && other_peer.dialog_id is Some ==> other_peer.dialog_id == Some(
            0x100_0000_0000i64,
        ),
{
    let one = dispatch::key_writes(domain, peer, message_id, module);
    let other = dispatch::key_writes(other_domain, other_peer, other_message_id, other_module);
    assert(one[0] == other[0] && one[2] == other[2] && one[3] == other[3] && one[4] == other[4]);
    encode_utf8_decode_utf8(domain);
    encode_utf8_decode_utf8(other_domain);
    encode_utf8_decode_utf8(module);
    encode_utf8_decode_utf8(other_module);
    let a = dispatch::peer_number(peer);
    let b = dispatch::peer_number(other_peer);
    lemma_auto_spec_u64_to_from_le_bytes();
    lemma_auto_spec_u32_to_from_le_bytes();
    assert(spec_u64_from_le_bytes(one[2]) == a as u64);
    assert(spec_u64_from_le_bytes(other[2]) == b as u64);
    assert(spec_u32_to_le_bytes(message_id as u32).len() == 4);
    assert(spec_u32_to_le_bytes(other_message_id as u32).len() == 4);
    assert(spec_u32_from_le_bytes(one[3]) == message_id as u32);
    assert(spec_u32_from_le_bytes(other[3]) == other_message_id as u32);
    assert(a as u64 == b as u64 ==> a == b) by (bit_vector);
    assert(message_id as u32 == other_message_id as u32 ==> message_id == other_message_id) by (bit_vector);
}

/// After every failure of a module, and only then, the modules are looked at anew.
pub proof fn failures_lead_to_a_new_look(error: ExternalError, detail: String, output: String)
    ensures
        external::looks_again(ExternalOutcome::Failure { error, detail }),
        !external::looks_again(ExternalOutcome::Success { text: output }),
        !external::looks_again(ExternalOutcome::RuntimeUnavailable),
{
}

/// A failure is told by its own module and its kind, and a missing runtime as such.
pub proof fn failures_are_answered(
    locale: Locale,
    descriptors: Seq<ExternalModuleDescriptor>,
    module: Seq<char>,
    error: ExternalError,
    detail: String,
)
    ensures
        external::external_view(
            locale,
            descriptors,
            module,
            ExternalOutcome::Failure { error, detail },
        ) == response::plain_view(
            locale,
            external::failure_text(locale, error, module, detail@),
        ),
        external::external_view(locale, descriptors, module, ExternalOutcome::RuntimeUnavailable)
            == response::plain_view(
            locale,
            command_message(
                locale,
                ExternalCommandText::RuntimeUnavailable,
                Seq::empty(),
                Seq::empty(),
            ),
        ),
{
    reveal_strlit("");
    assert(""@ == Seq::<char>::empty());
}

/// The category of a failure tells nothing but its kind: the four failures of the protocol are one.
pub proof fn categories_tell_the_kind(error: ExternalError)
    ensures
        ({
            let category = external::external_event_error_category(&error)@;
            &&& error is Unavailable ==> category == "unavailable"@
            &&& error is ExecutionTimeout ==> category == "timeout"@
            &&& error is ProtocolDecode || error is LineTooLarge || error is WrongRequestId
                || error is WrongModuleId ==> category == "protocol"@
            &&& error is ResultTooLarge ==> category == "result_too_large"@
            &&& error is ModuleError ==> category == "module_error"@
            &&& error is NotReadable || error is Other ==> category == "other"@
        }),
{
}

/// The category of a failed request to Telegram tells the kinds apart.
pub proof fn request_categories_tell_the_kind(error: InvocationFailure)
    ensures
        external::invocation_error_category(&error)@ == (match error {
            InvocationFailure::Session => "session"@,
            InvocationFailure::Rpc => "rpc"@,
            InvocationFailure::Io => "io"@,
            InvocationFailure::Deserialize => "deserialize"@,
            InvocationFailure::Transport => "transport"@,
            InvocationFailure::Dropped => "dropped"@,
            InvocationFailure::InvalidDc => "invalid_dc"@,
            InvocationFailure::Authentication => "authentication"@,
        }),
{
}

} // verus!
