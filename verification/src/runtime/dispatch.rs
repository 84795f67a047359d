//! Telling external modules of messages.
use super::external::{
    external_event_error_category, has_capability, CustomEmojiEntity, ExternalCapability,
    ExternalError, ExternalModuleDescriptor, MessageEventKind,
};
use crate::peer::PeerId;
use crate::text;
use std::collections::hash_map::DefaultHasher;
use std::hash::Hasher;
use vstd::bytes::*;
use vstd::prelude::*;
use vstd::string::*;

verus! {

/// The number that stands for the own account where its number is not known; no dialog has it.
pub const SELF_PEER_NUMBER: i64 = 0x100_0000_0000;

/// The number under which a peer is hashed.
pub open spec fn peer_number(peer_id: PeerId) -> i64 {
    match peer_id.dialog_id {
        Some(dialog_id) => dialog_id,
        None => SELF_PEER_NUMBER,
    }
}

/// What is written to the hasher for one half of a message key. A byte that no text holds ends each
/// text.
pub open spec fn key_writes(
    domain: Seq<char>,
    peer_id: PeerId,
    message_id: i32,
    module_id: Seq<char>,
) -> Seq<Seq<u8>> {
    seq![
        vstd::utf8::encode_utf8(domain),
        seq![0xffu8],
        spec_u64_to_le_bytes(peer_number(peer_id) as u64),
        spec_u32_to_le_bytes(message_id as u32),
        vstd::utf8::encode_utf8(module_id),
        seq![0xffu8],
    ]
}

/// One half of a message key.
pub open spec fn key_half(
    domain: Seq<char>,
    peer_id: PeerId,
    message_id: i32,
    module_id: Seq<char>,
) -> Seq<char> {
    text::hex_padded(
        <DefaultHasher as vstd::std_specs::hash::DefaultHasherAdditionalSpecFns>::spec_finish(
            key_writes(domain, peer_id, message_id, module_id),
        ) as nat,
        16,
    )
}

/// The key by which a module tells messages apart. It depends on the message and on the module alone,
/// and so stays the same from event to event. The numbers are hashed as little-endian bytes on every
/// machine; a key of `std`'s own hashing of integers, which goes by the machine's byte order, differs from
/// it on a big-endian machine.
pub open spec fn message_key(peer_id: PeerId, message_id: i32, module_id: Seq<char>) -> Seq<char> {
    key_half("lavis-message-key-v1/a"@, peer_id, message_id, module_id) + key_half(
        "lavis-message-key-v1/b"@,
        peer_id,
        message_id,
        module_id,
    )
}

fn digest(domain: &str, peer_id: PeerId, message_id: i32, module_id: &str) -> (half: String)
    ensures
        half@ == key_half(domain@, peer_id, message_id, module_id@),
{
    let number: i64 = match peer_id.dialog_id {
        Some(dialog_id) => dialog_id,
        None => SELF_PEER_NUMBER,
    };
    let end = vec![0xffu8];
    let peer_bytes = u64_to_le_bytes(number as u64);
    let message_bytes = u32_to_le_bytes(message_id as u32);
    let mut hasher = DefaultHasher::new();
    hasher.write(domain.as_bytes());
    hasher.write(end.as_slice());
    hasher.write(peer_bytes.as_slice());
    hasher.write(message_bytes.as_slice());
    hasher.write(module_id.as_bytes());
    hasher.write(end.as_slice());
    assert(end@ == seq![0xffu8]);
    assert(hasher@ == key_writes(domain@, peer_id, message_id, module_id@));
    text::to_hex_padded(hasher.finish() as u128, 16)
}

/// [`message_key`] as a string.
pub fn stable_message_key(peer_id: PeerId, message_id: i32, module_id: &str) -> (key: String)
    ensures
        key@ == message_key(peer_id, message_id, module_id@),
{
    let mut key = digest("lavis-message-key-v1/a", peer_id, message_id, module_id);
    key.append(digest("lavis-message-key-v1/b", peer_id, message_id, module_id).as_str());
    key
}

proof fn lemma_hex_padded(value: nat, width: nat)
    ensures
        text::hex_padded(value, width).len() == width,
        forall|i: int|
            0 <= i < width ==> crate::reboot_receipt::hex_digit(
                #[trigger] text::hex_padded(value, width)[i],
            ),
    decreases width,
{
    if width > 0 {
        lemma_hex_padded(value / 16, (width - 1) as nat);
        let shorter = text::hex_padded(value / 16, (width - 1) as nat);
        assert forall|i: int| 0 <= i < width implies crate::reboot_receipt::hex_digit(
            #[trigger] text::hex_padded(value, width)[i],
        ) by {
            if i < width - 1 {
                assert(text::hex_padded(value, width)[i] == shorter[i]);
            }
        }
    }
}

/// A message key is made of 32 hexadecimal digits, whatever the message and the module.
pub proof fn message_keys_are_hexadecimal(peer_id: PeerId, message_id: i32, module_id: Seq<char>)
    ensures
        message_key(peer_id, message_id, module_id).len() == 32,
        forall|i: int|
            0 <= i < 32 ==> crate::reboot_receipt::hex_digit(
                #[trigger] message_key(peer_id, message_id, module_id)[i],
            ),
{
    let a = key_half("lavis-message-key-v1/a"@, peer_id, message_id, module_id);
    let b = key_half("lavis-message-key-v1/b"@, peer_id, message_id, module_id);
    lemma_hex_padded(
        <DefaultHasher as vstd::std_specs::hash::DefaultHasherAdditionalSpecFns>::spec_finish(
            key_writes("lavis-message-key-v1/a"@, peer_id, message_id, module_id),
        ) as nat,
        16,
    );
    lemma_hex_padded(
        <DefaultHasher as vstd::std_specs::hash::DefaultHasherAdditionalSpecFns>::spec_finish(
            key_writes("lavis-message-key-v1/b"@, peer_id, message_id, module_id),
        ) as nat,
        16,
    );
    let key = message_key(peer_id, message_id, module_id);
    assert forall|i: int| 0 <= i < 32 implies crate::reboot_receipt::hex_digit(
        #[trigger] key[i],
    ) by {
        if i < 16 {
            assert(key[i] == a[i]);
        } else {
            assert(key[i] == b[i - 16]);
        }
    }
}

/// Fresh names for one event; without randomness there is no reference.
pub struct EventNames {
    pub event_id: String,
    pub message_ref: Option<String>,
}

/// What a module is told of a message.
pub struct MessageEvent {
    pub event_id: String,
    pub message_ref: String,
    pub message_key: String,
    pub peer_id: Option<i64>,
    pub text: String,
    pub outgoing: bool,
    pub entities: Vec<CustomEmojiEntity>,
}

/// An event for one module.
pub struct CreatedEventRequest {
    pub module_id: String,
    pub event: MessageEventKind,
    pub payload: MessageEvent,
}

/// The model of a [`CreatedEventRequest`].
pub struct EventRequestView {
    pub module_id: Seq<char>,
    pub event: MessageEventKind,
    pub event_id: Seq<char>,
    pub message_ref: Seq<char>,
    pub message_key: Seq<char>,
    pub peer_id: Option<i64>,
    pub text: Seq<char>,
    pub outgoing: bool,
    pub entities: Seq<CustomEmojiEntity>,
}

impl View for CreatedEventRequest {
    type V = EventRequestView;

    open spec fn view(&self) -> EventRequestView {
        EventRequestView {
            module_id: self.module_id@,
            event: self.event,
            event_id: self.payload.event_id@,
            message_ref: self.payload.message_ref@,
            message_key: self.payload.message_key@,
            peer_id: self.payload.peer_id,
            text: self.payload.text@,
            outgoing: self.payload.outgoing,
            entities: self.payload.entities@,
        }
    }
}

/// A message that modules may be told of.
pub struct EventMessage<'a> {
    pub peer_id: PeerId,
    pub message_id: i32,
    pub event: MessageEventKind,
    pub text: &'a str,
    pub outgoing: bool,
    pub entities: &'a Vec<CustomEmojiEntity>,
}

/// What the module `descriptor` is told of a message under the given names.
pub open spec fn event_for(
    descriptor: ExternalModuleDescriptor,
    message: EventMessage,
    event_id: Seq<char>,
    message_ref: Seq<char>,
) -> EventRequestView {
    EventRequestView {
        module_id: descriptor.id@,
        event: message.event,
        event_id,
        message_ref,
        message_key: message_key(message.peer_id, message.message_id, descriptor.id@),
        peer_id: if descriptor.capabilities@.contains(ExternalCapability::MessagePeerId) {
            message.peer_id.dialog_id
        } else {
            None
        },
        text: message.text@,
        outgoing: message.outgoing,
        entities: message.entities@,
    }
}

/// The events for those of the modules that receive this kind and for which there is a reference.
pub open spec fn events_for(
    descriptors: Seq<ExternalModuleDescriptor>,
    names: Seq<EventNames>,
    message: EventMessage,
) -> Seq<EventRequestView>
    decreases descriptors.len(),
{
    if descriptors.len() == 0 {
        Seq::empty()
    } else {
        let at = descriptors.len() - 1;
        let descriptor = descriptors.last();
        let earlier = events_for(descriptors.drop_last(), names, message);
        if at < names.len() && descriptor.receives@.contains(message.event) {
            match names[at].message_ref {
                Some(message_ref) => earlier.push(
                    event_for(descriptor, message, names[at].event_id@, message_ref@),
                ),
                None => earlier,
            }
        } else {
            earlier
        }
    }
}

/// The models of requests.
pub open spec fn request_views(requests: Seq<CreatedEventRequest>) -> Seq<EventRequestView> {
    requests.map_values(|request: CreatedEventRequest| request@)
}

fn receives_event(receives: &Vec<MessageEventKind>, event: MessageEventKind) -> (yes: bool)
    ensures
        yes == receives@.contains(event),
{
    let mut i: usize = 0;
    while i < receives.len()
        invariant
            i <= receives@.len(),
            forall|j: int| 0 <= j < i ==> #[trigger] receives@[j] != event,
        decreases receives@.len() - i,
    {
        if receives[i] == event {
            return true;
        }
        i = i + 1;
    }
    false
}

fn copy_entities(entities: &Vec<CustomEmojiEntity>) -> (copy: Vec<CustomEmojiEntity>)
    ensures
        copy@ == entities@,
{
    let mut copy: Vec<CustomEmojiEntity> = Vec::new();
    let mut i: usize = 0;
    while i < entities.len()
        invariant
            i <= entities@.len(),
            copy@ == entities@.take(i as int),
        decreases entities@.len() - i,
    {
        copy.push(entities[i]);
        assert(entities@.take(i + 1) == entities@.take(i as int).push(entities@[i as int]));
        i = i + 1;
    }
    assert(entities@.take(i as int) == entities@);
    copy
}

/// The events that a message is worth, one per module; `names` holds fresh names for each module.
pub fn prepare_events(
    descriptors: &Vec<ExternalModuleDescriptor>,
    names: &Vec<EventNames>,
    message: &EventMessage<'_>,
) -> (requests: Vec<CreatedEventRequest>)
    ensures
        request_views(requests@) == events_for(descriptors@, names@, *message),
{
    let mut requests: Vec<CreatedEventRequest> = Vec::new();
    let mut i: usize = 0;
    assert(request_views(requests@) == Seq::<EventRequestView>::empty());
    while i < descriptors.len()
        invariant
            i <= descriptors@.len(),
            request_views(requests@) == events_for(descriptors@.take(i as int), names@, *message),
        decreases descriptors@.len() - i,
    {
        assert(descriptors@.take(i + 1).drop_last() == descriptors@.take(i as int));
        let descriptor = &descriptors[i];
        if i < names.len() && receives_event(&descriptor.receives, message.event) {
            if let Some(message_ref) = &names[i].message_ref {
                let peer_id = if has_capability(
                    &descriptor.capabilities,
                    ExternalCapability::MessagePeerId,
                ) {
                    message.peer_id.dialog_id
                } else {
                    None
                };
                let request = CreatedEventRequest {
                    module_id: descriptor.id.clone(),
                    event: message.event,
                    payload: MessageEvent {
                        event_id: names[i].event_id.clone(),
                        message_ref: message_ref.clone(),
                        message_key: stable_message_key(
                            message.peer_id,
                            message.message_id,
                            descriptor.id.as_str(),
                        ),
                        peer_id,
                        text: message.text.to_owned(),
                        outgoing: message.outgoing,
                        entities: copy_entities(message.entities),
                    },
                };
                let ghost before = requests@;
                let ghost added = request@;
                requests.push(request);
                assert(request_views(requests@) == request_views(before).push(added));
            }
        }
        i = i + 1;
    }
    assert(descriptors@.take(i as int) == descriptors@);
    requests
}

/// A module learns where a message stands only where it may.
pub proof fn peers_are_told_by_capability_only(
    descriptor: ExternalModuleDescriptor,
    message: EventMessage,
    event_id: Seq<char>,
    message_ref: Seq<char>,
)
    ensures
        !descriptor.capabilities@.contains(ExternalCapability::MessagePeerId) ==> event_for(
            descriptor,
            message,
            event_id,
            message_ref,
        ).peer_id is None,
{
}

/// The events to dispatch for one message.
pub struct CreatedEventDispatch {
    pub requests: Vec<CreatedEventRequest>,
}

/// A module that failed to take an event, without the failure's details.
pub struct CreatedEventDispatchFailure {
    pub module_id: String,
    pub category: &'static str,
}

/// What became of an event: the actions that may be done, and the modules that failed.
pub struct CreatedEventDispatchResult {
    pub actions: Vec<u64>,
    pub failures: Vec<CreatedEventDispatchFailure>,
}

impl Default for CreatedEventDispatchResult {
    fn default() -> (result: CreatedEventDispatchResult)
        ensures
            result.actions@.len() == 0,
            result.failures@.len() == 0,
    {
        CreatedEventDispatchResult { actions: Vec::new(), failures: Vec::new() }
    }
}

/// The actions of a list that may be done.
pub open spec fn accepted(actions: Seq<(u64, bool)>) -> Seq<u64>
    decreases actions.len(),
{
    if actions.len() == 0 {
        Seq::empty()
    } else if actions.last().1 {
        accepted(actions.drop_last()).push(actions.last().0)
    } else {
        accepted(actions.drop_last())
    }
}

/// The actions of all answers that may be done, in order.
pub open spec fn accepted_actions(
    outcomes: Seq<Result<Vec<(u64, bool)>, ExternalError>>,
) -> Seq<u64>
    decreases outcomes.len(),
{
    if outcomes.len() == 0 {
        Seq::empty()
    } else {
        accepted_actions(outcomes.drop_last()) + (match outcomes.last() {
            Ok(actions) => accepted(actions@),
            Err(_) => Seq::empty(),
        })
    }
}

/// The failed modules, in order, each with its category.
pub open spec fn failed_modules(
    requests: Seq<CreatedEventRequest>,
    outcomes: Seq<Result<Vec<(u64, bool)>, ExternalError>>,
) -> Seq<(Seq<char>, Seq<char>)>
    decreases outcomes.len(),
{
    if outcomes.len() == 0 {
        Seq::empty()
    } else {
        let at = outcomes.len() - 1;
        let earlier = failed_modules(requests, outcomes.drop_last());
        match outcomes.last() {
            Ok(_) => earlier,
            Err(error) => earlier.push(
                (requests[at].module_id@, external_event_error_category(&error)@),
            ),
        }
    }
}

/// The characters of failures.
pub open spec fn failure_views(failures: Seq<CreatedEventDispatchFailure>) -> Seq<
    (Seq<char>, Seq<char>),
> {
    failures.map_values(
        |failure: CreatedEventDispatchFailure| (failure.module_id@, failure.category@),
    )
}

fn push_accepted(actions: &Vec<(u64, bool)>, result: &mut Vec<u64>)
    ensures
        final(result)@ == old(result)@ + accepted(actions@),
{
    let ghost before = result@;
    let mut i: usize = 0;
    assert(before + accepted(actions@.take(0)) == before);
    while i < actions.len()
        invariant
            i <= actions@.len(),
            result@ == before + accepted(actions@.take(i as int)),
        decreases actions@.len() - i,
    {
        assert(actions@.take(i + 1).drop_last() == actions@.take(i as int));
        let action = actions[i];
        if action.1 {
            result.push(action.0);
            assert(before + accepted(actions@.take(i as int)).push(action.0) == (before + accepted(
                actions@.take(i as int),
            )).push(action.0));
        }
        i = i + 1;
    }
    assert(actions@.take(i as int) == actions@);
}

impl CreatedEventDispatch {
    /// Gathers what the modules answered, one outcome per request: the caller's numbers of the actions
    /// that the module asks for, each with whether it may be done, or how the module failed.
    pub fn execute(&self, outcomes: &Vec<Result<Vec<(u64, bool)>, ExternalError>>) -> (result:
        CreatedEventDispatchResult)
        requires
            outcomes@.len() == self.requests@.len(),
        ensures
            result.actions@ == accepted_actions(outcomes@),
            failure_views(result.failures@) == failed_modules(self.requests@, outcomes@),
    {
        let mut result = CreatedEventDispatchResult { actions: Vec::new(), failures: Vec::new() };
        let mut i: usize = 0;
        assert(failure_views(result.failures@) == Seq::<(Seq<char>, Seq<char>)>::empty());
        while i < outcomes.len()
            invariant
                i <= outcomes@.len(),
                outcomes@.len() == self.requests@.len(),
                result.actions@ == accepted_actions(outcomes@.take(i as int)),
                failure_views(result.failures@) == failed_modules(
                    self.requests@,
                    outcomes@.take(i as int),
                ),
            decreases outcomes@.len() - i,
        {
            assert(outcomes@.take(i + 1).drop_last() == outcomes@.take(i as int));
            match &outcomes[i] {
                Ok(actions) => {
                    push_accepted(actions, &mut result.actions);
                },
                Err(error) => {
                    let failure = CreatedEventDispatchFailure {
                        module_id: self.requests[i].module_id.clone(),
                        category: external_event_error_category(error),
                    };
                    let ghost before = result.failures@;
                    let ghost told = (failure.module_id@, failure.category@);
                    result.failures.push(failure);
                    assert(failure_views(result.failures@) == failure_views(before).push(told));
                    assert(accepted_actions(outcomes@.take(i as int)) + Seq::<u64>::empty()
                        == accepted_actions(outcomes@.take(i as int)));
                },
            }
            i = i + 1;
        }
        assert(outcomes@.take(i as int) == outcomes@);
        result
    }
}

} // verus!
