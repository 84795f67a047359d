//! What holds of the forwarding of warnings and errors.
use super::text::{numeral_value, of_digits, stands_at};
use crate::log_forwarder;
use crate::log_forwarder::{LogLevel, LogWorker, WorkerAction, WorkerEvent};
use crate::text;
use vstd::prelude::*;

verus! {

/// Whether a worker knows everything that it takes to send a line to the topic `topic` of the group `chat`.
pub open spec fn knows(worker: LogWorker, chat: i64, topic: i32) -> bool {
    worker.has_token && worker.chat_id == Some(chat) && worker.topic_id == Some(topic)
}

/// A stored topic is used: once it was read, the line goes there, and so does every line after it. A topic is
/// created only right after none was found, and only once.
pub proof fn stored_topics_are_used(
    worker: LogWorker,
    chat: i64,
    topic: i32,
    event: WorkerEvent,
)
    requires
        worker.has_token,
        worker.chat_id == Some(chat),
    ensures
        ({
            let (next, action) = worker.after(WorkerEvent::TopicLoaded(Some(topic)));
            &&& knows(next, chat, topic)
            &&& action == (WorkerAction::Send { chat_id: chat, topic_id: topic })
            &&& next.after(WorkerEvent::Sent) == (next, WorkerAction::Receive)
            &&& next.after(WorkerEvent::LineReceived) == (next, action)
        }),
        worker.after(event).1 is CreateTopic <==> event == WorkerEvent::TopicLoaded(None)
            && !worker.topic_creation_attempted,
        worker.after(event).1 matches WorkerAction::CreateTopic { chat_id } ==> chat_id == chat,
{
}

/// A created topic is used like a stored one. Where none could be created, this is said once, and lines are
/// dropped from then on without looking for a topic again.
pub proof fn created_topics_are_used(worker: LogWorker, chat: i64, topic: i32)
    requires
        worker.has_token,
        worker.chat_id == Some(chat),
    ensures
        ({
            let (next, action) = worker.after(WorkerEvent::TopicCreated(Some(topic)));
            &&& knows(next, chat, topic)
            &&& action == (WorkerAction::Send { chat_id: chat, topic_id: topic })
            &&& next.after(WorkerEvent::LineReceived) == (next, action)
        }),
        ({
            let (next, action) = worker.after(WorkerEvent::TopicCreated(None));
            &&& action == WorkerAction::WarnTopicUnavailable
            &&& next.has_token && next.chat_id == Some(chat) && next.topic_id is None
            &&& next.after(WorkerEvent::LineReceived) == (next, WorkerAction::Receive)
        }),
{
}

/// What is missing for a line is asked for in its order: the token, the group, the topic; a line whose
/// destination is known is sent.
pub proof fn missing_things_are_asked_for(worker: LogWorker)
    ensures
        ({
            let (next, action) = worker.after(WorkerEvent::LineReceived);
            &&& next == worker
            &&& action is LoadToken <==> !worker.has_token
            &&& action is LoadChat <==> worker.has_token && worker.chat_id is None
            &&& action is LoadTopic <==> worker.has_token && worker.chat_id is Some && worker.topic_id is None
                && !worker.topic_unavailable
            &&& action is Receive <==> worker.has_token && worker.chat_id is Some && worker.topic_id is None
                && worker.topic_unavailable
            &&& action is Send <==> worker.has_token && worker.chat_id is Some && worker.topic_id is Some
        }),
{
}

/// What was read is kept, and the search goes on with what is missing next. Without a token the line is
/// dropped; without a group the worker waits a minute, without a warning.
pub proof fn found_things_are_kept(worker: LogWorker, chat: i64)
    ensures
        ({
            let (next, action) = worker.after(WorkerEvent::TokenLoaded(true));
            &&& next == (LogWorker { has_token: true, ..worker })
            &&& action == next.after(WorkerEvent::LineReceived).1
        }),
        worker.after(WorkerEvent::TokenLoaded(false)) == (
            LogWorker { has_token: false, ..worker },
            WorkerAction::Receive,
        ),
        ({
            let (next, action) = worker.after(WorkerEvent::ChatLoaded(Some(chat)));
            &&& next == (LogWorker { chat_id: Some(chat), ..worker })
            &&& action == next.after(WorkerEvent::LineReceived).1
        }),
        worker.after(WorkerEvent::ChatLoaded(None)) == (
            LogWorker { chat_id: None, ..worker },
            WorkerAction::Pause { seconds: 60, warn: false },
        ),
        worker.after(WorkerEvent::TopicLoaded(None)).0 == (LogWorker { topic_id: None, ..worker }),
{
}

/// After a failed delivery the worker waits a minute, and warns the first time alone. A rejected token is read
/// again; group and topic stay known.
pub proof fn failed_deliveries_are_waited_out(worker: LogWorker, rejected: bool)
    ensures
        ({
            let (next, action) = worker.after(WorkerEvent::SendFailed { rejected });
            &&& action == (WorkerAction::Pause { seconds: 60, warn: !worker.send_rejected_warned })
            &&& next.send_rejected_warned
            &&& next.has_token <==> worker.has_token && !rejected
            &&& next.chat_id == worker.chat_id && next.topic_id == worker.topic_id
            &&& next.topic_unavailable == worker.topic_unavailable
            &&& next.topic_creation_attempted == worker.topic_creation_attempted
        }),
        worker.after(WorkerEvent::Sent) == (worker, WorkerAction::Receive),
{
}

/// A worker that starts in a configured companion sends its first line to the stored topic.
pub proof fn configured_workers_send_their_first_line(worker: LogWorker, chat: i64, topic: i32)
    requires
        !worker.has_token && worker.chat_id is None && worker.topic_id is None
            && !worker.topic_unavailable,
    ensures
        ({
            let a = worker.after(WorkerEvent::LineReceived);
            let b = a.0.after(WorkerEvent::TokenLoaded(true));
            let c = b.0.after(WorkerEvent::ChatLoaded(Some(chat)));
            let d = c.0.after(WorkerEvent::TopicLoaded(Some(topic)));
            &&& a.1 is LoadToken && b.1 is LoadChat && c.1 is LoadTopic
            &&& d.1 == (WorkerAction::Send { chat_id: chat, topic_id: topic })
        }),
{
}

/// Warnings and errors are forwarded, but not those whose target starts with the forwarder's own name; nothing
/// else is.
pub proof fn warnings_and_errors_are_forwarded(level: LogLevel, target: Seq<char>)
    ensures
        level is Info || level is Debug || level is Trace ==> !log_forwarder::forwarded(level, target),
        level is Warn || level is Error ==> (log_forwarder::forwarded(level, target) <==> !stands_at(
            target,
            "lavis_log_forwarder"@,
            0,
        )),
{
    let own = "lavis_log_forwarder"@;
    if own.len() <= target.len() {
        let part = target.subrange(0, own.len() as int);
        if stands_at(target, own, 0) {
            assert forall|i: int| 0 <= i < own.len() implies part[i] == own[i] by {
                assert(target[0 + i] == own[i]);
            }
            assert(part == own);
        }
        if part == own {
            assert forall|i: int| 0 <= i < own.len() implies target[0 + i] == #[trigger] own[i] by {
                assert(part[i] == own[i]);
            }
        }
    }
}

/// A forwarded line is a sign for its level, its target and its message; one that is too long loses its
/// end, beyond a thousand characters.
pub proof fn lines_tell_level_target_and_message(
    level: LogLevel,
    target: Seq<char>,
    message: Seq<char>,
)
    requires
        level is Warn || level is Error,
    ensures
        ({
            let sign = if level is Warn {
                "⚠️ "@
            } else {
                "❌ "@
            };
            let whole = sign + target + ": "@ + message;
            let line = log_forwarder::formatted_line(level.as_str()@, target, message);
            &&& whole.len() <= 1000 ==> line == whole
            &&& whole.len() > 1000 ==> line == whole.take(1000)
        }),
{
    reveal_strlit("WARN");
    reveal_strlit("ERROR");
    reveal_strlit("⚠️");
    reveal_strlit("❌");
    reveal_strlit("⚠️ ");
    reveal_strlit("❌ ");
    reveal_strlit(" ");
    assert("ERROR"@.len() != "WARN"@.len());
    assert("⚠️"@ + " "@ == "⚠️ "@);
    assert("❌"@ + " "@ == "❌ "@);
}

/// The fields of an event follow its message in their order, each as a name, an equals sign and a value.
pub proof fn fields_follow_the_message(
    message: Seq<char>,
    fields: Seq<(Seq<char>, Seq<char>)>,
    name: Seq<char>,
    value: Seq<char>,
)
    ensures
        log_forwarder::with_fields(message, Seq::empty()) == message,
        log_forwarder::with_fields(message, fields.push((name, value))) == log_forwarder::with_fields(
            message,
            fields,
        ) + seq![' '] + name + seq!['='] + value,
{
    reveal_strlit(" ");
    reveal_strlit("=");
    assert(" "@ == seq![' ']);
    assert("="@ == seq!['=']);
    assert(fields.push((name, value)).drop_last() == fields);
}

/// A delivery that follows losses tells first how many lines were lost, and a delivery without losses is the
/// line itself.
pub proof fn losses_are_told(dropped: u64, line: Seq<char>) -> (digits: Seq<char>)
    ensures
        dropped == 0 ==> log_forwarder::with_losses(dropped, line) == line,
        dropped > 0 ==> log_forwarder::with_losses(dropped, line) == "… (и ещё "@ + digits
            + " строк потеряно)\n"@ + line && of_digits(digits) && numeral_value(digits, 10) == dropped,
{
    super::text::decimals_read_back(dropped as nat);
    text::decimal(dropped as nat)
}

/// The first field named `message` is the message; of all others the first three are kept, in their order, and
/// nothing that was kept is lost.
pub proof fn first_fields_are_kept(
    message: Option<Seq<char>>,
    extras: Seq<(Seq<char>, Seq<char>)>,
    name: Seq<char>,
    rendered: Seq<char>,
)
    ensures
        ({
            let (told, kept) = log_forwarder::recorded(message, extras, name, rendered);
            let is_message = name == "message"@ && message is None;
            &&& message is Some ==> told == message
            &&& is_message ==> told == Some(rendered) && kept == extras
            &&& !is_message ==> told == message
            &&& !is_message && extras.len() < 3 ==> kept == extras.push((name, rendered))
            &&& extras.len() >= 3 ==> kept == extras
        }),
{
}

/// A created topic is believed only where Telegram says that it worked, in a reply of at most 64 KiB.
pub proof fn created_topics_are_believed_on_success(
    success: bool,
    bytes: nat,
    ok: bool,
    thread: Option<i32>,
)
    ensures
        log_forwarder::topic_named(success, bytes, ok, thread) == (if success && ok && bytes <= 65_536 {
            thread
        } else {
            None
        }),
{
}

} // verus!
