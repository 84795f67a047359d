//! Forwarding of warnings and errors to the "Logs" topic of the companion group.
//!
//! Events are turned into lines here, and the worker that delivers them is a state machine: it is
//! told what happened and answers with what to do next. Nothing in here waits, logs or sends.
use crate::text;
use vstd::prelude::*;
use vstd::string::*;

verus! {

/// The most characters of a forwarded line.
pub const MAX_LINE_CHARS: usize = 1000;

/// The most fields besides the message that a line tells.
pub const MAX_EXTRA_FIELDS: usize = 3;

/// How long to wait after a line could not be delivered, in seconds.
pub const SEND_BACKOFF: u64 = 60;

/// How long to wait for a destination to appear, in seconds.
pub const DESTINATION_RETRY: u64 = 60;

/// The most bytes of a reply to the creation of a topic that are looked at.
pub const MAX_TOPIC_REPLY_BYTES: usize = 65536;

/// How severe an event is.
#[derive(Clone, Copy, Debug, PartialEq, Eq, Structural)]
pub enum LogLevel {
    Error,
    Warn,
    Info,
    Debug,
    Trace,
}

impl LogLevel {
    /// The name of the level.
    #[verifier::allow_in_spec]
    pub fn as_str(self) -> &'static str
        returns
            (match self {
                LogLevel::Error => "ERROR",
                LogLevel::Warn => "WARN",
                LogLevel::Info => "INFO",
                LogLevel::Debug => "DEBUG",
                LogLevel::Trace => "TRACE",
            }),
    {
        match self {
            LogLevel::Error => "ERROR",
            LogLevel::Warn => "WARN",
            LogLevel::Info => "INFO",
            LogLevel::Debug => "DEBUG",
            LogLevel::Trace => "TRACE",
        }
    }
}

/// Whether an event is forwarded: warnings and errors are, except those of the forwarder itself.
pub open spec fn forwarded(level: LogLevel, target: Seq<char>) -> bool {
    (level == LogLevel::Warn || level == LogLevel::Error) && !text::occurs_at(
        target,
        "lavis_log_forwarder"@,
        0,
    )
}

/// Decides [`forwarded`].
pub fn is_forwarded(level: LogLevel, target: &str) -> (yes: bool)
    ensures
        yes == forwarded(level, target@),
{
    if level != LogLevel::Warn && level != LogLevel::Error {
        return false;
    }
    let chars = text::chars_of(target);
    let own = text::chars_of("lavis_log_forwarder");
    !text::matches_at(&chars, &own, 0)
}

/// The fields of an event, as far as they are forwarded.
pub struct LineFields {
    pub message: Option<String>,
    pub extras: Vec<(String, String)>,
}

/// The characters of named fields.
pub open spec fn field_views(extras: Seq<(String, String)>) -> Seq<(Seq<char>, Seq<char>)> {
    extras.map_values(|extra: (String, String)| (extra.0@, extra.1@))
}

/// `message` followed by the fields.
pub open spec fn with_fields(
    message: Seq<char>,
    extras: Seq<(Seq<char>, Seq<char>)>,
) -> Seq<char>
    decreases extras.len(),
{
    if extras.len() == 0 {
        message
    } else {
        with_fields(message, extras.drop_last()) + " "@ + extras.last().0 + "="@ + extras.last().1
    }
}

/// The message and the fields once a field named `name` was taken.
pub open spec fn recorded(
    message: Option<Seq<char>>,
    extras: Seq<(Seq<char>, Seq<char>)>,
    name: Seq<char>,
    rendered: Seq<char>,
) -> (Option<Seq<char>>, Seq<(Seq<char>, Seq<char>)>) {
    if name == "message"@ && message is None {
        (Some(rendered), extras)
    } else if extras.len() < MAX_EXTRA_FIELDS {
        (message, extras.push((name, rendered)))
    } else {
        (message, extras)
    }
}

/// The thread that a reply to the creation of a topic names, where the reply is acceptable.
pub open spec fn topic_named(
    success: bool,
    reply_bytes: nat,
    ok: bool,
    message_thread_id: Option<i32>,
) -> Option<i32> {
    if success && reply_bytes <= MAX_TOPIC_REPLY_BYTES && ok {
        message_thread_id
    } else {
        None
    }
}

impl LineFields {
    /// The characters of the message, where there is one.
    pub open spec fn message_view(self) -> Option<Seq<char>> {
        match self.message {
            Some(message) => Some(message@),
            None => None,
        }
    }

    /// No fields yet.
    pub fn new() -> (fields: Self)
        ensures
            fields.message is None,
            fields.extras@.len() == 0,
    {
        LineFields { message: None, extras: Vec::new() }
    }

    /// Takes a field: the first `message` is the message, and the first [`MAX_EXTRA_FIELDS`] others
    /// are kept.
    pub fn record(&mut self, name: &str, rendered: String)
        ensures
            (final(self).message_view(), field_views(final(self).extras@)) == recorded(
                old(self).message_view(),
                field_views(old(self).extras@),
                name@,
                rendered@,
            ),
            name@ == "message"@ && old(self).message is None ==> {
                &&& final(self).message == Some(rendered)
                &&& final(self).extras == old(self).extras
            },
            !(name@ == "message"@ && old(self).message is None) ==> {
                &&& final(self).message == old(self).message
                &&& field_views(final(self).extras@) == (if old(self).extras@.len()
                    < MAX_EXTRA_FIELDS {
                    field_views(old(self).extras@).push((name@, rendered@))
                } else {
                    field_views(old(self).extras@)
                })
            },
            old(self).extras@.len() <= MAX_EXTRA_FIELDS ==> final(self).extras@.len()
                <= MAX_EXTRA_FIELDS,
    {
        if self.message.is_none() && text::same_text(name, "message") {
            self.message = Some(rendered);
        } else if self.extras.len() < MAX_EXTRA_FIELDS {
            let ghost before = self.extras@;
            let ghost value = rendered@;
            self.extras.push((name.to_owned(), rendered));
            assert(field_views(self.extras@) == field_views(before).push((name@, value)));
        }
    }

    /// The text of the event; an event without a message has none.
    pub fn text(&self) -> (line: Option<String>)
        ensures
            match self.message {
                Some(message) => line is Some && line->0@ == with_fields(
                    message@,
                    field_views(self.extras@),
                ),
                None => line is None,
            },
    {
        let mut line = match &self.message {
            Some(message) => message.clone(),
            None => return None,
        };
        let ghost message = line@;
        let ghost all = field_views(self.extras@);
        let mut i: usize = 0;
        while i < self.extras.len()
            invariant
                i <= self.extras@.len(),
                all == field_views(self.extras@),
                line@ == with_fields(message, all.take(i as int)),
            decreases self.extras@.len() - i,
        {
            assert(all.take(i + 1).drop_last() == all.take(i as int));
            line.append(" ");
            line.append(self.extras[i].0.as_str());
            line.append("=");
            line.append(self.extras[i].1.as_str());
            i = i + 1;
        }
        assert(all.take(i as int) == all);
        Some(line)
    }
}

/// A line about an event, cut to [`MAX_LINE_CHARS`].
pub open spec fn formatted_line(
    level: Seq<char>,
    target: Seq<char>,
    message: Seq<char>,
) -> Seq<char> {
    let emoji = if level == "WARN"@ {
        "⚠️"@
    } else {
        "❌"@
    };
    text::first_chars(emoji + " "@ + target + ": "@ + message, MAX_LINE_CHARS as nat)
}

/// [`formatted_line`] as a string.
pub fn format_line(level: &str, target: &str, message: &str) -> (line: String)
    ensures
        line@ == formatted_line(level@, target@, message@),
        line@.len() <= MAX_LINE_CHARS,
{
    let emoji = if text::same_text(level, "WARN") {
        "⚠️"
    } else {
        "❌"
    };
    let mut line = emoji.to_owned();
    line.append(" ");
    line.append(target);
    line.append(": ");
    line.append(message);
    text::take_chars(line.as_str(), MAX_LINE_CHARS)
}

/// The line that is forwarded for an event, where one is.
pub fn forwarded_line(level: LogLevel, target: &str, fields: &LineFields) -> (line: Option<String>)
    ensures
        match fields.message {
            Some(message) if forwarded(level, target@) => line is Some && line->0@
                == formatted_line(
                level.as_str()@,
                target@,
                with_fields(message@, field_views(fields.extras@)),
            ),
            _ => line is None,
        },
{
    if !is_forwarded(level, target) {
        return None;
    }
    match fields.text() {
        Some(message) => Some(format_line(level.as_str(), target, message.as_str())),
        None => None,
    }
}

/// `line`, preceded by the number of lines that were lost before it.
pub open spec fn with_losses(dropped: u64, line: Seq<char>) -> Seq<char> {
    if dropped > 0 {
        "… (и ещё "@ + text::decimal(dropped as nat) + " строк потеряно)\n"@ + line
    } else {
        line
    }
}

/// [`with_losses`] as a string.
pub fn delivery_text(dropped: u64, line: String) -> (message: String)
    ensures
        message@ == with_losses(dropped, line@),
{
    if dropped > 0 {
        let mut message = "… (и ещё ".to_owned();
        message.append(text::to_decimal(dropped as u128).as_str());
        message.append(" строк потеряно)\n");
        message.append(line.as_str());
        message
    } else {
        line
    }
}

/// The thread that a reply to the creation of a topic names, where the reply is acceptable.
pub fn created_topic(
    success: bool,
    reply_bytes: usize,
    ok: bool,
    message_thread_id: Option<i32>,
) -> (topic: Option<i32>)
    ensures
        topic == topic_named(success, reply_bytes as nat, ok, message_thread_id),
        topic == (if success && reply_bytes <= MAX_TOPIC_REPLY_BYTES && ok {
            message_thread_id
        } else {
            None
        }),
{
    if success && reply_bytes <= MAX_TOPIC_REPLY_BYTES && ok {
        message_thread_id
    } else {
        None
    }
}

/// What the worker asks for.
#[derive(Clone, Copy, Debug, PartialEq, Eq, Structural)]
pub enum WorkerAction {
    /// Wait for the next line.
    Receive,
    /// Read the bot token.
    LoadToken,
    /// Read the number of the companion group.
    LoadChat,
    /// Read the number of the logs topic.
    LoadTopic,
    /// Create the logs topic in the group.
    CreateTopic { chat_id: i64 },
    /// Warn that there is no logs topic, drop the line and wait for the next.
    WarnTopicUnavailable,
    /// Send the line to the topic.
    Send { chat_id: i64, topic_id: i32 },
    /// Drop the line, wait that many seconds, then wait for the next line.
    Pause { seconds: u64, warn: bool },
}

/// What happened to the worker.
#[derive(Clone, Copy, Debug, PartialEq, Eq, Structural)]
pub enum WorkerEvent {
    LineReceived,
    TokenLoaded(bool),
    ChatLoaded(Option<i64>),
    TopicLoaded(Option<i32>),
    TopicCreated(Option<i32>),
    Sent,
    SendFailed { rejected: bool },
}

/// What the worker knows. The token itself stays with the caller.
#[derive(Clone, Copy, Debug, PartialEq, Eq, Structural)]
pub struct LogWorker {
    pub has_token: bool,
    pub chat_id: Option<i64>,
    pub topic_id: Option<i32>,
    pub topic_unavailable: bool,
    pub topic_creation_attempted: bool,
    pub send_rejected_warned: bool,
}

impl LogWorker {
    /// A topic that could not be created is never looked for again, and one creation is all that is
    /// attempted.
    pub open spec fn wf(self) -> bool {
        &&& self.topic_unavailable ==> self.topic_creation_attempted && self.topic_id is None
    }

    /// What is needed before the line at hand can be delivered.
    pub open spec fn pending(self) -> WorkerAction {
        if !self.has_token {
            WorkerAction::LoadToken
        } else {
            match self.chat_id {
                None => WorkerAction::LoadChat,
                Some(chat_id) => match self.topic_id {
                    Some(topic_id) => WorkerAction::Send { chat_id, topic_id },
                    None => if self.topic_unavailable {
                        WorkerAction::Receive
                    } else {
                        WorkerAction::LoadTopic
                    },
                },
            }
        }
    }

    /// The worker and its next action once something happened.
    pub open spec fn after(self, event: WorkerEvent) -> (LogWorker, WorkerAction) {
        match event {
            WorkerEvent::LineReceived => (self, self.pending()),
            WorkerEvent::TokenLoaded(has_token) => {
                let next = LogWorker { has_token, ..self };
                (
                    next,
                    if has_token {
                        next.pending()
                    } else {
                        WorkerAction::Receive
                    },
                )
            },
            WorkerEvent::ChatLoaded(chat_id) => {
                let next = LogWorker { chat_id, ..self };
                (
                    next,
                    if chat_id is Some {
                        next.pending()
                    } else {
                        WorkerAction::Pause { seconds: DESTINATION_RETRY, warn: false }
                    },
                )
            },
            WorkerEvent::TopicLoaded(topic_id) => {
                let next = LogWorker { topic_id, ..self };
                (
                    next,
                    match (topic_id, self.chat_id) {
                        (Some(_), _) => next.pending(),
                        (None, Some(chat_id)) if !self.topic_creation_attempted =>
                            WorkerAction::CreateTopic { chat_id },
                        _ => WorkerAction::Receive,
                    },
                )
            },
            WorkerEvent::TopicCreated(topic_id) => {
                let next = LogWorker {
                    topic_id,
                    topic_creation_attempted: true,
                    topic_unavailable: topic_id is None,
                    ..self
                };
                (
                    next,
                    if topic_id is Some {
                        next.pending()
                    } else {
                        WorkerAction::WarnTopicUnavailable
                    },
                )
            },
            WorkerEvent::Sent => (self, WorkerAction::Receive),
            WorkerEvent::SendFailed { rejected } => (
                LogWorker {
                    has_token: self.has_token && !rejected,
                    send_rejected_warned: true,
                    ..self
                },
                WorkerAction::Pause { seconds: SEND_BACKOFF, warn: !self.send_rejected_warned },
            ),
        }
    }

    /// A worker that knows nothing yet.
    pub fn new() -> (worker: Self)
        ensures
            worker.wf(),
            !worker.has_token && worker.chat_id is None && worker.topic_id is None,
            !worker.topic_unavailable && !worker.topic_creation_attempted
                && !worker.send_rejected_warned,
    {
        LogWorker {
            has_token: false,
            chat_id: None,
            topic_id: None,
            topic_unavailable: false,
            topic_creation_attempted: false,
            send_rejected_warned: false,
        }
    }

    fn next_need(&self) -> (action: WorkerAction)
        ensures
            action == self.pending(),
    {
        if !self.has_token {
            return WorkerAction::LoadToken;
        }
        match self.chat_id {
            None => WorkerAction::LoadChat,
            Some(chat_id) => match self.topic_id {
                Some(topic_id) => WorkerAction::Send { chat_id, topic_id },
                None => if self.topic_unavailable {
                    WorkerAction::Receive
                } else {
                    WorkerAction::LoadTopic
                },
            },
        }
    }

    /// Takes an event and tells what to do next, as [`LogWorker::after`] says.
    pub fn step(&mut self, event: WorkerEvent) -> (action: WorkerAction)
        ensures
            (*final(self), action) == old(self).after(event),
    {
        match event {
            WorkerEvent::LineReceived => self.next_need(),
            WorkerEvent::TokenLoaded(has_token) => {
                self.has_token = has_token;
                if has_token {
                    self.next_need()
                } else {
                    WorkerAction::Receive
                }
            },
            WorkerEvent::ChatLoaded(chat_id) => {
                self.chat_id = chat_id;
                if chat_id.is_some() {
                    self.next_need()
                } else {
                    WorkerAction::Pause { seconds: DESTINATION_RETRY, warn: false }
                }
            },
            WorkerEvent::TopicLoaded(topic_id) => {
                self.topic_id = topic_id;
                if topic_id.is_some() {
                    self.next_need()
                } else {
                    match self.chat_id {
                        Some(chat_id) => if self.topic_creation_attempted {
                            WorkerAction::Receive
                        } else {
                            WorkerAction::CreateTopic { chat_id }
                        },
                        None => WorkerAction::Receive,
                    }
                }
            },
            WorkerEvent::TopicCreated(topic_id) => {
                self.topic_id = topic_id;
                self.topic_creation_attempted = true;
                self.topic_unavailable = topic_id.is_none();
                if topic_id.is_some() {
                    self.next_need()
                } else {
                    WorkerAction::WarnTopicUnavailable
                }
            },
            WorkerEvent::Sent => WorkerAction::Receive,
            WorkerEvent::SendFailed { rejected } => {
                let warn = !self.send_rejected_warned;
                if rejected {
                    self.has_token = false;
                }
                self.send_rejected_warned = true;
                WorkerAction::Pause { seconds: SEND_BACKOFF, warn }
            },
        }
    }
}

/// Whether an event answers the action that the worker asked for.
pub open spec fn answers(action: WorkerAction, event: WorkerEvent) -> bool {
    match action {
        WorkerAction::Receive => event is LineReceived,
        WorkerAction::LoadToken => event is TokenLoaded,
        WorkerAction::LoadChat => event is ChatLoaded,
        WorkerAction::LoadTopic => event is TopicLoaded,
        WorkerAction::CreateTopic { .. } => event is TopicCreated,
        WorkerAction::WarnTopicUnavailable => event is LineReceived,
        WorkerAction::Send { .. } => event is Sent || event is SendFailed,
        WorkerAction::Pause { .. } => event is LineReceived,
    }
}

/// The worker after a run of events, each with the action that followed it.
pub open spec fn run(worker: LogWorker, events: Seq<WorkerEvent>) -> (LogWorker, Seq<WorkerAction>)
    decreases events.len(),
{
    if events.len() == 0 {
        (worker, Seq::empty())
    } else {
        let before = run(worker, events.drop_last());
        let last = before.0.after(events.last());
        (last.0, before.1.push(last.1))
    }
}

/// Whether a run of events answers the worker's actions, the first of them being `Receive`.
pub open spec fn answered(worker: LogWorker, events: Seq<WorkerEvent>) -> bool {
    forall|i: int|
        0 <= i < events.len() ==> answers(
            if i == 0 {
                WorkerAction::Receive
            } else {
                run(worker, events).1[i - 1]
            },
            #[trigger] events[i],
        )
}

/// How many times a run asks for a topic to be created.
pub open spec fn creations(actions: Seq<WorkerAction>) -> nat
    decreases actions.len(),
{
    if actions.len() == 0 {
        0
    } else {
        creations(actions.drop_last()) + (if actions.last() is CreateTopic {
            1nat
        } else {
            0nat
        })
    }
}

/// How many times a run warns that delivery was refused.
pub open spec fn warnings(actions: Seq<WorkerAction>) -> nat
    decreases actions.len(),
{
    if actions.len() == 0 {
        0
    } else {
        warnings(actions.drop_last()) + (if actions.last() matches WorkerAction::Pause {
            warn: true,
            ..
        } {
            1nat
        } else {
            0nat
        })
    }
}

proof fn lemma_run_len(worker: LogWorker, events: Seq<WorkerEvent>)
    ensures
        run(worker, events).1.len() == events.len(),
    decreases events.len(),
{
    if events.len() > 0 {
        lemma_run_len(worker, events.drop_last());
    }
}

/// However long a worker runs, it asks at most once for the topic to be created and warns at most
/// once that delivery was refused.
pub proof fn worker_creates_and_warns_at_most_once(worker: LogWorker, events: Seq<WorkerEvent>)
    requires
        worker.wf(),
        !worker.topic_creation_attempted,
        !worker.send_rejected_warned,
        answered(worker, events),
    ensures
        creations(run(worker, events).1) <= 1,
        warnings(run(worker, events).1) <= 1,
        run(worker, events).0.wf(),
{
    lemma_worker_run(worker, events);
}

proof fn lemma_worker_run(worker: LogWorker, events: Seq<WorkerEvent>)
    requires
        worker.wf(),
        !worker.topic_creation_attempted,
        !worker.send_rejected_warned,
        answered(worker, events),
    ensures
        ({
            let (last, actions) = run(worker, events);
            let asked = actions.len() > 0 && actions.last() is CreateTopic;
            &&& last.wf()
            &&& creations(actions) == (if last.topic_creation_attempted || asked {
                1nat
            } else {
                0nat
            })
            &&& asked ==> !last.topic_creation_attempted
            &&& warnings(actions) == (if last.send_rejected_warned {
                1nat
            } else {
                0nat
            })
            &&& actions.len() > 0 && actions.last() is LoadTopic ==> last.topic_id is None
                && !last.topic_unavailable
        }),
    decreases events.len(),
{
    if events.len() > 0 {
        let earlier = events.drop_last();
        let before = run(worker, earlier);
        let all = run(worker, events);
        lemma_run_len(worker, earlier);
        lemma_run_len(worker, events);
        assert(all.1.drop_last() == before.1);
        assert(answered(worker, earlier)) by {
            assert forall|i: int| 0 <= i < earlier.len() implies answers(
                if i == 0 {
                    WorkerAction::Receive
                } else {
                    run(worker, earlier).1[i - 1]
                },
                #[trigger] earlier[i],
            ) by {
                assert(events[i] == earlier[i]);
                if i > 0 {
                    assert(all.1[i - 1] == before.1[i - 1]);
                }
            }
        }
        lemma_worker_run(worker, earlier);
        let n = events.len() - 1;
        assert(answers(
            if n == 0 {
                WorkerAction::Receive
            } else {
                all.1[n - 1]
            },
            events[n],
        ));
        if n > 0 {
            assert(all.1[n - 1] == before.1.last());
        }
    }
}

/// A line is sent only where the token, the group and the topic are known, and to no other place.
pub proof fn sending_needs_a_destination(worker: LogWorker, event: WorkerEvent)
    ensures
        worker.after(event).1 matches WorkerAction::Send { chat_id, topic_id } ==> {
            let next = worker.after(event).0;
            next.has_token && next.chat_id == Some(chat_id) && next.topic_id == Some(topic_id)
        },
{
}

} // verus!
