//! The setup of the companion bot: a conversation with the owner in Saved Messages and with
//! BotFather.
//!
//! The coordinator holds the phase of the conversation. Talking to Telegram, to the bot API and to
//! the setup storage is up to the caller, who reports what came of it.
use crate::i18n::{setup_text, Locale, SetupText};
use crate::peer::PeerId;
use crate::response;
use crate::response::{Response, ResponseView};
use crate::text;
use vstd::prelude::*;
use vstd::string::*;

verus! {

/// How long each stage of the setup may take, in milliseconds.
pub const SETUP_STAGE_TIMEOUT: u64 = 90_000;

/// How often a generated username is tried before the owner is asked for one.
pub const MAX_AUTOMATIC_ATTEMPTS: u8 = 10;

/// The display name of the companion bot.
pub const DISPLAY_NAME: &'static str = "Lavis — really your userbot";

/// Where the setup stands. Deadlines are in milliseconds of the caller's clock.
pub enum SetupPhase {
    Idle,
    AwaitingUsername { automatic: bool, deadline: u64 },
    AwaitingConfirmation { username: String, automatic: bool, attempts: u8, deadline: u64 },
    Running { automatic: bool, attempts: u8, deadline: u64 },
}

/// The model of a [`SetupPhase`].
pub enum PhaseView {
    Idle,
    AwaitingUsername { automatic: bool, deadline: u64 },
    AwaitingConfirmation { username: Seq<char>, automatic: bool, attempts: u8, deadline: u64 },
    Running { automatic: bool, attempts: u8, deadline: u64 },
}

impl View for SetupPhase {
    type V = PhaseView;

    open spec fn view(&self) -> PhaseView {
        match *self {
            SetupPhase::Idle => PhaseView::Idle,
            SetupPhase::AwaitingUsername { automatic, deadline } => PhaseView::AwaitingUsername {
                automatic,
                deadline,
            },
            SetupPhase::AwaitingConfirmation { username, automatic, attempts, deadline } =>
                PhaseView::AwaitingConfirmation {
                username: username@,
                automatic,
                attempts,
                deadline,
            },
            SetupPhase::Running { automatic, attempts, deadline } => PhaseView::Running {
                automatic,
                attempts,
                deadline,
            },
        }
    }
}

impl PhaseView {
    /// When the phase is over, where it is not idle.
    pub open spec fn deadline(self) -> Option<u64> {
        match self {
            PhaseView::Idle => None,
            PhaseView::AwaitingUsername { deadline, .. } => Some(deadline),
            PhaseView::AwaitingConfirmation { deadline, .. } => Some(deadline),
            PhaseView::Running { deadline, .. } => Some(deadline),
        }
    }

    /// The number of usernames tried so far.
    pub open spec fn attempts(self) -> u8 {
        match self {
            PhaseView::AwaitingConfirmation { attempts, .. } => attempts,
            PhaseView::Running { attempts, .. } => attempts,
            _ => 0,
        }
    }
}

/// The deadline of a stage that begins at the time `now`.
pub open spec fn stage_deadline(now: u64) -> u64 {
    if now + SETUP_STAGE_TIMEOUT <= u64::MAX {
        (now + SETUP_STAGE_TIMEOUT) as u64
    } else {
        u64::MAX
    }
}

/// What the owner asked of the setup.
pub enum SetupRequest {
    Start,
    Auto,
    Username(String),
    Status,
    Cancel,
    Repair,
    Invalid,
}

/// What the owner is told.
pub enum SetupReply {
    Message(SetupText),
    /// What is about to be done, for the owner to confirm.
    Plan { username: String },
}

/// The text of the plan for a username.
pub open spec fn plan_text(locale: Locale, username: Seq<char>) -> Seq<char> {
    text::replaced(
        text::replaced(setup_text(locale, SetupText::Plan)@, "{username}"@, username),
        "{display_name}"@,
        DISPLAY_NAME@,
    )
}

impl SetupReply {
    /// What the reply says in a language.
    pub open spec fn told(self, locale: Locale) -> Seq<char> {
        match self {
            SetupReply::Message(key) => setup_text(locale, key)@,
            SetupReply::Plan { username } => plan_text(locale, username@),
        }
    }

    /// The reply as a response.
    pub fn render(&self, locale: Locale) -> (response: Response)
        ensures
            response@ == response::plain_view(Locale::English, self.told(locale)),
    {
        match self {
            SetupReply::Message(key) => Response::plain(setup_text(locale, *key)),
            SetupReply::Plan { username } => {
                let filled = text::replace(
                    setup_text(locale, SetupText::Plan),
                    "{username}",
                    username.as_str(),
                );
                Response::plain(
                    text::replace(filled.as_str(), "{display_name}", DISPLAY_NAME).as_str(),
                )
            },
        }
    }
}

/// What a setup command leads to.
pub enum SetupStep {
    Reply(SetupReply),
    /// Look at the stored state and tell it.
    TellStatus,
    /// Check what is stored and set up what is missing.
    Repair,
}

/// The model of a [`SetupStep`] and of an [`InputStep`].
pub enum StepView {
    Say(SetupText),
    Plan(Seq<char>),
    TellStatus,
    Repair,
    StartFlow { username: Seq<char>, automatic: bool, attempts: u8 },
}

impl View for SetupReply {
    type V = StepView;

    open spec fn view(&self) -> StepView {
        match *self {
            SetupReply::Message(key) => StepView::Say(key),
            SetupReply::Plan { username } => StepView::Plan(username@),
        }
    }
}

impl View for SetupStep {
    type V = StepView;

    open spec fn view(&self) -> StepView {
        match *self {
            SetupStep::Reply(reply) => reply@,
            SetupStep::TellStatus => StepView::TellStatus,
            SetupStep::Repair => StepView::Repair,
        }
    }
}

impl View for InputStep {
    type V = StepView;

    open spec fn view(&self) -> StepView {
        match *self {
            InputStep::Reply(reply) => reply@,
            InputStep::StartFlow { username, automatic, attempts } => StepView::StartFlow {
                username: username@,
                automatic,
                attempts,
            },
        }
    }
}

/// The phase in which the owner is asked to confirm the plan for a username, and the plan.
pub open spec fn planned(username: Seq<char>, automatic: bool, now: u64) -> (PhaseView, StepView) {
    (
        PhaseView::AwaitingConfirmation {
            username,
            automatic,
            attempts: 1,
            deadline: stage_deadline(now),
        },
        StepView::Plan(username),
    )
}

/// The phase and the step that follow a setup command.
pub open spec fn commanded(
    phase: PhaseView,
    request: SetupRequest,
    has_created_bot: bool,
    username: Option<Seq<char>>,
    now: u64,
) -> (PhaseView, StepView) {
    let begins = request is Start || request is Auto || request is Username;
    if begins && phase !is Idle {
        (phase, StepView::Say(SetupText::AlreadyActive))
    } else if begins && has_created_bot {
        (phase, StepView::Say(SetupText::ExistingBot))
    } else {
        match (request, username) {
            (SetupRequest::Repair, _) => (phase, StepView::Repair),
            (SetupRequest::Status, _) => (phase, StepView::TellStatus),
            (SetupRequest::Cancel, _) => (
                PhaseView::Idle,
                StepView::Say(
                    if phase is Idle {
                        SetupText::NoActiveSetup
                    } else {
                        SetupText::Cancelled
                    },
                ),
            ),
            (SetupRequest::Start, _) => (
                PhaseView::AwaitingUsername { automatic: false, deadline: stage_deadline(now) },
                StepView::Say(SetupText::UsernamePrompt),
            ),
            (SetupRequest::Auto, Some(username)) => planned(username, true, now),
            (SetupRequest::Auto, None) => (
                phase,
                StepView::Say(SetupText::UsernameGenerationFailed),
            ),
            (SetupRequest::Username(_), Some(username)) => planned(username, false, now),
            (SetupRequest::Username(_), None) => (phase, StepView::Say(SetupText::UsernameInvalid)),
            (SetupRequest::Invalid, _) => (phase, StepView::Say(SetupText::Usage)),
        }
    }
}

/// The phase and the step that follow what the owner wrote while a setup is under way.
pub open spec fn after_input(
    phase: PhaseView,
    confirmation: Option<Confirmation>,
    generated: bool,
    username: Option<Seq<char>>,
    now: u64,
) -> (PhaseView, StepView) {
    if confirmation == Some(Confirmation::Cancelled) {
        (PhaseView::Idle, StepView::Say(SetupText::Cancelled))
    } else {
        match phase {
            PhaseView::AwaitingUsername { automatic, .. } => match username {
                Some(username) => planned(username, automatic || generated, now),
                None => (phase, StepView::Say(SetupText::UsernameInvalid)),
            },
            PhaseView::AwaitingConfirmation { username, automatic, attempts, .. } => (
                phase,
                if confirmation == Some(Confirmation::Confirmed) {
                    StepView::StartFlow { username, automatic, attempts }
                } else {
                    StepView::Say(SetupText::ConfirmOrCancel)
                },
            ),
            _ => (phase, StepView::Say(SetupText::WaitingBotFather)),
        }
    }
}

/// The phase that follows an attempt to begin the conversation with BotFather, and what is told.
pub open spec fn after_start(
    phase: PhaseView,
    automatic: bool,
    attempts: u8,
    start: FlowStart,
    now: u64,
) -> (PhaseView, SetupText) {
    match start {
        FlowStart::Unavailable => (phase, SetupText::BotFatherUnavailable),
        FlowStart::Failed => (phase, SetupText::BotFatherStartFailed),
        FlowStart::Started(_) => (
            PhaseView::Running { automatic, attempts, deadline: stage_deadline(now) },
            SetupText::Started,
        ),
    }
}

/// Whether a phase is over at the time `now`.
pub open spec fn is_over(phase: PhaseView, now: u64) -> bool {
    match phase.deadline() {
        Some(deadline) => deadline <= now,
        None => false,
    }
}

/// Whether a step is the message `key`.
pub open spec fn step_says(step: SetupStep, key: SetupText) -> bool {
    step == SetupStep::Reply(SetupReply::Message(key))
}

/// Whether a step is the plan for `username`.
pub open spec fn step_plans(step: SetupStep, username: Seq<char>) -> bool {
    step matches SetupStep::Reply(SetupReply::Plan { username: told }) && told@ == username
}

/// What the owner answered to a plan.
#[derive(Clone, Copy, Debug, PartialEq, Eq, Structural)]
pub enum Confirmation {
    Confirmed,
    Cancelled,
}

/// What the owner's message leads to.
pub enum InputStep {
    Reply(SetupReply),
    /// Find BotFather and begin; report with [`SetupCoordinator::flow_started`].
    StartFlow { username: String, automatic: bool, attempts: u8 },
}

/// What came of beginning the conversation with BotFather.
#[derive(Clone, Copy, Debug, PartialEq, Eq, Structural)]
pub enum FlowStart {
    Unavailable,
    Failed,
    Started(PeerId),
}

/// What came of a message of BotFather.
#[derive(Clone, Copy, Debug, PartialEq, Eq, Structural)]
pub enum BotFatherProgress {
    /// The bot API cannot be asked.
    CheckUnavailable,
    Pending,
    ProvisionReady,
    UsernameOccupied,
    UsernameInvalid,
    LimitReached,
    FloodWait,
    Unexpected,
    /// The setup storage failed.
    Storage,
    /// BotFather or the bot API did not answer in time.
    Timeout,
    /// The bot could not be verified.
    Failed,
}

/// What a message of BotFather leads to.
#[derive(Clone, Copy, Debug, PartialEq, Eq, Structural)]
pub enum BotFatherStep {
    /// Nothing is to be done.
    Nothing,
    /// Tell the owner.
    Tell(SetupText),
    /// The bot exists; set up the rest.
    Provision,
    /// Generate another username and begin again with [`retry_step`], as attempt number `attempts`.
    Retry { attempts: u8 },
}

/// The phase and the step that follow a message of BotFather.
pub open spec fn after_botfather(
    phase: PhaseView,
    progress: BotFatherProgress,
    now: u64,
) -> (PhaseView, BotFatherStep) {
    match phase {
        PhaseView::Running { automatic, attempts, .. } => match progress {
            BotFatherProgress::CheckUnavailable => (
                PhaseView::Idle,
                BotFatherStep::Tell(SetupText::BotCheckUnavailable),
            ),
            BotFatherProgress::Pending => (
                PhaseView::Running { automatic, attempts, deadline: stage_deadline(now) },
                BotFatherStep::Nothing,
            ),
            BotFatherProgress::ProvisionReady => (PhaseView::Idle, BotFatherStep::Provision),
            BotFatherProgress::UsernameOccupied if automatic && attempts
                < MAX_AUTOMATIC_ATTEMPTS => (
                PhaseView::Idle,
                BotFatherStep::Retry { attempts: (attempts + 1) as u8 },
            ),
            BotFatherProgress::UsernameOccupied => (
                PhaseView::AwaitingUsername { automatic: false, deadline: stage_deadline(now) },
                BotFatherStep::Tell(SetupText::BotUsernameRejected),
            ),
            BotFatherProgress::UsernameInvalid => (
                PhaseView::AwaitingUsername { automatic: false, deadline: stage_deadline(now) },
                BotFatherStep::Tell(SetupText::BotUsernameRejected),
            ),
            BotFatherProgress::LimitReached => (
                PhaseView::Idle,
                BotFatherStep::Tell(SetupText::BotLimitReached),
            ),
            BotFatherProgress::FloodWait => (
                PhaseView::Idle,
                BotFatherStep::Tell(SetupText::BotRetryLater),
            ),
            BotFatherProgress::Unexpected => (
                PhaseView::Idle,
                BotFatherStep::Tell(SetupText::BotUnexpected),
            ),
            BotFatherProgress::Storage => (
                PhaseView::Idle,
                BotFatherStep::Tell(SetupText::BotStorageFailed),
            ),
            BotFatherProgress::Timeout => (
                PhaseView::Idle,
                BotFatherStep::Tell(SetupText::BotTimedOut),
            ),
            BotFatherProgress::Failed => (
                PhaseView::Idle,
                BotFatherStep::Tell(SetupText::BotVerificationFailed),
            ),
        },
        phase => (phase, BotFatherStep::Nothing),
    }
}

/// The setup of one companion bot.
pub struct SetupCoordinator {
    pub saved_messages_peer: PeerId,
    pub botfather_peer: Option<PeerId>,
    pub phase: SetupPhase,
}

impl SetupCoordinator {
    /// Whether a setup is under way.
    pub fn is_active(&self) -> (active: bool)
        ensures
            active == (self.phase@ !is Idle),
    {
        match self.phase {
            SetupPhase::Idle => false,
            _ => true,
        }
    }

    /// Whether the setup keeps a message from everyone else: all that is said with BotFather, and
    /// what the owner writes in Saved Messages while a setup is under way.
    pub open spec fn protects(self, peer: PeerId, authored_by_self: bool) -> bool {
        self.botfather_peer == Some(peer) || (authored_by_self && peer == self.saved_messages_peer
            && self.phase@ !is Idle)
    }

    /// Decides [`SetupCoordinator::protects`].
    pub fn protects_message(&self, peer: PeerId, authored_by_self: bool) -> (protected: bool)
        ensures
            protected == self.protects(peer, authored_by_self),
    {
        let with_botfather = match self.botfather_peer {
            Some(botfather) => botfather == peer,
            None => false,
        };
        with_botfather || (authored_by_self && peer == self.saved_messages_peer && self.is_active())
    }

    /// When the phase is over, where one is under way.
    pub fn deadline(&self) -> (deadline: Option<u64>)
        ensures
            deadline == self.phase@.deadline(),
    {
        match self.phase {
            SetupPhase::Idle => None,
            SetupPhase::AwaitingUsername { deadline, .. } => Some(deadline),
            SetupPhase::AwaitingConfirmation { deadline, .. } => Some(deadline),
            SetupPhase::Running { deadline, .. } => Some(deadline),
        }
    }

    /// Ends a setup whose deadline has come, and tells whether it did.
    pub fn expire(&mut self, now: u64) -> (expired: bool)
        ensures
            expired == (old(self).phase@.deadline() matches Some(deadline) && deadline <= now),
            expired == is_over(old(self).phase@, now),
            final(self).phase@ == (if expired {
                PhaseView::Idle
            } else {
                old(self).phase@
            }),
            final(self).saved_messages_peer == old(self).saved_messages_peer,
            final(self).botfather_peer == old(self).botfather_peer,
    {
        match self.deadline() {
            Some(deadline) => {
                if deadline <= now {
                    self.phase = SetupPhase::Idle;
                    true
                } else {
                    false
                }
            },
            None => false,
        }
    }

    /// Asks the owner to confirm the plan for a username. Nothing is sent to BotFather before.
    pub fn confirm_or_start(
        &mut self,
        username: String,
        automatic: bool,
        attempts: u8,
        now: u64,
    ) -> (reply: SetupReply)
        ensures
            final(self).phase@ == (PhaseView::AwaitingConfirmation {
                username: username@,
                automatic,
                attempts,
                deadline: stage_deadline(now),
            }),
            final(self).saved_messages_peer == old(self).saved_messages_peer,
            final(self).botfather_peer == old(self).botfather_peer,
            reply matches SetupReply::Plan { username: told } && told@ == username@,
    {
        let told = username.clone();
        self.phase = SetupPhase::AwaitingConfirmation {
            username,
            automatic,
            attempts,
            deadline: now.saturating_add(SETUP_STAGE_TIMEOUT),
        };
        SetupReply::Plan { username: told }
    }

    /// Takes a setup command. `has_created_bot` tells whether a bot is already stored, and
    /// `username` is the generated or given username, where it was generated or is acceptable.
    pub fn handle_command(
        &mut self,
        request: &SetupRequest,
        has_created_bot: bool,
        username: Option<String>,
        now: u64,
    ) -> (step: SetupStep)
        ensures
            (final(self).phase@, step@) == commanded(
                old(self).phase@,
                *request,
                has_created_bot,
                super::upstream::optional(username),
                now,
            ),
            final(self).saved_messages_peer == old(self).saved_messages_peer,
            final(self).botfather_peer == old(self).botfather_peer,
            ({
                let begins = request is Start || request is Auto || request is Username;
                let before = old(self).phase@;
                let after = final(self).phase@;
                if begins && before !is Idle {
                    step_says(step, SetupText::AlreadyActive) && after == before
                } else if begins && has_created_bot {
                    step_says(step, SetupText::ExistingBot) && after == before
                } else {
                    match *request {
                        SetupRequest::Repair => step is Repair && after == before,
                        SetupRequest::Status => step is TellStatus && after == before,
                        SetupRequest::Cancel => after is Idle && step_says(
                            step,
                            if before is Idle {
                                SetupText::NoActiveSetup
                            } else {
                                SetupText::Cancelled
                            },
                        ),
                        SetupRequest::Start => step_says(step, SetupText::UsernamePrompt) && after
                            == (PhaseView::AwaitingUsername {
                            automatic: false,
                            deadline: stage_deadline(now),
                        }),
                        SetupRequest::Auto => match username {
                            Some(username) => step_plans(step, username@) && after == (
                            PhaseView::AwaitingConfirmation {
                                username: username@,
                                automatic: true,
                                attempts: 1,
                                deadline: stage_deadline(now),
                            }),
                            None => step_says(step, SetupText::UsernameGenerationFailed) && after
                                == before,
                        },
                        SetupRequest::Username(_) => match username {
                            Some(username) => step_plans(step, username@) && after == (
                            PhaseView::AwaitingConfirmation {
                                username: username@,
                                automatic: false,
                                attempts: 1,
                                deadline: stage_deadline(now),
                            }),
                            None => step_says(step, SetupText::UsernameInvalid) && after == before,
                        },
                        SetupRequest::Invalid => step_says(step, SetupText::Usage) && after
                            == before,
                    }
                }
            }),
    {
        let begins = match request {
            SetupRequest::Start | SetupRequest::Auto | SetupRequest::Username(_) => true,
            _ => false,
        };
        if begins {
            if self.is_active() {
                return SetupStep::Reply(SetupReply::Message(SetupText::AlreadyActive));
            }
            if has_created_bot {
                return SetupStep::Reply(SetupReply::Message(SetupText::ExistingBot));
            }
        }
        match request {
            SetupRequest::Repair => SetupStep::Repair,
            SetupRequest::Status => SetupStep::TellStatus,
            SetupRequest::Cancel => {
                if !self.is_active() {
                    return SetupStep::Reply(SetupReply::Message(SetupText::NoActiveSetup));
                }
                self.phase = SetupPhase::Idle;
                SetupStep::Reply(SetupReply::Message(SetupText::Cancelled))
            },
            SetupRequest::Start => {
                self.phase = SetupPhase::AwaitingUsername {
                    automatic: false,
                    deadline: now.saturating_add(SETUP_STAGE_TIMEOUT),
                };
                SetupStep::Reply(SetupReply::Message(SetupText::UsernamePrompt))
            },
            SetupRequest::Auto => match username {
                Some(username) => SetupStep::Reply(self.confirm_or_start(username, true, 1, now)),
                None => SetupStep::Reply(
                    SetupReply::Message(SetupText::UsernameGenerationFailed),
                ),
            },
            SetupRequest::Username(_) => match username {
                Some(username) => SetupStep::Reply(self.confirm_or_start(username, false, 1, now)),
                None => SetupStep::Reply(SetupReply::Message(SetupText::UsernameInvalid)),
            },
            SetupRequest::Invalid => SetupStep::Reply(SetupReply::Message(SetupText::Usage)),
        }
    }

    /// Takes what the owner wrote while a setup is under way. `confirmation` is the answer that the
    /// text stands for, `generated` tells whether it asks for a generated username, and `username` is
    /// the generated or given username, where it was generated or is acceptable.
    pub fn handle_input(
        &mut self,
        confirmation: Option<Confirmation>,
        generated: bool,
        username: Option<String>,
        now: u64,
    ) -> (step: InputStep)
        ensures
            (final(self).phase@, step@) == after_input(
                old(self).phase@,
                confirmation,
                generated,
                super::upstream::optional(username),
                now,
            ),
            final(self).saved_messages_peer == old(self).saved_messages_peer,
            final(self).botfather_peer == old(self).botfather_peer,
            ({
                let after = final(self).phase@;
                if confirmation == Some(Confirmation::Cancelled) {
                    after is Idle && step == InputStep::Reply(
                        SetupReply::Message(SetupText::Cancelled),
                    )
                } else {
                    match old(self).phase@ {
                        PhaseView::AwaitingUsername { automatic, .. } => match username {
                            Some(username) => {
                                &&& step matches InputStep::Reply(
                                    SetupReply::Plan { username: told },
                                ) && told@ == username@
                                &&& after == (PhaseView::AwaitingConfirmation {
                                    username: username@,
                                    automatic: automatic || generated,
                                    attempts: 1,
                                    deadline: stage_deadline(now),
                                })
                            },
                            None => after == old(self).phase@ && step == InputStep::Reply(
                                SetupReply::Message(SetupText::UsernameInvalid),
                            ),
                        },
                        PhaseView::AwaitingConfirmation { username, automatic, attempts, .. } => {
                            &&& after == old(self).phase@
                            &&& if confirmation == Some(Confirmation::Confirmed) {
                                step matches InputStep::StartFlow {
                                    username: begun,
                                    automatic: a,
                                    attempts: n,
                                } && begun@ == username && a == automatic && n == attempts
                            } else {
                                step == InputStep::Reply(
                                    SetupReply::Message(SetupText::ConfirmOrCancel),
                                )
                            }
                        },
                        _ => after == old(self).phase@ && step == InputStep::Reply(
                            SetupReply::Message(SetupText::WaitingBotFather),
                        ),
                    }
                }
            }),
    {
        if let Some(Confirmation::Cancelled) = confirmation {
            self.phase = SetupPhase::Idle;
            return InputStep::Reply(SetupReply::Message(SetupText::Cancelled));
        }
        if let SetupPhase::AwaitingUsername { automatic, .. } = self.phase {
            return InputStep::Reply(
                self.handle_username_input(automatic, generated, username, now),
            );
        }
        match &self.phase {
            SetupPhase::AwaitingConfirmation { username, automatic, attempts, .. } => {
                match confirmation {
                    Some(Confirmation::Confirmed) => InputStep::StartFlow {
                        username: username.clone(),
                        automatic: *automatic,
                        attempts: *attempts,
                    },
                    _ => InputStep::Reply(SetupReply::Message(SetupText::ConfirmOrCancel)),
                }
            },
            _ => InputStep::Reply(SetupReply::Message(SetupText::WaitingBotFather)),
        }
    }

    fn handle_username_input(
        &mut self,
        automatic: bool,
        generated: bool,
        username: Option<String>,
        now: u64,
    ) -> (reply: SetupReply)
        ensures
            final(self).saved_messages_peer == old(self).saved_messages_peer,
            final(self).botfather_peer == old(self).botfather_peer,
            match username {
                Some(username) => {
                    &&& reply matches SetupReply::Plan { username: told } && told@ == username@
                    &&& final(self).phase@ == (PhaseView::AwaitingConfirmation {
                        username: username@,
                        automatic: automatic || generated,
                        attempts: 1,
                        deadline: stage_deadline(now),
                    })
                },
                None => final(self).phase@ == old(self).phase@ && reply == SetupReply::Message(
                    SetupText::UsernameInvalid,
                ),
            },
    {
        match username {
            Some(username) => self.confirm_or_start(username, automatic || generated, 1, now),
            None => SetupReply::Message(SetupText::UsernameInvalid),
        }
    }

    /// Takes what came of beginning the conversation with BotFather.
    pub fn flow_started(
        &mut self,
        automatic: bool,
        attempts: u8,
        start: FlowStart,
        now: u64,
    ) -> (told: SetupText)
        ensures
            (final(self).phase@, told) == after_start(
                old(self).phase@,
                automatic,
                attempts,
                start,
                now,
            ),
            final(self).saved_messages_peer == old(self).saved_messages_peer,
            match start {
                FlowStart::Unavailable => told == SetupText::BotFatherUnavailable && final(self).phase@ == old(self).phase@ && final(self).botfather_peer == old(self).botfather_peer,
                FlowStart::Failed => told == SetupText::BotFatherStartFailed && final(self).phase@
                    == old(self).phase@ && final(self).botfather_peer == old(self).botfather_peer,
                FlowStart::Started(peer) => told == SetupText::Started && final(self).phase@ == (
                PhaseView::Running { automatic, attempts, deadline: stage_deadline(now) }) && final(self).botfather_peer == Some(peer),
            },
    {
        match start {
            FlowStart::Unavailable => SetupText::BotFatherUnavailable,
            FlowStart::Failed => SetupText::BotFatherStartFailed,
            FlowStart::Started(peer) => {
                self.botfather_peer = Some(peer);
                self.phase = SetupPhase::Running {
                    automatic,
                    attempts,
                    deadline: now.saturating_add(SETUP_STAGE_TIMEOUT),
                };
                SetupText::Started
            },
        }
    }

    /// Takes what came of a message of BotFather, as [`after_botfather`] says.
    pub fn handle_botfather_reply(&mut self, progress: BotFatherProgress, now: u64) -> (step:
        BotFatherStep)
        ensures
            (final(self).phase@, step) == after_botfather(old(self).phase@, progress, now),
            final(self).saved_messages_peer == old(self).saved_messages_peer,
            final(self).botfather_peer == old(self).botfather_peer,
    {
        let (automatic, attempts) = match self.phase {
            SetupPhase::Running { automatic, attempts, .. } => (automatic, attempts),
            _ => return BotFatherStep::Nothing,
        };
        let told = match progress {
            BotFatherProgress::Pending => {
                self.phase = SetupPhase::Running {
                    automatic,
                    attempts,
                    deadline: now.saturating_add(SETUP_STAGE_TIMEOUT),
                };
                return BotFatherStep::Nothing;
            },
            BotFatherProgress::ProvisionReady => {
                self.phase = SetupPhase::Idle;
                return BotFatherStep::Provision;
            },
            BotFatherProgress::UsernameOccupied | BotFatherProgress::UsernameInvalid => {
                if let BotFatherProgress::UsernameOccupied = progress {
                    if automatic && attempts < MAX_AUTOMATIC_ATTEMPTS {
                        self.phase = SetupPhase::Idle;
                        return BotFatherStep::Retry { attempts: attempts + 1 };
                    }
                }
                self.phase = SetupPhase::AwaitingUsername {
                    automatic: false,
                    deadline: now.saturating_add(SETUP_STAGE_TIMEOUT),
                };
                return BotFatherStep::Tell(SetupText::BotUsernameRejected);
            },
            BotFatherProgress::CheckUnavailable => SetupText::BotCheckUnavailable,
            BotFatherProgress::LimitReached => SetupText::BotLimitReached,
            BotFatherProgress::FloodWait => SetupText::BotRetryLater,
            BotFatherProgress::Unexpected => SetupText::BotUnexpected,
            BotFatherProgress::Storage => SetupText::BotStorageFailed,
            BotFatherProgress::Timeout => SetupText::BotTimedOut,
            BotFatherProgress::Failed => SetupText::BotVerificationFailed,
        };
        self.phase = SetupPhase::Idle;
        BotFatherStep::Tell(told)
    }
}

/// The step that follows a taken username.
pub open spec fn retried(username: Option<Seq<char>>, attempts: u8) -> StepView {
    match username {
        Some(username) => StepView::StartFlow { username, automatic: true, attempts },
        None => StepView::Say(SetupText::UsernameGenerationFailed),
    }
}

/// What follows a taken username: another start with the generated one, where one was generated.
pub fn retry_step(username: Option<String>, attempts: u8) -> (step: InputStep)
    ensures
        step@ == retried(super::upstream::optional(username), attempts),
        match username {
            Some(username) => step == (InputStep::StartFlow { username, automatic: true, attempts }),
            None => step == InputStep::Reply(
                SetupReply::Message(SetupText::UsernameGenerationFailed),
            ),
        },
{
    match username {
        Some(username) => InputStep::StartFlow { username, automatic: true, attempts },
        None => InputStep::Reply(SetupReply::Message(SetupText::UsernameGenerationFailed)),
    }
}

/// Whether a text asks for a generated username.
pub open spec fn wants_generated(input: Seq<char>) -> bool {
    let wish = text::lowered(text::trimmed(input));
    wish == "-"@ || wish == "auto"@
}

/// Decides [`wants_generated`].
pub fn asks_for_generated_username(input: &str) -> (yes: bool)
    ensures
        yes == wants_generated(input@),
        yes == (text::lowered(text::trimmed(input@)) == "-"@ || text::lowered(
            text::trimmed(input@),
        ) == "auto"@),
{
    let wish = text::to_ascii_lowercase(text::trim(input));
    text::same_text(wish.as_str(), "-") || text::same_text(wish.as_str(), "auto")
}

/// The phase after BotFather said `count` times that a generated username is taken, each time
/// followed by a new start that succeeds.
pub open spec fn after_occupied(phase: PhaseView, count: nat, now: u64) -> PhaseView
    decreases count,
{
    if count == 0 {
        phase
    } else {
        match after_botfather(phase, BotFatherProgress::UsernameOccupied, now) {
            (_, BotFatherStep::Retry { attempts }) => after_occupied(
                PhaseView::Running { automatic: true, attempts, deadline: stage_deadline(now) },
                (count - 1) as nat,
                now,
            ),
            (next, _) => after_occupied(next, (count - 1) as nat, now),
        }
    }
}

/// However often generated usernames are taken, the setup stops trying after
/// [`MAX_AUTOMATIC_ATTEMPTS`] and asks the owner for one.
pub proof fn automatic_attempts_are_bounded(attempts: u8, deadline: u64, count: nat, now: u64)
    requires
        1 <= attempts <= MAX_AUTOMATIC_ATTEMPTS,
    ensures
        ({
            let phase = PhaseView::Running { automatic: true, attempts, deadline };
            let next = after_occupied(phase, count, now);
            if count + attempts <= MAX_AUTOMATIC_ATTEMPTS {
                next matches PhaseView::Running { automatic: true, attempts: n, .. } && n == attempts
                    + count
            } else {
                next is AwaitingUsername
            }
        }),
    decreases count,
{
    if count > 0 {
        if attempts < MAX_AUTOMATIC_ATTEMPTS {
            automatic_attempts_are_bounded(
                (attempts + 1) as u8,
                stage_deadline(now),
                (count - 1) as nat,
                now,
            );
        } else {
            lemma_occupied_keeps_asking(
                PhaseView::AwaitingUsername { automatic: false, deadline: stage_deadline(now) },
                (count - 1) as nat,
                now,
            );
        }
    }
}

proof fn lemma_occupied_keeps_asking(phase: PhaseView, count: nat, now: u64)
    requires
        phase is AwaitingUsername,
    ensures
        after_occupied(phase, count, now) == phase,
    decreases count,
{
    if count > 0 {
        lemma_occupied_keeps_asking(phase, (count - 1) as nat, now);
    }
}

/// What BotFather says changes nothing unless a setup is running.
pub proof fn botfather_is_ignored_outside_a_setup(
    phase: PhaseView,
    progress: BotFatherProgress,
    now: u64,
)
    requires
        phase !is Running,
    ensures
        after_botfather(phase, progress, now) == (phase, BotFatherStep::Nothing),
{
}

/// The message key of a stored setup status; an unknown status is never shown as it is.
pub open spec fn status_key(status: Seq<char>) -> SetupText {
    if status == "idle"@ {
        SetupText::StatusIdleValue
    } else if status == "bot_validated"@ {
        SetupText::StatusBotValidated
    } else if status == "complete"@ {
        SetupText::StatusComplete
    } else if status == "completed_without_folder_capacity"@ {
        SetupText::StatusCompletedWithoutFolderCapacity
    } else if status == "completed_without_folder_name_conflict"@ {
        SetupText::StatusCompletedWithoutFolderNameConflict
    } else if status == "companion_and_community_configured"@ {
        SetupText::StatusCompanionAndCommunityConfigured
    } else if status == "companion_configured_community_pending"@ {
        SetupText::StatusCompanionConfiguredCommunityPending
    } else {
        SetupText::StatusUnknown
    }
}

/// The label of a stored setup status.
pub fn setup_status_label(locale: Locale, status: &str) -> (label: &'static str)
    ensures
        label == setup_text(locale, status_key(status@)),
{
    let key = if text::same_text(status, "idle") {
        SetupText::StatusIdleValue
    } else if text::same_text(status, "bot_validated") {
        SetupText::StatusBotValidated
    } else if text::same_text(status, "complete") {
        SetupText::StatusComplete
    } else if text::same_text(status, "completed_without_folder_capacity") {
        SetupText::StatusCompletedWithoutFolderCapacity
    } else if text::same_text(status, "completed_without_folder_name_conflict") {
        SetupText::StatusCompletedWithoutFolderNameConflict
    } else if text::same_text(status, "companion_and_community_configured") {
        SetupText::StatusCompanionAndCommunityConfigured
    } else if text::same_text(status, "companion_configured_community_pending") {
        SetupText::StatusCompanionConfiguredCommunityPending
    } else {
        SetupText::StatusUnknown
    };
    setup_text(locale, key)
}

/// What is told of a stored setup state.
pub open spec fn status_view(locale: Locale, status: Seq<char>, bot: Option<Seq<char>>) -> ResponseView {
    response::plain_view(
        locale,
        text::replaced(
            text::replaced(
                setup_text(locale, SetupText::Status)@,
                "{status}"@,
                setup_text(locale, status_key(status))@,
            ),
            "{bot}"@,
            match bot {
                Some(bot) => bot,
                None => setup_text(locale, SetupText::NotConfigured)@,
            },
        ),
    )
}

/// [`status_view`] as a response.
pub fn setup_status_response(locale: Locale, status: &str, bot: Option<&str>) -> (response: Response)
    ensures
        response@ == status_view(
            locale,
            status@,
            match bot {
                Some(bot) => Some(bot@),
                None => None,
            },
        ),
{
    let filled = text::replace(
        setup_text(locale, SetupText::Status),
        "{status}",
        setup_status_label(locale, status),
    );
    let bot = match bot {
        Some(bot) => bot,
        None => setup_text(locale, SetupText::NotConfigured),
    };
    Response::plain_with_locale(locale, text::replace(filled.as_str(), "{bot}", bot).as_str())
}

/// What is stored about the companion bot.
pub struct BotIdentities {
    pub bot_username: Option<String>,
    pub bot_user_id: Option<i64>,
}

/// The model of [`BotIdentities`].
pub struct IdentitiesView {
    pub bot_username: Option<Seq<char>>,
    pub bot_user_id: Option<i64>,
}

impl View for BotIdentities {
    type V = IdentitiesView;

    open spec fn view(&self) -> IdentitiesView {
        IdentitiesView {
            bot_username: super::upstream::optional(self.bot_username),
            bot_user_id: self.bot_user_id,
        }
    }
}

impl IdentitiesView {
    /// Whether the bot `username` is stored without a number.
    pub open spec fn awaits_number(self, username: Seq<char>) -> bool {
        self.bot_username == Some(username) && self.bot_user_id is None
    }
}

/// What reading the setup storage gave.
pub enum StoredSetup {
    Missing,
    Unreadable,
    Loaded { status: String, identities: BotIdentities },
}

/// What is told of what is stored.
pub open spec fn stored_view(locale: Locale, stored: StoredSetup) -> ResponseView {
    match stored {
        StoredSetup::Missing => response::plain_view(
            Locale::English,
            setup_text(locale, SetupText::StatusIdle)@,
        ),
        StoredSetup::Unreadable => response::plain_view(
            Locale::English,
            setup_text(locale, SetupText::StatusUnavailable)@,
        ),
        StoredSetup::Loaded { status, identities } => status_view(
            locale,
            status@,
            identities@.bot_username,
        ),
    }
}

/// What is told when the owner asks for the status.
pub fn status(locale: Locale, stored: &StoredSetup) -> (response: Response)
    ensures
        response@ == stored_view(locale, *stored),
        response@ == (match *stored {
            StoredSetup::Missing => response::plain_view(
                Locale::English,
                setup_text(locale, SetupText::StatusIdle)@,
            ),
            StoredSetup::Unreadable => response::plain_view(
                Locale::English,
                setup_text(locale, SetupText::StatusUnavailable)@,
            ),
            StoredSetup::Loaded { status, identities } => status_view(
                locale,
                status@,
                super::upstream::optional(identities.bot_username),
            ),
        }),
{
    match stored {
        StoredSetup::Missing => Response::plain(setup_text(locale, SetupText::StatusIdle)),
        StoredSetup::Unreadable => Response::plain(
            setup_text(locale, SetupText::StatusUnavailable),
        ),
        StoredSetup::Loaded { status, identities } => {
            let bot = match &identities.bot_username {
                Some(bot) => Some(bot.as_str()),
                None => None,
            };
            setup_status_response(locale, status.as_str(), bot)
        },
    }
}

/// Whether a bot was already created: its name and its number are both stored.
pub open spec fn bot_exists(stored: StoredSetup) -> bool {
    match stored {
        StoredSetup::Loaded { identities, .. } => identities.bot_username is Some
            && identities.bot_user_id is Some,
        _ => false,
    }
}

/// Decides [`bot_exists`].
pub fn has_created_bot(stored: &StoredSetup) -> (created: bool)
    ensures
        created == bot_exists(*stored),
        created == (*stored matches StoredSetup::Loaded { identities, .. }
            && identities.bot_username is Some && identities.bot_user_id is Some),
{
    match stored {
        StoredSetup::Loaded { identities, .. } => identities.bot_username.is_some()
            && identities.bot_user_id.is_some(),
        _ => false,
    }
}

/// What reading the stored state and token for a repair gave.
pub enum RepairData {
    /// The bot API cannot be asked, so nothing was read.
    CheckUnavailable,
    Missing,
    Unreadable,
    /// `username_valid` tells whether the stored username is an acceptable one.
    Loaded { identities: BotIdentities, username_valid: bool },
}

/// The bot that a repair is about, as it is stored.
pub struct RepairTarget {
    pub username: String,
    pub bot_user_id: Option<i64>,
}

/// The bot that the stored token belongs to, as the bot API tells.
pub struct BotIdentity {
    pub id: i64,
    pub username: String,
}

/// The bot that a repair is about, or why the repair cannot begin.
pub open spec fn targeted(data: RepairData) -> Result<RepairTarget, SetupText> {
    match data {
        RepairData::CheckUnavailable => Err(SetupText::RepairCheckUnavailable),
        RepairData::Missing => Err(SetupText::RepairNoData),
        RepairData::Unreadable => Err(SetupText::RepairDataUnsafe),
        RepairData::Loaded { identities, username_valid } => match identities.bot_username {
            Some(username) if username_valid => Ok(
                RepairTarget { username, bot_user_id: identities.bot_user_id },
            ),
            _ => Err(SetupText::RepairIdentityUnsafe),
        },
    }
}

/// How the check of a repair ends.
pub open spec fn concluded(target: RepairTarget, step: RepairStep, stored: bool) -> Result<
    String,
    SetupText,
> {
    match step {
        RepairStep::Refuse(reason) => Err(reason),
        RepairStep::Proceed => Ok(target.username),
        RepairStep::StoreIdentity => if stored {
            Ok(target.username)
        } else {
            Err(SetupText::RepairIdentitySaveFailed)
        },
    }
}

/// Begins a repair from what is stored, or tells why it cannot begin.
pub fn repair_target(data: RepairData) -> (result: Result<RepairTarget, SetupText>)
    ensures
        result == targeted(data),
        match data {
            RepairData::CheckUnavailable => result == Err::<RepairTarget, _>(
                SetupText::RepairCheckUnavailable,
            ),
            RepairData::Missing => result == Err::<RepairTarget, _>(SetupText::RepairNoData),
            RepairData::Unreadable => result == Err::<RepairTarget, _>(SetupText::RepairDataUnsafe),
            RepairData::Loaded { identities, username_valid } => match identities.bot_username {
                Some(username) if username_valid => result is Ok && result->Ok_0.username
                    == username && result->Ok_0.bot_user_id == identities.bot_user_id,
                _ => result == Err::<RepairTarget, _>(SetupText::RepairIdentityUnsafe),
            },
        },
{
    match data {
        RepairData::CheckUnavailable => Err(SetupText::RepairCheckUnavailable),
        RepairData::Missing => Err(SetupText::RepairNoData),
        RepairData::Unreadable => Err(SetupText::RepairDataUnsafe),
        RepairData::Loaded { identities, username_valid } => match identities.bot_username {
            Some(username) => if username_valid {
                Ok(RepairTarget { username, bot_user_id: identities.bot_user_id })
            } else {
                Err(SetupText::RepairIdentityUnsafe)
            },
            None => Err(SetupText::RepairIdentityUnsafe),
        },
    }
}

/// What the check of a repair's token leads to.
#[derive(Clone, Copy, Debug, PartialEq, Eq, Structural)]
pub enum RepairStep {
    Refuse(SetupText),
    /// Go on with the setup.
    Proceed,
    /// Store the verified name and number first, as [`identities_to_store`] says.
    StoreIdentity,
}

/// What the check of a token leads to: the token must belong to the stored bot, by name up to case
/// and, where it is stored, by number.
pub open spec fn checked_identity(target: RepairTarget, identity: Option<BotIdentity>) -> RepairStep {
    match identity {
        None => RepairStep::Refuse(SetupText::RepairTokenUnsafe),
        Some(identity) => if text::lowered(identity.username@) != text::lowered(target.username@) {
            RepairStep::Refuse(SetupText::RepairTokenMismatch)
        } else {
            match target.bot_user_id {
                Some(id) => if identity.id == id {
                    RepairStep::Proceed
                } else {
                    RepairStep::Refuse(SetupText::RepairTokenMismatch)
                },
                None => RepairStep::StoreIdentity,
            }
        },
    }
}

/// Decides [`checked_identity`].
pub fn check_identity(target: &RepairTarget, identity: &Option<BotIdentity>) -> (step: RepairStep)
    ensures
        step == checked_identity(*target, *identity),
{
    match identity {
        None => RepairStep::Refuse(SetupText::RepairTokenUnsafe),
        Some(identity) => {
            if !text::same_text_ignoring_ascii_case(
                identity.username.as_str(),
                target.username.as_str(),
            ) {
                return RepairStep::Refuse(SetupText::RepairTokenMismatch);
            }
            match target.bot_user_id {
                Some(id) => if identity.id == id {
                    RepairStep::Proceed
                } else {
                    RepairStep::Refuse(SetupText::RepairTokenMismatch)
                },
                None => RepairStep::StoreIdentity,
            }
        },
    }
}

/// Whether a verified identity may be stored: the stored name is still the one that was checked, and
/// no number was stored meanwhile.
pub fn may_store_identity(target: &RepairTarget, current: &BotIdentities) -> (may: bool)
    ensures
        may == current@.awaits_number(target.username@),
{
    match &current.bot_username {
        Some(username) => text::same_text(username.as_str(), target.username.as_str())
            && current.bot_user_id.is_none(),
        None => false,
    }
}

/// The identities to store for a verified bot: its name and its number, as the bot API tells them.
pub open spec fn verified(identity: BotIdentity) -> IdentitiesView {
    IdentitiesView { bot_username: Some(identity.username@), bot_user_id: Some(identity.id) }
}

/// The identities to store in place of the `current` ones once a token was verified; none where the
/// stored ones have changed meanwhile.
pub fn identities_to_store(
    target: &RepairTarget,
    identity: &BotIdentity,
    current: &BotIdentities,
) -> (identities: Option<BotIdentities>)
    ensures
        match identities {
            Some(identities) => current@.awaits_number(target.username@) && identities@
                == verified(*identity),
            None => !current@.awaits_number(target.username@),
        },
{
    if may_store_identity(target, current) {
        Some(
            BotIdentities {
                bot_username: Some(identity.username.clone()),
                bot_user_id: Some(identity.id),
            },
        )
    } else {
        None
    }
}

/// Ends the check of a repair: the username to go on with, or what the owner is told. `stored` tells
/// whether the identity was stored, where that was asked for.
pub fn repair_preflight(target: RepairTarget, step: RepairStep, stored: bool) -> (result: Result<
    String,
    SetupText,
>)
    ensures
        result == concluded(target, step, stored),
        result == (match step {
            RepairStep::Refuse(reason) => Err::<String, SetupText>(reason),
            RepairStep::Proceed => Ok(target.username),
            RepairStep::StoreIdentity => if stored {
                Ok(target.username)
            } else {
                Err(SetupText::RepairIdentitySaveFailed)
            },
        }),
{
    match step {
        RepairStep::Refuse(reason) => Err(reason),
        RepairStep::Proceed => Ok(target.username),
        RepairStep::StoreIdentity => if stored {
            Ok(target.username)
        } else {
            Err(SetupText::RepairIdentitySaveFailed)
        },
    }
}

/// The answer to a repair request: what is wrong, or that the repair has begun, with the bot to set up.
pub fn repair_execution(locale: Locale, result: Result<String, SetupText>) -> (execution:
    super::RuntimeExecution)
    ensures
        match result {
            Ok(username) => {
                &&& execution.response@ == response::plain_view(
                    Locale::English,
                    setup_text(locale, SetupText::RepairStarted)@,
                )
                &&& execution.provision matches Some(request) && request.username == username
                &&& execution.shutdown is None && execution.post_edit is None
                    && !execution.onboarding_page && execution.media is None
            },
            Err(reason) => execution.only(
                response::plain_view(Locale::English, setup_text(locale, reason)@),
            ),
        },
{
    match result {
        Ok(username) => {
            let mut execution = super::RuntimeExecution::from(
                Response::plain(setup_text(locale, SetupText::RepairStarted)),
            );
            execution.provision = Some(super::ProvisionRequest { username });
            execution
        },
        Err(reason) => super::RuntimeExecution::from(Response::plain(setup_text(locale, reason))),
    }
}

/// What a repair comes to, and what is stored afterwards: `current` is stored when the identity is to
/// be, and `saved` tells whether storing succeeds.
pub open spec fn repaired(
    target: RepairTarget,
    identity: Option<BotIdentity>,
    current: IdentitiesView,
    saved: bool,
) -> (Result<String, SetupText>, IdentitiesView) {
    match checked_identity(target, identity) {
        RepairStep::Refuse(reason) => (Err(reason), current),
        RepairStep::Proceed => (Ok(target.username), current),
        RepairStep::StoreIdentity => if current.awaits_number(target.username@) && saved {
            (Ok(target.username), verified(identity->0))
        } else {
            (Err(SetupText::RepairIdentitySaveFailed), current)
        },
    }
}

/// A repair of a bot that is stored without a number stores the number of the verified bot, and only
/// of one with the stored name up to case; a repair of any other bot stores nothing. It succeeds
/// exactly where the bot is the stored one and what had to be stored was.
pub proof fn repairs_store_the_verified_number(
    target: RepairTarget,
    bot: BotIdentity,
    current: IdentitiesView,
    saved: bool,
)
    requires
        current == (IdentitiesView {
            bot_username: Some(target.username@),
            bot_user_id: target.bot_user_id,
        }),
    ensures
        ({
            let (result, stored) = repaired(target, Some(bot), current, saved);
            let same_name = text::lowered(bot.username@) == text::lowered(target.username@);
            match target.bot_user_id {
                Some(id) => stored == current && (result is Ok <==> same_name && bot.id == id),
                None => (result is Ok <==> same_name && saved) && stored == (if result is Ok {
                    IdentitiesView { bot_username: Some(bot.username@), bot_user_id: Some(bot.id) }
                } else {
                    current
                }),
            }
        }),
        repaired(target, Some(bot), current, saved).0 matches Ok(username) ==> username
            == target.username,
{
}

/// A repair goes on only with a token of the very bot that is stored.
pub proof fn repairs_need_the_stored_bot(target: RepairTarget, identity: Option<BotIdentity>)
    ensures
        checked_identity(target, identity) !is Refuse ==> (identity matches Some(bot)
            && text::lowered(bot.username@) == text::lowered(target.username@) && (
        target.bot_user_id is None || target.bot_user_id == Some(bot.id))),
{
}

} // verus!
