//! The state of the running companion and its answers to commands.
//!
//! The state is plain data. What takes Telegram, files or processes is done by the caller, who hands
//! in what came of it; every answer and every change of the state is decided here.
use crate::i18n::{
    bilingual, fill_info_text, info_text, ping_template, ping_text, prefix_text, runtime_text,
    setup_text, stats_text, text, InfoCaptionData, InfoText, Locale, PingText, PrefixText,
    RuntimeText, SetupText, StatsText, Text,
};
use crate::info::{owner_label, short_commit, SelfIdentity};
use crate::message_provenance::{LedgerFull, SelfEditView, SharedBotFormLedger, SharedSelfEditLedger};
use crate::onboarding::OnboardingProgress;
use crate::peer::PeerId;
use crate::response;
use crate::response::{Response, ResponseView};
use crate::text as chars;
use vstd::prelude::*;
use vstd::string::*;

pub mod alias;
pub mod dispatch;
pub mod external;
pub mod info;
pub mod install;
pub mod lm;
pub mod policy;
pub mod setup;
pub mod upstream;

use alias::{execute_alias, AliasChange, AliasRequest, AliasTable, ResolvedAlias};
use dispatch::{prepare_events, CreatedEventDispatch, EventMessage, EventNames};
use external::{
    execute_external, ExternalCapability, ExternalInvocation, ExternalModuleDescriptor,
    ExternalOutcome, ExternalRuntimeSnapshot, InvocationView,
};
use info::{
    format_latency, format_stats, revision_status, version_status, versioned, ProcStats, SummaryWords,
};
use lm::{lm_request_mutates, LmRequest};
use policy::{authorize_sensitive_message, SensitiveCommandPolicy};
use setup::{SetupCoordinator, SetupPhase, SetupRequest};
use upstream::{UpstreamRevision, UpstreamSnapshot, VersionRelation};

verus! {

/// The command prefix of a new installation.
pub const DEFAULT_PREFIX: &'static str = ",";

/// The settings that are stored.
pub struct Settings {
    pub prefix: String,
    pub locale: Option<Locale>,
    pub onboarding: OnboardingProgress,
}

impl Settings {
    /// The language in use; Russian until one is chosen.
    pub open spec fn language(self) -> Locale {
        match self.locale {
            Some(locale) => locale,
            None => Locale::Russian,
        }
    }
}

/// The model of [`Settings`].
pub struct SettingsView {
    pub prefix: Seq<char>,
    pub locale: Option<Locale>,
    pub onboarding: OnboardingProgress,
}

impl View for Settings {
    type V = SettingsView;

    open spec fn view(&self) -> SettingsView {
        SettingsView {
            prefix: self.prefix@,
            locale: self.locale,
            onboarding: self.onboarding,
        }
    }
}

impl SettingsView {
    /// The language in use; Russian until one is chosen.
    pub open spec fn language(self) -> Locale {
        match self.locale {
            Some(locale) => locale,
            None => Locale::Russian,
        }
    }

    /// A message in both languages, for an owner who has not chosen one.
    pub open spec fn in_both_languages(self, key: Text) -> ResponseView {
        response::plain_view(
            self.language(),
            chars::replaced(text(Locale::English, key)@, "{prefix}"@, self.prefix) + "\n"@
                + chars::replaced(text(Locale::Russian, key)@, "{prefix}"@, self.prefix),
        )
    }

    /// A message about the command prefix `prefix`.
    pub open spec fn about_prefix(self, key: PrefixText, prefix: Seq<char>) -> ResponseView {
        response::plain_view(
            self.language(),
            chars::replaced(prefix_text(self.language(), key)@, "{prefix}"@, prefix),
        )
    }

    /// The settings after a request about the command prefix, and the answer to it.
    pub open spec fn after_prefix(self, request: PrefixRequest, saved: bool) -> (
        SettingsView,
        ResponseView,
    ) {
        let failed = |key: PrefixText|
            (self, response::plain_view(self.language(), prefix_text(self.language(), key)@));
        match request {
            PrefixRequest::Show => (self, self.about_prefix(PrefixText::Current, self.prefix)),
            PrefixRequest::Invalid => (self, self.about_prefix(PrefixText::Usage, self.prefix)),
            PrefixRequest::Change(prefix) => if saved {
                (
                    SettingsView { prefix: prefix@, ..self },
                    self.about_prefix(PrefixText::Changed, prefix@),
                )
            } else {
                failed(PrefixText::ChangeFailed)
            },
            PrefixRequest::Reset => if saved {
                (
                    SettingsView { prefix: DEFAULT_PREFIX@, ..self },
                    self.about_prefix(PrefixText::Reset, DEFAULT_PREFIX@),
                )
            } else {
                failed(PrefixText::ResetFailed)
            },
        }
    }

    /// The settings after a request about the language, and the answer to it.
    pub open spec fn after_language(self, request: LanguageRequest, saved: bool) -> (
        SettingsView,
        ResponseView,
    ) {
        match request {
            LanguageRequest::Show => (
                self,
                match self.locale {
                    Some(locale) => response::plain_view(
                        locale,
                        language_line(locale, Text::LanguageCurrent),
                    ),
                    None => self.in_both_languages(Text::LanguageChoose),
                },
            ),
            LanguageRequest::Change(locale) => if saved {
                (
                    SettingsView { locale: Some(locale), ..self },
                    response::plain_view(locale, language_line(locale, Text::LanguageChanged)),
                )
            } else {
                (
                    self,
                    response::plain_view(self.language(), text(locale, Text::LanguageSaveFailed)@),
                )
            },
            LanguageRequest::Invalid => (
                self,
                response::plain_view(
                    self.language(),
                    "⚠️ "@ + text(self.language(), Text::LanguageUsage)@,
                ),
            ),
        }
    }

    /// The settings once the pending page was delivered, and that was stored or not.
    pub open spec fn after_delivery(self, saved: bool) -> SettingsView {
        if saved {
            SettingsView { onboarding: self.onboarding.following(), ..self }
        } else {
            self
        }
    }

    /// The settings after a tutorial page was stored and shown in `locale`, or could not be stored.
    pub open spec fn after_page(
        self,
        locale: Locale,
        page: OnboardingProgress,
        saved: bool,
    ) -> (SettingsView, StartView) {
        let chosen = SettingsView { locale: Some(locale), ..self };
        if saved {
            (
                SettingsView { onboarding: page, ..chosen },
                StartView::Page(
                    response::plain_view(locale, page_text(locale, page, self.prefix)),
                ),
            )
        } else {
            (
                chosen,
                StartView::Answer(
                    response::plain_view(locale, text(locale, Text::OnboardingSaveFailed)@),
                ),
            )
        }
    }

    /// The settings after a request to the tutorial, and what it leads to.
    pub open spec fn after_start(
        self,
        request: StartRequest,
        locale_saved: bool,
        onboarding_saved: bool,
    ) -> (SettingsView, StartView) {
        match (request, self.locale) {
            (StartRequest::Invalid, _) => (
                self,
                StartView::Answer(
                    response::plain_view(
                        self.language(),
                        "⚠️ "@ + chars::replaced(
                            text(self.language(), Text::StartUsage)@,
                            "{prefix}"@,
                            self.prefix,
                        ),
                    ),
                ),
            ),
            (StartRequest::Locale(locale), _) => if locale_saved {
                self.after_page(locale, OnboardingProgress::Intro, onboarding_saved)
            } else {
                (
                    self,
                    StartView::Answer(
                        response::plain_view(
                            self.language(),
                            text(locale, Text::LanguageSaveFailed)@,
                        ),
                    ),
                )
            },
            (_, None) => (
                self,
                StartView::Answer(self.in_both_languages(Text::OnboardingSelect)),
            ),
            (StartRequest::Bot, Some(_)) => (self, StartView::Setup),
            (StartRequest::Begin, Some(locale)) => self.after_page(
                locale,
                self.onboarding.starting_page(),
                onboarding_saved,
            ),
            (StartRequest::Skip, Some(locale)) => if onboarding_saved {
                (
                    SettingsView { onboarding: OnboardingProgress::Skipped, ..self },
                    StartView::Answer(
                        response::plain_view(
                            locale,
                            chars::replaced(
                                text(locale, Text::OnboardingSkipped)@,
                                "{prefix}"@,
                                self.prefix,
                            ),
                        ),
                    ),
                )
            } else {
                (
                    self,
                    StartView::Answer(
                        response::plain_view(locale, text(locale, Text::OnboardingSaveFailed)@),
                    ),
                )
            },
        }
    }
}

/// Why the process stops.
#[derive(Clone, Copy, Debug, PartialEq, Eq, Structural)]
pub enum ShutdownReason {
    Exit,
    Restart,
}

/// What is to be done once an answer was delivered.
#[derive(Clone, Copy, Debug, PartialEq, Eq, Structural)]
pub enum PostEditAction {
    ArmRebootReceipt,
}

/// A request to set up the companion bot of this name.
pub struct ProvisionRequest {
    pub username: String,
}

/// The answer to a command, and what goes with it.
pub struct RuntimeExecution {
    pub response: Response,
    pub provision: Option<ProvisionRequest>,
    pub shutdown: Option<ShutdownReason>,
    pub post_edit: Option<PostEditAction>,
    pub onboarding_page: bool,
    /// Media to deliver with the answer.
    pub media: Option<String>,
}

impl RuntimeExecution {
    /// Whether it is an answer with nothing besides.
    pub open spec fn only(self, answer: ResponseView) -> bool {
        &&& self.response@ == answer
        &&& self.provision is None
        &&& self.shutdown is None
        &&& self.post_edit is None
        &&& !self.onboarding_page
        &&& self.media is None
    }
}

impl From<Response> for RuntimeExecution {
    fn from(response: Response) -> (execution: Self) {
        RuntimeExecution {
            response,
            provision: None,
            shutdown: None,
            post_edit: None,
            onboarding_page: false,
            media: None,
        }
    }
}

impl vstd::std_specs::convert::FromSpecImpl<Response> for RuntimeExecution {
    open spec fn obeys_from_spec() -> bool {
        true
    }

    open spec fn from_spec(response: Response) -> RuntimeExecution {
        RuntimeExecution {
            response,
            provision: None,
            shutdown: None,
            post_edit: None,
            onboarding_page: false,
            media: None,
        }
    }
}

/// What the owner asked about the language.
#[derive(Clone, Copy, Debug, PartialEq, Eq, Structural)]
pub enum LanguageRequest {
    Show,
    Change(Locale),
    Invalid,
}

/// What the owner asked of the tutorial.
#[derive(Clone, Copy, Debug, PartialEq, Eq, Structural)]
pub enum StartRequest {
    Begin,
    Locale(Locale),
    Skip,
    Bot,
    Invalid,
}

/// What the owner asked about the command prefix.
pub enum PrefixRequest {
    Show,
    Change(String),
    Reset,
    Invalid,
}

/// A command.
pub enum Action {
    Language(LanguageRequest),
    Ping,
    Stats,
    Info,
    Help(String),
    Fastfetch(String),
    Alias(AliasRequest),
    Prefix(PrefixRequest),
    /// The modules are to be listed, or the request is not understood.
    Modules { understood: bool },
    Lm(LmRequest),
    Reboot,
    Setup(SetupRequest),
    Start(StartRequest),
    External(ExternalInvocation),
}

/// What a command leads to: an answer, or outside work whose result goes to the function that gives
/// the answer.
pub enum Task {
    Answered(RuntimeExecution),
    /// Store the language, then [`RuntimeState::execute_language`].
    StoreLocale(Locale),
    /// Store the changes, then [`RuntimeState::execute_start`].
    StoreStart(StartChanges),
    /// Hand the command to the coordinator.
    Setup,
    /// Gather the facts, then [`RuntimeState::execute_info`].
    GatherFacts,
    /// Measure the latency, then [`RuntimeState::execute_ping`].
    MeasureLatency,
    /// Measure latency, uptime and memory, then [`RuntimeState::execute_stats`].
    MeasureStats,
    /// Render the help.
    RenderHelp,
    /// Run the system summary, then [`info::fastfetch_response`].
    RunFastfetch,
    /// Store the change, then [`RuntimeState::execute_alias`].
    StoreAlias,
    /// Store the prefix, then [`RuntimeState::execute_prefix`].
    StorePrefix(String),
    /// Render the list of modules, or how it is asked for.
    RenderModules,
    /// Carry out the request, then answer it with the methods that [`lm`] and [`install`] give the
    /// state.
    ManageModules,
    /// Run the command, then [`RuntimeState::execute_external`].
    RunExternal,
}

/// The model of a [`Task`].
pub enum TaskView {
    Answered(ResponseView),
    /// An answer after which the process restarts.
    Restart(ResponseView),
    StoreLocale,
    StoreStart,
    Setup,
    GatherFacts,
    MeasureLatency,
    MeasureStats,
    RenderHelp,
    RunFastfetch,
    StoreAlias,
    StorePrefix,
    RenderModules,
    ManageModules,
    RunExternal,
}

impl View for Task {
    type V = TaskView;

    open spec fn view(&self) -> TaskView {
        match *self {
            Task::Answered(execution) => if execution.post_edit is Some {
                TaskView::Restart(execution.response@)
            } else {
                TaskView::Answered(execution.response@)
            },
            Task::StoreLocale(_) => TaskView::StoreLocale,
            Task::StoreStart(_) => TaskView::StoreStart,
            Task::Setup => TaskView::Setup,
            Task::GatherFacts => TaskView::GatherFacts,
            Task::MeasureLatency => TaskView::MeasureLatency,
            Task::MeasureStats => TaskView::MeasureStats,
            Task::RenderHelp => TaskView::RenderHelp,
            Task::RunFastfetch => TaskView::RunFastfetch,
            Task::StoreAlias => TaskView::StoreAlias,
            Task::StorePrefix(_) => TaskView::StorePrefix,
            Task::RenderModules => TaskView::RenderModules,
            Task::ManageModules => TaskView::ManageModules,
            Task::RunExternal => TaskView::RunExternal,
        }
    }
}

/// What is known of the message that holds a command.
#[derive(Clone, Copy, Debug, PartialEq, Eq, Structural)]
pub struct MessageContext {
    pub peer_id: PeerId,
    pub message_id: i32,
    pub edited: bool,
    pub authored_by_self: bool,
}

/// Where a message goes while the companion is being set up.
#[derive(Clone, Copy, Debug, PartialEq, Eq, Structural)]
pub enum SetupRoute {
    /// The setup has nothing to do with it.
    Ignored,
    /// The setup keeps it, and nothing is done about it.
    Swallowed,
    /// It is what BotFather says.
    BotFatherReply,
    /// It is what the owner answers.
    OwnerInput,
}

/// Where a setup command goes.
pub enum SetupEntry {
    Reply(RuntimeExecution),
    /// The coordinator takes it.
    Coordinator,
}

/// What is to be stored for a request to the tutorial.
pub struct StartChanges {
    pub locale: Option<Locale>,
    pub onboarding: Option<OnboardingProgress>,
}

/// Where a request to the tutorial leads.
pub enum StartStep {
    Reply(RuntimeExecution),
    /// The setup of the companion bot begins.
    Setup,
}

/// The model of a [`StartStep`].
pub enum StartView {
    /// The setup of the companion bot begins.
    Setup,
    /// An answer with nothing besides.
    Answer(ResponseView),
    /// A page of the tutorial.
    Page(ResponseView),
}

impl View for StartStep {
    type V = StartView;

    open spec fn view(&self) -> StartView {
        match *self {
            StartStep::Setup => StartView::Setup,
            StartStep::Reply(execution) => if execution.onboarding_page {
                StartView::Page(execution.response@)
            } else {
                StartView::Answer(execution.response@)
            },
        }
    }
}

/// What the instance summary tells besides the state.
pub struct InfoFacts<'a> {
    pub version: &'a str,
    /// How the version relates to the upstream version.
    pub version_relation: VersionRelation,
    pub build_rev: &'a str,
    pub host: &'a str,
    pub os: &'a str,
    /// The words of the summary, where they are not the catalog's, which leave out how the build relates
    /// to upstream.
    pub words: Option<SummaryWords<'a>>,
}

/// The state of the running companion.
pub struct RuntimeState {
    pub recognized_commands: u64,
    pub aliases: AliasTable,
    pub settings: Settings,
    pub self_identity: Option<SelfIdentity>,
    pub upstream_revision_cache: UpstreamSnapshot,
    pub upstream_version_known: bool,
    /// Whether there is a module runtime.
    pub external_manager: bool,
    pub external_snapshot: ExternalRuntimeSnapshot,
    pub expected_self_edits: SharedSelfEditLedger,
    pub setup_notification_ids: SharedBotFormLedger,
    pub setup_edit_fallback_sources: SharedBotFormLedger,
    pub setup: Option<SetupCoordinator>,
    /// Whether modules may be told of messages. Once the setup is configured they may not, until
    /// BotFather is known: what is said with BotFather holds the bot's token.
    pub external_projection_permitted: bool,
    /// Saved Messages, where modules may be installed.
    pub module_installation: Option<PeerId>,
    /// Saved Messages, where modules may be managed.
    pub module_control: Option<PeerId>,
}

/// What the owner is told where no language is chosen yet.
pub open spec fn choice_view(settings: Settings, key: Text) -> ResponseView {
    response::plain_view(
        settings.language(),
        chars::replaced(text(Locale::English, key)@, "{prefix}"@, settings.prefix@) + "\n"@
            + chars::replaced(text(Locale::Russian, key)@, "{prefix}"@, settings.prefix@),
    )
}

/// A tutorial page and how the tutorial is used.
pub open spec fn page_text(
    locale: Locale,
    progress: OnboardingProgress,
    prefix: Seq<char>,
) -> Seq<char> {
    chars::replaced(text(locale, progress.message_key())@, "{prefix}"@, prefix) + "\n\n"@
        + chars::replaced(text(locale, Text::StartUsage)@, "{prefix}"@, prefix)
}

/// The answer to a latency request; `latency` is in milliseconds, where Telegram answered.
pub open spec fn ping_view(locale: Locale, latency: Option<u128>) -> ResponseView {
    response::plain_view(
        locale,
        match latency {
            Some(millis) => chars::replaced(
                ping_template(locale, PingText::Success)@,
                "{latency}"@,
                info::latency_label(millis as nat),
            ),
            None => runtime_text(locale, RuntimeText::PingFailed)@,
        },
    )
}

/// What is told of a language.
pub open spec fn language_line(locale: Locale, key: Text) -> Seq<char> {
    "🌐 "@ + text(locale, key)@ + ": "@ + locale.code()@
}

/// What is told of the language where nothing is stored.
pub open spec fn language_view(settings: Settings, request: LanguageRequest) -> ResponseView {
    match request {
        LanguageRequest::Show => match settings.locale {
            Some(locale) => response::plain_view(
                locale,
                language_line(locale, Text::LanguageCurrent),
            ),
            None => choice_view(settings, Text::LanguageChoose),
        },
        LanguageRequest::Change(locale) => response::plain_view(
            settings.language(),
            text(locale, Text::LanguageSaveFailed)@,
        ),
        LanguageRequest::Invalid => response::plain_view(
            settings.language(),
            "⚠️ "@ + text(settings.language(), Text::LanguageUsage)@,
        ),
    }
}

/// Whether a restart request is answered as it should: a granted one tells of the restart and arms the
/// receipt, any other tells why not and does nothing besides.
pub open spec fn reboot_answered(
    execution: RuntimeExecution,
    locale: Locale,
    context: MessageContext,
) -> bool {
    match policy::authorization(
        SensitiveCommandPolicy::Reboot,
        context.edited,
        context.authored_by_self,
        context.peer_id,
        context.message_id,
        None,
    ) {
        Ok(()) => {
            &&& execution.response@ == response::plain_view(
                locale,
                runtime_text(locale, RuntimeText::Rebooting)@,
            )
            &&& execution.post_edit == Some(PostEditAction::ArmRebootReceipt)
            &&& execution.provision is None && execution.shutdown is None
                && !execution.onboarding_page && execution.media is None
        },
        Err(denial) => execution.only(
            response::plain_view(locale, denial.response(locale, SensitiveCommandPolicy::Reboot)@),
        ),
    }
}

/// The external command that an action stands for.
pub open spec fn external_action_view(action: Option<Action>) -> Option<InvocationView> {
    match action {
        Some(Action::External(invocation)) => Some(invocation@),
        _ => None,
    }
}

impl RuntimeState {
    /// A state with nothing attached and nothing configured.
    pub fn new(aliases: AliasTable, settings: Settings) -> (state: Self)
        ensures
            state.recognized_commands == 0,
            state.aliases == aliases,
            state.settings == settings,
            state.self_identity is None,
            state.upstream_revision_cache is Never,
            !state.upstream_version_known,
            !state.external_manager,
            state.external_snapshot.descriptors@.len() == 0,
            state.external_snapshot.active_commands@.len() == 0,
            state.external_snapshot.active_defaults@.len() == 0,
            state.external_snapshot.module_statuses@.len() == 0,
            state.expected_self_edits@.len() == 0,
            state.setup_notification_ids@.len() == 0,
            state.setup_edit_fallback_sources@.len() == 0,
            state.setup is None,
            state.external_projection_permitted,
            state.module_installation is None,
            state.module_control is None,
            aliases.wf() ==> state.wf(),
    {
        RuntimeState {
            recognized_commands: 0,
            aliases,
            settings,
            self_identity: None,
            upstream_revision_cache: UpstreamSnapshot::Never,
            upstream_version_known: false,
            external_manager: false,
            external_snapshot: ExternalRuntimeSnapshot::new(),
            expected_self_edits: SharedSelfEditLedger::default(),
            setup_notification_ids: SharedBotFormLedger::default(),
            setup_edit_fallback_sources: SharedBotFormLedger::default(),
            setup: None,
            external_projection_permitted: true,
            module_installation: None,
            module_control: None,
        }
    }

    /// The ledgers are bounded, names are unique in the aliases and in the snapshot of the modules, and
    /// modules are told of messages only where a configured setup knows BotFather.
    pub open spec fn wf(self) -> bool {
        &&& self.aliases.wf()
        &&& self.external_snapshot.wf()
        &&& self.expected_self_edits.wf()
        &&& self.setup_notification_ids.wf()
        &&& self.setup_edit_fallback_sources.wf()
        &&& self.setup matches Some(setup) ==> (self.external_projection_permitted
            ==> setup.botfather_peer is Some)
    }

    /// The command prefix.
    pub fn prefix(&self) -> (prefix: &str)
        ensures
            prefix@ == self.settings.prefix@,
    {
        self.settings.prefix.as_str()
    }

    /// The language in use.
    pub fn locale(&self) -> (locale: Locale)
        ensures
            locale == self.settings.language(),
    {
        match self.settings.locale {
            Some(locale) => locale,
            None => Locale::Russian,
        }
    }

    /// Counts a command, up to what the counter holds.
    pub fn count_command(&mut self)
        ensures
            final(self).recognized_commands == (if old(self).recognized_commands < u64::MAX {
                (old(self).recognized_commands + 1) as u64
            } else {
                u64::MAX
            }),
            *final(self) == (RuntimeState {
                recognized_commands: final(self).recognized_commands,
                ..*old(self)
            }),
    {
        self.recognized_commands = self.recognized_commands.saturating_add(1);
    }

    /// Configures the setup of the companion bot; modules are no longer told of messages.
    pub fn configure_setup(&mut self, saved_messages_peer: PeerId)
        ensures
            final(self).setup matches Some(setup) && setup.saved_messages_peer
                == saved_messages_peer && setup.botfather_peer is None && setup.phase@ is Idle,
            !final(self).external_projection_permitted,
            *final(self) == (RuntimeState {
                setup: final(self).setup,
                external_projection_permitted: false,
                ..*old(self)
            }),
            old(self).wf() ==> final(self).wf(),
    {
        self.setup = Some(
            SetupCoordinator {
                saved_messages_peer,
                botfather_peer: None,
                phase: SetupPhase::Idle,
            },
        );
        self.external_projection_permitted = false;
    }

    /// Takes who BotFather is: what is said there is private to the setup, and modules may be told of
    /// everything else.
    pub fn set_setup_botfather_peer(&mut self, peer: PeerId)
        ensures
            match old(self).setup {
                Some(before) => {
                    &&& final(self).setup matches Some(after) && after.botfather_peer == Some(peer)
                        && after.saved_messages_peer == before.saved_messages_peer && after.phase
                        == before.phase
                    &&& final(self).external_projection_permitted
                },
                None => final(self).setup is None && final(self).external_projection_permitted
                    == old(self).external_projection_permitted,
            },
            *final(self) == (RuntimeState {
                setup: final(self).setup,
                external_projection_permitted: final(self).external_projection_permitted,
                ..*old(self)
            }),
            old(self).wf() ==> final(self).wf(),
    {
        if let Some(setup) = &mut self.setup {
            setup.botfather_peer = Some(peer);
            self.external_projection_permitted = true;
        }
    }

    /// Whether the setup keeps a message from everyone else.
    pub fn setup_protects_message(&self, peer: PeerId, authored_by_self: bool) -> (protected: bool)
        ensures
            protected == (self.setup matches Some(setup) && setup.protects(peer, authored_by_self)),
    {
        match &self.setup {
            Some(setup) => setup.protects_message(peer, authored_by_self),
            None => false,
        }
    }

    /// When the setup times out, where one is under way.
    pub fn setup_timeout_deadline(&self) -> (deadline: Option<u64>)
        ensures
            deadline == (match self.setup {
                Some(setup) => setup.phase@.deadline(),
                None => None,
            }),
    {
        match &self.setup {
            Some(setup) => setup.deadline(),
            None => None,
        }
    }

    /// Ends a setup whose deadline has come by `now`, and tells the owner.
    pub fn handle_setup_timeout(&mut self, now: u64) -> (told: Option<Response>)
        ensures
            told is Some <==> (old(self).setup matches Some(setup) && setup::is_over(
                setup.phase@,
                now,
            )),
            ({
                let expired = old(self).setup matches Some(setup) && (
                setup.phase@.deadline() matches Some(deadline) && deadline <= now);
                if expired {
                    &&& told is Some
                    &&& told->0@ == response::plain_view(
                        Locale::English,
                        setup_text(old(self).settings.language(), SetupText::TimedOut)@,
                    )
                    &&& final(self).setup is Some
                    &&& final(self).setup->0.phase@ is Idle
                    &&& final(self).setup->0.saved_messages_peer
                        == old(self).setup->0.saved_messages_peer
                    &&& final(self).setup->0.botfather_peer == old(self).setup->0.botfather_peer
                } else {
                    told is None && (final(self).setup is Some <==> old(self).setup is Some) && (
                    old(self).setup is Some ==> final(self).setup->0.phase@
                        == old(self).setup->0.phase@ && final(self).setup->0.saved_messages_peer
                        == old(self).setup->0.saved_messages_peer && final(self).setup->0.botfather_peer == old(self).setup->0.botfather_peer)
                }
            }),
            *final(self) == (RuntimeState { setup: final(self).setup, ..*old(self) }),
            old(self).wf() ==> final(self).wf(),
    {
        let locale = self.locale();
        let expired = match &mut self.setup {
            Some(setup) => setup.expire(now),
            None => false,
        };
        if expired {
            Some(Response::plain(setup_text(locale, SetupText::TimedOut)))
        } else {
            None
        }
    }

    /// Decides where a message goes with regard to the setup. What is said with BotFather never leaves
    /// the setup; only what BotFather newly says there is looked at.
    pub open spec fn route(
        self,
        peer: PeerId,
        authored_by_self: bool,
        outgoing: bool,
        edited: bool,
    ) -> SetupRoute {
        match self.setup {
            None => SetupRoute::Ignored,
            Some(setup) => if setup.botfather_peer == Some(peer) {
                if authored_by_self || outgoing || edited {
                    SetupRoute::Swallowed
                } else {
                    SetupRoute::BotFatherReply
                }
            } else if authored_by_self && peer == setup.saved_messages_peer && setup.phase@
                !is Idle {
                SetupRoute::OwnerInput
            } else {
                SetupRoute::Ignored
            },
        }
    }

    /// [`RuntimeState::route`], decided.
    pub fn handle_setup_input(
        &self,
        peer: PeerId,
        authored_by_self: bool,
        outgoing: bool,
        edited: bool,
    ) -> (route: SetupRoute)
        ensures
            route == self.route(peer, authored_by_self, outgoing, edited),
    {
        let setup = match &self.setup {
            Some(setup) => setup,
            None => return SetupRoute::Ignored,
        };
        let with_botfather = match setup.botfather_peer {
            Some(botfather) => botfather == peer,
            None => false,
        };
        if with_botfather {
            if authored_by_self || outgoing || edited {
                return SetupRoute::Swallowed;
            }
            return SetupRoute::BotFatherReply;
        }
        if authored_by_self && peer == setup.saved_messages_peer && setup.is_active() {
            SetupRoute::OwnerInput
        } else {
            SetupRoute::Ignored
        }
    }

    /// Why a setup command is refused, where it is.
    pub open spec fn setup_refusal(self, peer: PeerId) -> Option<SetupText> {
        match self.setup {
            None => Some(SetupText::Unavailable),
            Some(setup) => if peer == setup.saved_messages_peer {
                None
            } else {
                Some(SetupText::SavedMessagesOnly)
            },
        }
    }

    /// Takes a setup command: it is refused where the setup is not configured or where it does not
    /// come from Saved Messages.
    pub fn execute_setup(&self, peer: PeerId) -> (entry: SetupEntry)
        ensures
            match self.setup_refusal(peer) {
                Some(reason) => entry matches SetupEntry::Reply(reply) && reply.only(
                    response::plain_view(
                        self.settings.language(),
                        setup_text(self.settings.language(), reason)@,
                    ),
                ),
                None => entry is Coordinator,
            },
            match self.setup {
                None => entry matches SetupEntry::Reply(reply) && reply.only(
                    response::plain_view(
                        self.settings.language(),
                        setup_text(self.settings.language(), SetupText::Unavailable)@,
                    ),
                ),
                Some(setup) => if peer != setup.saved_messages_peer {
                    entry matches SetupEntry::Reply(reply) && reply.only(
                        response::plain_view(
                            self.settings.language(),
                            setup_text(self.settings.language(), SetupText::SavedMessagesOnly)@,
                        ),
                    )
                } else {
                    entry is Coordinator
                },
            },
    {
        let locale = self.locale();
        match &self.setup {
            None => SetupEntry::Reply(
                RuntimeExecution::from(
                    Response::plain_with_locale(locale, setup_text(locale, SetupText::Unavailable)),
                ),
            ),
            Some(setup) => {
                if peer != setup.saved_messages_peer {
                    SetupEntry::Reply(
                        RuntimeExecution::from(
                            Response::plain_with_locale(
                                locale,
                                setup_text(locale, SetupText::SavedMessagesOnly),
                            ),
                        ),
                    )
                } else {
                    SetupEntry::Coordinator
                }
            },
        }
    }

    /// Permits modules to be told of messages once the setup knows BotFather.
    pub fn after_setup_step(&mut self)
        ensures
            final(self).external_projection_permitted == (old(self).external_projection_permitted || (old(self).setup matches Some(setup)
                && setup.botfather_peer is Some)),
            *final(self) == (RuntimeState {
                external_projection_permitted: final(self).external_projection_permitted,
                ..*old(self)
            }),
            old(self).wf() ==> final(self).wf(),
    {
        if let Some(setup) = &self.setup {
            if setup.botfather_peer.is_some() {
                self.external_projection_permitted = true;
            }
        }
    }

    /// Attaches the module runtime with the modules as it sees them.
    pub fn set_external_manager(&mut self, snapshot: ExternalRuntimeSnapshot)
        ensures
            *final(self) == (RuntimeState {
                external_manager: true,
                external_snapshot: snapshot,
                ..*old(self)
            }),
            old(self).wf() && snapshot.wf() ==> final(self).wf(),
    {
        self.external_snapshot = snapshot;
        self.external_manager = true;
    }

    /// Takes a fresh look at the modules, where there is a module runtime.
    pub fn refresh_snapshot(&mut self, snapshot: ExternalRuntimeSnapshot)
        ensures
            *final(self) == (RuntimeState {
                external_snapshot: if old(self).external_manager {
                    snapshot
                } else {
                    old(self).external_snapshot
                },
                ..*old(self)
            }),
            old(self).wf() && snapshot.wf() ==> final(self).wf(),
    {
        if self.external_manager {
            self.external_snapshot = snapshot;
        }
    }

    /// Permits modules to be installed from Saved Messages.
    pub fn configure_module_installation(&mut self, self_user_id: PeerId)
        ensures
            *final(self) == (RuntimeState {
                module_installation: Some(self_user_id),
                ..*old(self)
            }),
            old(self).wf() ==> final(self).wf(),
    {
        self.module_installation = Some(self_user_id);
    }

    /// Permits modules to be managed from Saved Messages.
    pub fn configure_module_control(&mut self, saved_messages_peer: PeerId)
        ensures
            *final(self) == (RuntimeState {
                module_control: Some(saved_messages_peer),
                ..*old(self)
            }),
            old(self).wf() ==> final(self).wf(),
    {
        self.module_control = Some(saved_messages_peer);
    }

    /// Takes who owns the account.
    pub fn set_self_identity(&mut self, identity: SelfIdentity)
        ensures
            *final(self) == (RuntimeState { self_identity: Some(identity), ..*old(self) }),
            old(self).wf() ==> final(self).wf(),
    {
        self.self_identity = Some(identity);
    }

    /// Who owns the account, where that is known.
    pub fn self_identity(&self) -> (identity: Option<&SelfIdentity>)
        ensures
            match identity {
                Some(identity) => self.self_identity == Some(*identity),
                None => self.self_identity is None,
            },
    {
        self.self_identity.as_ref()
    }

    /// Shares the ledger of expected edits.
    pub fn set_self_edit_ledger(&mut self, ledger: SharedSelfEditLedger)
        ensures
            *final(self) == (RuntimeState { expected_self_edits: ledger, ..*old(self) }),
            old(self).wf() && ledger.wf() ==> final(self).wf(),
    {
        self.expected_self_edits = ledger;
    }

    /// The installed external modules.
    pub fn external_descriptors(&self) -> (descriptors: &Vec<ExternalModuleDescriptor>)
        ensures
            *descriptors == self.external_snapshot.descriptors,
    {
        &self.external_snapshot.descriptors
    }

    /// Whether an external command can be run under this full name.
    pub fn has_active_external_command(&self, name: &str) -> (active: bool)
        ensures
            active == chars::views(self.external_snapshot.active_commands@).contains(name@),
    {
        self.external_snapshot.has_active_external_command(name)
    }

    /// Whether an external module with this id is installed.
    pub fn has_external_module(&self, module_id: &str) -> (installed: bool)
        ensures
            installed == (external::descriptor_index(
                self.external_snapshot.descriptors@,
                module_id@,
            ) < self.external_snapshot.descriptors@.len()),
    {
        self.external_snapshot.has_external_module(module_id)
    }

    /// Whether the external module with this id may use a capability.
    pub fn external_has_capability(&self, module_id: &str, capability: ExternalCapability) -> (has:
        bool)
        ensures
            has == ({
                let descriptors = self.external_snapshot.descriptors@;
                let at = external::descriptor_index(descriptors, module_id@) as int;
                at < descriptors.len() && descriptors[at].capabilities@.contains(capability)
            }),
    {
        self.external_snapshot.external_has_capability(module_id, capability)
    }

    /// The command that the full name of an active external command stands for.
    pub fn resolve_external(&self, name: &str, args: &str) -> (action: Option<Action>)
        ensures
            external_action_view(action) == (if chars::views(
                self.external_snapshot.active_commands@,
            ).contains(name@) {
                external::named_invocation(name@, args@)
            } else {
                None
            }),
            action is Some ==> action->0 is External,
    {
        match self.external_snapshot.resolve_external(name, args) {
            Some(invocation) => Some(Action::External(invocation)),
            None => None,
        }
    }

    /// The command that the name of an external module with a default command stands for.
    pub fn resolve_external_default(&self, name: &str, args: &str) -> (action: Option<Action>)
        ensures
            external_action_view(action) == (match external::default_of(
                self.external_snapshot.active_defaults@,
                name@,
            ) {
                Some(command_name) => Some(
                    InvocationView {
                        module_id: name@,
                        command_name,
                        arguments: args@,
                        argument_entities: Seq::empty(),
                    },
                ),
                None => None,
            }),
            action is Some ==> action->0 is External,
    {
        match self.external_snapshot.resolve_external_default(name, args) {
            Some(invocation) => Some(Action::External(invocation)),
            None => None,
        }
    }

    /// The command that a use of an alias stands for: its target, with the alias's own arguments
    /// before those given.
    pub fn resolve_alias(&self, name: &str, args: &str) -> (resolved: Option<ResolvedAlias>)
        ensures
            alias::resolution(self.aliases.found(name@), args@, resolved),
    {
        self.aliases.resolve_alias(name, args)
    }

    /// The answer to a request about aliases; `change` is what came of storing the change that it asks
    /// for. One that was stored takes effect, any other changes nothing.
    pub fn execute_alias(&mut self, request: &AliasRequest, change: AliasChange) -> (answer: Response)
        ensures
            answer@ == alias::alias_view(
                old(self).settings.language(),
                old(self).settings.prefix@,
                old(self).aliases,
                *request,
                change,
            ),
            *final(self) == (RuntimeState { aliases: final(self).aliases, ..*old(self) }),
            alias::changed(old(self).aliases, *request, change, final(self).aliases),
            match (*request, change) {
                (AliasRequest::Add { name, target, args }, AliasChange::Made) => {
                    &&& final(self).aliases.found(name@) is Some
                    &&& final(self).aliases.found(name@)->0.target@ == target@
                    &&& chars::views(final(self).aliases.found(name@)->0.args@) == chars::views(args@)
                    &&& forall|other: Seq<char>|
                        chars::lowered(other) != chars::lowered(name@)
                            ==> #[trigger] final(self).aliases.found(other)
                            == old(self).aliases.found(other)
                },
                (AliasRequest::Delete { name }, AliasChange::Made) => {
                    &&& final(self).aliases.found(name@) is None
                    &&& forall|other: Seq<char>|
                        chars::lowered(other) != chars::lowered(name@)
                            ==> #[trigger] final(self).aliases.found(other)
                            == old(self).aliases.found(other)
                },
                _ => *final(self) == *old(self),
            },
            old(self).wf() ==> final(self).wf(),
    {
        let ghost before = self.aliases;
        let answer = execute_alias(self.locale(), self.prefix(), &self.aliases, request, change);
        self.aliases.apply(request, change);
        proof {
            alias::changes_take_effect(before, *request, change, self.aliases);
        }
        answer
    }

    /// The answer to an external command. After every failure of a module the state takes `fresh`, a
    /// new look at the modules.
    pub fn execute_external(
        &mut self,
        invocation: &ExternalInvocation,
        outcome: ExternalOutcome,
        fresh: ExternalRuntimeSnapshot,
    ) -> (answer: Response)
        ensures
            answer@ == external::external_view(
                old(self).settings.language(),
                old(self).external_snapshot.descriptors@,
                invocation.module_id@,
                if old(self).external_manager {
                    outcome
                } else {
                    ExternalOutcome::RuntimeUnavailable
                },
            ),
            *final(self) == (RuntimeState {
                external_snapshot: if old(self).external_manager && outcome is Failure {
                    fresh
                } else {
                    old(self).external_snapshot
                },
                ..*old(self)
            }),
            old(self).external_manager && external::looks_again(outcome)
                ==> final(self).external_snapshot == fresh,
            old(self).wf() && fresh.wf() ==> final(self).wf(),
    {
        let outcome = if self.external_manager {
            outcome
        } else {
            ExternalOutcome::RuntimeUnavailable
        };
        let (answer, look_again) = execute_external(
            self.locale(),
            &self.external_snapshot,
            invocation,
            outcome,
        );
        if look_again {
            self.refresh_snapshot(fresh);
        }
        answer
    }

    /// Takes an upstream revision that was found; without one nothing changes.
    pub fn publish_upstream_revision(&mut self, revision: Option<UpstreamRevision>)
        ensures
            final(self).upstream_version_known == upstream::version_told(
                old(self).upstream_version_known,
                revision,
            ),
            match revision {
                Some(revision) => {
                    &&& final(self).upstream_version_known == (old(self).upstream_version_known
                        || revision.version is Some)
                    &&& final(self).upstream_revision_cache@
                        == old(self).upstream_revision_cache@.after_found(revision@)
                },
                None => *final(self) == *old(self),
            },
            *final(self) == (RuntimeState {
                upstream_version_known: final(self).upstream_version_known,
                upstream_revision_cache: final(self).upstream_revision_cache,
                ..*old(self)
            }),
            old(self).wf() ==> final(self).wf(),
    {
        if let Some(revision) = revision {
            if revision.version.is_some() {
                self.upstream_version_known = true;
            }
            let mut cache = UpstreamSnapshot::Never;
            std::mem::swap(&mut cache, &mut self.upstream_revision_cache);
            self.upstream_revision_cache = cache.found(revision);
        }
    }

    /// Takes the upstream version, or that there is none.
    pub fn publish_upstream_version(&mut self, version: Option<String>)
        ensures
            final(self).upstream_version_known,
            final(self).upstream_revision_cache@
                == old(self).upstream_revision_cache@.after_version(upstream::optional(version)),
            *final(self) == (RuntimeState {
                upstream_version_known: true,
                upstream_revision_cache: final(self).upstream_revision_cache,
                ..*old(self)
            }),
            old(self).wf() ==> final(self).wf(),
    {
        self.upstream_version_known = true;
        let mut cache = UpstreamSnapshot::Never;
        std::mem::swap(&mut cache, &mut self.upstream_revision_cache);
        self.upstream_revision_cache = cache.version_found(version);
    }

    /// Takes that upstream could not be asked. What was known of it is still served.
    pub fn publish_upstream_failure(&mut self, category: String)
        ensures
            final(self).upstream_revision_cache@
                == old(self).upstream_revision_cache@.after_failure(category@),
            *final(self) == (RuntimeState {
                upstream_revision_cache: final(self).upstream_revision_cache,
                ..*old(self)
            }),
            old(self).wf() ==> final(self).wf(),
    {
        let mut cache = UpstreamSnapshot::Never;
        std::mem::swap(&mut cache, &mut self.upstream_revision_cache);
        self.upstream_revision_cache = cache.failed(category);
    }

    /// What is known of upstream.
    pub fn upstream_revision(&self) -> (revision: Option<UpstreamRevision>)
        ensures
            match revision {
                Some(revision) => self.upstream_revision_cache@.served() == Some(revision@),
                None => self.upstream_revision_cache@.served() is None,
            },
    {
        self.upstream_revision_cache.revision()
    }

    /// Expects the edit of a message to `text` to come back, where there is room to remember it.
    pub fn register_expected_self_edit(&mut self, peer_id: PeerId, message_id: i32, text: String) -> (result:
        Result<(), LedgerFull>)
        ensures
            result is Ok <==> old(self).expected_self_edits@.len()
                < crate::message_provenance::MAX_ENTRIES,
            final(self).expected_self_edits@ == (if result is Ok {
                old(self).expected_self_edits@.push(
                    SelfEditView { peer_id, message_id, text: text@ },
                )
            } else {
                old(self).expected_self_edits@
            }),
            *final(self) == (RuntimeState {
                expected_self_edits: final(self).expected_self_edits,
                ..*old(self)
            }),
            old(self).wf() ==> final(self).wf(),
    {
        self.expected_self_edits.register(peer_id, message_id, text)
    }

    /// Whether an edit was expected; it is expected no longer.
    pub fn consume_expected_self_edit(&mut self, peer_id: PeerId, message_id: i32, text: &str) -> (found:
        bool)
        ensures
            found == old(self).expected_self_edits@.contains(
                SelfEditView { peer_id, message_id, text: text@ },
            ),
            final(self).expected_self_edits@ == crate::message_provenance::without_first(
                old(self).expected_self_edits@,
                SelfEditView { peer_id, message_id, text: text@ },
            ),
            *final(self) == (RuntimeState {
                expected_self_edits: final(self).expected_self_edits,
                ..*old(self)
            }),
            old(self).wf() ==> final(self).wf(),
    {
        self.expected_self_edits.consume(peer_id, message_id, text)
    }

    /// Expects an edit no longer.
    pub fn remove_expected_self_edit(&mut self, peer_id: PeerId, message_id: i32, text: &str)
        ensures
            final(self).expected_self_edits@ == crate::message_provenance::without_first(
                old(self).expected_self_edits@,
                SelfEditView { peer_id, message_id, text: text@ },
            ),
            *final(self) == (RuntimeState {
                expected_self_edits: final(self).expected_self_edits,
                ..*old(self)
            }),
            old(self).wf() ==> final(self).wf(),
    {
        self.expected_self_edits.remove(peer_id, message_id, text)
    }

    /// Remembers a message that the setup sent; the oldest is forgotten where there are too many.
    pub fn register_setup_notification(&mut self, peer_id: PeerId, message_id: i32)
        ensures
            final(self).setup_notification_ids@ == crate::message_provenance::with_newest(
                old(self).setup_notification_ids@,
                (peer_id, message_id),
                crate::message_provenance::MAX_ENTRIES as nat,
            ),
            *final(self) == (RuntimeState {
                setup_notification_ids: final(self).setup_notification_ids,
                ..*old(self)
            }),
            old(self).wf() ==> final(self).wf(),
    {
        self.setup_notification_ids.register(peer_id, message_id)
    }

    /// Whether the setup sent a message; it is forgotten.
    pub fn consume_setup_notification(&mut self, peer_id: PeerId, message_id: i32) -> (found: bool)
        ensures
            found == old(self).setup_notification_ids@.contains((peer_id, message_id)),
            final(self).setup_notification_ids@ == crate::message_provenance::without_first(
                old(self).setup_notification_ids@,
                (peer_id, message_id),
            ),
            *final(self) == (RuntimeState {
                setup_notification_ids: final(self).setup_notification_ids,
                ..*old(self)
            }),
            old(self).wf() ==> final(self).wf(),
    {
        self.setup_notification_ids.consume(peer_id, message_id)
    }

    /// Claims the one message that may be sent in place of an edit of this message: the first claim
    /// is granted, and it is remembered.
    pub fn claim_setup_edit_fallback(&mut self, peer_id: PeerId, message_id: i32) -> (granted: bool)
        ensures
            (granted, final(self).setup_edit_fallback_sources@) == crate::message_provenance::claimed(
                old(self).setup_edit_fallback_sources@,
                (peer_id, message_id),
                crate::message_provenance::MAX_ENTRIES as nat,
            ),
            granted == !old(self).setup_edit_fallback_sources@.contains((peer_id, message_id)),
            final(self).setup_edit_fallback_sources@ == (if granted {
                crate::message_provenance::with_newest(
                    old(self).setup_edit_fallback_sources@,
                    (peer_id, message_id),
                    crate::message_provenance::MAX_ENTRIES as nat,
                )
            } else {
                old(self).setup_edit_fallback_sources@
            }),
            final(self).setup_edit_fallback_sources@.contains((peer_id, message_id)),
            *final(self) == (RuntimeState {
                setup_edit_fallback_sources: final(self).setup_edit_fallback_sources,
                ..*old(self)
            }),
            old(self).wf() ==> final(self).wf(),
    {
        if self.setup_edit_fallback_sources.contains(peer_id, message_id) {
            return false;
        }
        self.setup_edit_fallback_sources.register(peer_id, message_id);
        assert(self.setup_edit_fallback_sources@[self.setup_edit_fallback_sources@.len() - 1] == (
            peer_id,
            message_id,
        ));
        true
    }

    /// What modules are told of a message.
    pub open spec fn told_events(self, names: Seq<EventNames>, message: EventMessage) -> Seq<
        dispatch::EventRequestView,
    > {
        if self.external_projection_permitted && self.external_manager {
            dispatch::events_for(self.external_snapshot.descriptors@, names, message)
        } else {
            Seq::empty()
        }
    }

    /// The events that a message is worth, where modules may be told of messages and there is a module
    /// runtime; nothing where there are none.
    pub fn prepare_message_event_dispatch(
        &self,
        names: &Vec<EventNames>,
        message: &EventMessage<'_>,
    ) -> (dispatch: Option<CreatedEventDispatch>)
        ensures
            dispatch is Some <==> self.told_events(names@, *message).len() > 0,
            dispatch matches Some(dispatch) ==> dispatch::request_views(dispatch.requests@)
                == self.told_events(names@, *message),
            ({
                let events = dispatch::events_for(
                    self.external_snapshot.descriptors@,
                    names@,
                    *message,
                );
                if self.external_projection_permitted && self.external_manager && events.len() > 0 {
                    dispatch is Some && dispatch::request_views(dispatch->0.requests@) == events
                } else {
                    dispatch is None
                }
            }),
    {
        if !self.external_projection_permitted || !self.external_manager {
            return None;
        }
        let requests = prepare_events(&self.external_snapshot.descriptors, names, message);
        assert(requests@.len() == dispatch::request_views(requests@).len());
        if requests.is_empty() {
            None
        } else {
            Some(CreatedEventDispatch { requests })
        }
    }

    /// The answer to a request about the language; `saved` tells whether the chosen language was
    /// stored.
    pub fn execute_language(&mut self, request: &LanguageRequest, saved: bool) -> (answer: Response)
        ensures
            (final(self).settings@, answer@) == old(self).settings@.after_language(*request, saved),
            match *request {
                LanguageRequest::Change(locale) if saved => {
                    &&& final(self).settings == (Settings {
                        locale: Some(locale),
                        ..old(self).settings
                    })
                    &&& answer@ == response::plain_view(
                        locale,
                        language_line(locale, Text::LanguageChanged),
                    )
                },
                _ => {
                    &&& *final(self) == *old(self)
                    &&& answer@ == language_view(old(self).settings, *request)
                },
            },
            *final(self) == (RuntimeState { settings: final(self).settings, ..*old(self) }),
    {
        match *request {
            LanguageRequest::Show => match self.settings.locale {
                Some(locale) => {
                    let line = render_language(locale, Text::LanguageCurrent);
                    Response::plain_with_locale(self.locale(), line.as_str())
                },
                None => self.render_choice(Text::LanguageChoose),
            },
            LanguageRequest::Change(locale) => {
                if saved {
                    self.settings.locale = Some(locale);
                    let line = render_language(locale, Text::LanguageChanged);
                    Response::plain_with_locale(self.locale(), line.as_str())
                } else {
                    Response::plain_with_locale(
                        self.locale(),
                        text(locale, Text::LanguageSaveFailed),
                    )
                }
            },
            LanguageRequest::Invalid => {
                let mut line = "⚠️ ".to_owned();
                line.append(text(self.locale(), Text::LanguageUsage));
                Response::plain_with_locale(self.locale(), line.as_str())
            },
        }
    }

    fn render_choice(&self, key: Text) -> (answer: Response)
        ensures
            answer@ == choice_view(self.settings, key),
    {
        Response::plain_with_locale(self.locale(), bilingual(key, self.prefix()).as_str())
    }

    /// What a request to the tutorial asks to be stored: the language first, then the progress.
    pub open spec fn changes(self, request: StartRequest) -> (
        Option<Locale>,
        Option<OnboardingProgress>,
    ) {
        match request {
            StartRequest::Locale(locale) => (Some(locale), Some(OnboardingProgress::Intro)),
            StartRequest::Begin if self.settings.locale is Some => (
                None,
                Some(self.settings.onboarding.starting_page()),
            ),
            StartRequest::Skip if self.settings.locale is Some => (
                None,
                Some(OnboardingProgress::Skipped),
            ),
            _ => (None, None),
        }
    }

    /// [`RuntimeState::changes`], computed.
    pub fn start_changes(&self, request: &StartRequest) -> (changes: StartChanges)
        ensures
            (changes.locale, changes.onboarding) == self.changes(*request),
    {
        match *request {
            StartRequest::Locale(locale) => StartChanges {
                locale: Some(locale),
                onboarding: Some(OnboardingProgress::restart()),
            },
            StartRequest::Begin => {
                if self.settings.locale.is_some() {
                    StartChanges {
                        locale: None,
                        onboarding: Some(self.settings.onboarding.page_for_start().page),
                    }
                } else {
                    StartChanges { locale: None, onboarding: None }
                }
            },
            StartRequest::Skip => {
                if self.settings.locale.is_some() {
                    StartChanges { locale: None, onboarding: Some(OnboardingProgress::skip()) }
                } else {
                    StartChanges { locale: None, onboarding: None }
                }
            },
            _ => StartChanges { locale: None, onboarding: None },
        }
    }

    /// The answer to a request to the tutorial; `locale_saved` and `onboarding_saved` tell whether what
    /// [`RuntimeState::start_changes`] asked for was stored. A page that could not be stored is not
    /// shown.
    pub fn execute_start(
        &mut self,
        request: &StartRequest,
        locale_saved: bool,
        onboarding_saved: bool,
    ) -> (step: StartStep)
        ensures
            (final(self).settings@, step@) == old(self).settings@.after_start(
                *request,
                locale_saved,
                onboarding_saved,
            ),
            *final(self) == (RuntimeState { settings: final(self).settings, ..*old(self) }),
            ({
                let before = old(self).settings;
                let after = final(self).settings;
                let (_, progress) = old(self).changes(*request);
                if before.locale is None && (request is Bot || request is Skip || request is Begin) {
                    &&& after == before
                    &&& step matches StartStep::Reply(reply) && reply.only(
                        choice_view(before, Text::OnboardingSelect),
                    )
                } else {
                    match *request {
                        StartRequest::Bot => after == before && step is Setup,
                        StartRequest::Invalid => {
                            &&& after == before
                            &&& step matches StartStep::Reply(reply) && reply.only(
                                response::plain_view(
                                    before.language(),
                                    "⚠️ "@ + chars::replaced(
                                        text(before.language(), Text::StartUsage)@,
                                        "{prefix}"@,
                                        before.prefix@,
                                    ),
                                ),
                            )
                        },
                        StartRequest::Skip => step matches StartStep::Reply(reply) && if
                            onboarding_saved {
                            &&& after == (Settings {
                                onboarding: OnboardingProgress::Skipped,
                                ..before
                            })
                            &&& reply.only(
                                response::plain_view(
                                    before.language(),
                                    chars::replaced(
                                        text(before.language(), Text::OnboardingSkipped)@,
                                        "{prefix}"@,
                                        before.prefix@,
                                    ),
                                ),
                            )
                        } else {
                            &&& after == before
                            &&& reply.only(
                                response::plain_view(
                                    before.language(),
                                    text(before.language(), Text::OnboardingSaveFailed)@,
                                ),
                            )
                        },
                        StartRequest::Locale(locale) if !locale_saved => {
                            &&& after == before
                            &&& step matches StartStep::Reply(reply) && reply.only(
                                response::plain_view(
                                    before.language(),
                                    text(locale, Text::LanguageSaveFailed)@,
                                ),
                            )
                        },
                        _ => {
                            let locale = match *request {
                                StartRequest::Locale(locale) => locale,
                                _ => before.language(),
                            };
                            &&& after.locale == Some(locale)
                            &&& after.prefix == before.prefix
                            &&& step matches StartStep::Reply(reply) && if onboarding_saved {
                                &&& after.onboarding == progress->0
                                &&& reply.response@ == response::plain_view(
                                    locale,
                                    page_text(locale, progress->0, before.prefix@),
                                )
                                &&& reply.onboarding_page
                                &&& reply.provision is None && reply.shutdown is None
                                    && reply.post_edit is None && reply.media is None
                            } else {
                                &&& after.onboarding == before.onboarding
                                &&& reply.only(
                                    response::plain_view(
                                        locale,
                                        text(locale, Text::OnboardingSaveFailed)@,
                                    ),
                                )
                            }
                        },
                    }
                }
            }),
    {
        if self.settings.locale.is_none() {
            match *request {
                StartRequest::Bot | StartRequest::Skip | StartRequest::Begin => {
                    return StartStep::Reply(
                        RuntimeExecution::from(self.render_choice(Text::OnboardingSelect)),
                    );
                },
                _ => {},
            }
        }
        let progress = match *request {
            StartRequest::Bot => return StartStep::Setup,
            StartRequest::Invalid => {
                let mut line = "⚠️ ".to_owned();
                line.append(
                    chars::replace(
                        text(self.locale(), Text::StartUsage),
                        "{prefix}",
                        self.prefix(),
                    ).as_str(),
                );
                return StartStep::Reply(
                    RuntimeExecution::from(
                        Response::plain_with_locale(self.locale(), line.as_str()),
                    ),
                );
            },
            StartRequest::Skip => {
                let locale = self.locale();
                let answer = if onboarding_saved {
                    self.settings.onboarding = OnboardingProgress::Skipped;
                    let message = OnboardingProgress::Skipped.message(locale, self.prefix());
                    Response::plain_with_locale(locale, message.as_str())
                } else {
                    Response::plain_with_locale(locale, text(locale, Text::OnboardingSaveFailed))
                };
                return StartStep::Reply(RuntimeExecution::from(answer));
            },
            StartRequest::Locale(locale) => {
                if !locale_saved {
                    return StartStep::Reply(
                        RuntimeExecution::from(
                            Response::plain_with_locale(
                                self.locale(),
                                text(locale, Text::LanguageSaveFailed),
                            ),
                        ),
                    );
                }
                self.settings.locale = Some(locale);
                OnboardingProgress::restart()
            },
            StartRequest::Begin => self.settings.onboarding.page_for_start().page,
        };
        let locale = self.locale();
        let mut page = progress.message(locale, self.prefix());
        page.append("\n\n");
        page.append(
            chars::replace(text(locale, Text::StartUsage), "{prefix}", self.prefix()).as_str(),
        );
        if onboarding_saved {
            self.settings.onboarding = progress;
            let mut reply = RuntimeExecution::from(
                Response::plain_with_locale(locale, page.as_str()),
            );
            reply.onboarding_page = true;
            StartStep::Reply(reply)
        } else {
            StartStep::Reply(
                RuntimeExecution::from(
                    Response::plain_with_locale(locale, text(locale, Text::OnboardingSaveFailed)),
                ),
            )
        }
    }

    /// The progress to store once the pending page was delivered.
    pub fn delivered_onboarding(&self) -> (progress: OnboardingProgress)
        ensures
            progress == self.settings.onboarding.following(),
    {
        self.settings.onboarding.mark_delivered()
    }

    /// Moves the tutorial on once its page was delivered and that was stored.
    pub fn mark_onboarding_delivered(&mut self, saved: bool)
        ensures
            final(self).settings@ == old(self).settings@.after_delivery(saved),
            *final(self) == (RuntimeState {
                settings: Settings {
                    onboarding: if saved {
                        old(self).settings.onboarding.following()
                    } else {
                        old(self).settings.onboarding
                    },
                    ..old(self).settings
                },
                ..*old(self)
            }),
    {
        if saved {
            self.settings.onboarding = self.settings.onboarding.mark_delivered();
        }
    }

    /// The answer to a request about the command prefix; `saved` tells whether the new prefix was
    /// stored. One that could not be stored changes nothing.
    pub fn execute_prefix(&mut self, request: &PrefixRequest, saved: bool) -> (answer: Response)
        ensures
            (final(self).settings@, answer@) == old(self).settings@.after_prefix(*request, saved),
            *final(self) == (RuntimeState { settings: final(self).settings, ..*old(self) }),
            ({
                let before = old(self).settings;
                let after = final(self).settings;
                let locale = before.language();
                let wanted = match *request {
                    PrefixRequest::Change(prefix) => Some(prefix@),
                    PrefixRequest::Reset => Some(DEFAULT_PREFIX@),
                    _ => None,
                };
                let (key, failed) = match *request {
                    PrefixRequest::Show => (PrefixText::Current, PrefixText::Current),
                    PrefixRequest::Change(_) => (PrefixText::Changed, PrefixText::ChangeFailed),
                    PrefixRequest::Reset => (PrefixText::Reset, PrefixText::ResetFailed),
                    PrefixRequest::Invalid => (PrefixText::Usage, PrefixText::Usage),
                };
                &&& after.locale == before.locale && after.onboarding == before.onboarding
                &&& after.prefix@ == (match wanted {
                    Some(wanted) if saved => wanted,
                    _ => before.prefix@,
                })
                &&& answer@ == response::plain_view(
                    locale,
                    if wanted is Some && !saved {
                        prefix_text(locale, failed)@
                    } else {
                        chars::replaced(prefix_text(locale, key)@, "{prefix}"@, after.prefix@)
                    },
                )
            }),
    {
        let locale = self.locale();
        let key = match request {
            PrefixRequest::Show => PrefixText::Current,
            PrefixRequest::Change(prefix) => {
                if !saved {
                    return Response::plain_with_locale(
                        locale,
                        prefix_text(locale, PrefixText::ChangeFailed),
                    );
                }
                self.settings.prefix = prefix.clone();
                PrefixText::Changed
            },
            PrefixRequest::Reset => {
                if !saved {
                    return Response::plain_with_locale(
                        locale,
                        prefix_text(locale, PrefixText::ResetFailed),
                    );
                }
                self.settings.prefix = DEFAULT_PREFIX.to_owned();
                PrefixText::Reset
            },
            PrefixRequest::Invalid => PrefixText::Usage,
        };
        self.render_prefix(key)
    }

    /// The answer to a latency request; `latency` is in milliseconds, where Telegram answered.
    pub fn execute_ping(&self, latency: Option<u128>) -> (answer: Response)
        ensures
            answer@ == ping_view(self.settings.language(), latency),
            answer@ == response::plain_view(
                self.settings.language(),
                match latency {
                    Some(millis) => chars::replaced(
                        ping_template(self.settings.language(), PingText::Success)@,
                        "{latency}"@,
                        info::latency_label(millis as nat),
                    ),
                    None => runtime_text(self.settings.language(), RuntimeText::PingFailed)@,
                },
            ),
    {
        let locale = self.locale();
        match latency {
            Some(millis) => Response::plain_with_locale(
                locale,
                ping_text(locale, PingText::Success, format_latency(millis).as_str()).as_str(),
            ),
            None => Response::plain_with_locale(
                locale,
                runtime_text(locale, RuntimeText::PingFailed),
            ),
        }
    }

    /// The answer to a request for statistics; `uptime` is in seconds.
    pub fn execute_stats(
        &self,
        latency: Option<u128>,
        uptime: u64,
        proc_stats: &ProcStats,
        version: &str,
    ) -> (answer: Response)
        ensures
            answer@ == response::plain_view(
                self.settings.language(),
                info::stats_report(
                    self.settings.language(),
                    match latency {
                        Some(millis) => info::latency_label(millis as nat),
                        None => stats_text(self.settings.language(), StatsText::Unavailable)@,
                    },
                    uptime,
                    *proc_stats,
                    self.recognized_commands,
                    version@,
                ),
            ),
    {
        let locale = self.locale();
        let telegram = match latency {
            Some(millis) => format_latency(millis),
            None => stats_text(locale, StatsText::Unavailable).to_owned(),
        };
        let report = format_stats(
            locale,
            telegram.as_str(),
            uptime,
            proc_stats,
            self.recognized_commands,
            version,
        );
        Response::plain_with_locale(locale, report.as_str())
    }

    /// The answer to a restart request: a granted one goes on once the answer was delivered.
    pub fn execute_reboot(&self, context: MessageContext) -> (execution: RuntimeExecution)
        ensures
            reboot_answered(execution, self.settings.language(), context),
    {
        let locale = self.locale();
        match self.authorize_sensitive_command(SensitiveCommandPolicy::Reboot, context, None) {
            Ok(()) => {
                let mut execution = RuntimeExecution::from(
                    Response::plain_with_locale(
                        locale,
                        runtime_text(locale, RuntimeText::Rebooting),
                    ),
                );
                execution.post_edit = Some(PostEditAction::ArmRebootReceipt);
                execution
            },
            Err(denial) => RuntimeExecution::from(denial),
        }
    }

    /// Whether a privileged command is granted; else what the owner is told.
    pub fn authorize_sensitive_command(
        &self,
        policy: SensitiveCommandPolicy,
        context: MessageContext,
        saved_messages_peer: Option<PeerId>,
    ) -> (result: Result<(), Response>)
        ensures
            match policy::authorization(
                policy,
                context.edited,
                context.authored_by_self,
                context.peer_id,
                context.message_id,
                saved_messages_peer,
            ) {
                Ok(()) => result is Ok,
                Err(denial) => result is Err && result->Err_0@ == response::plain_view(
                    self.settings.language(),
                    denial.response(self.settings.language(), policy)@,
                ),
            },
    {
        match authorize_sensitive_message(
            policy,
            context.edited,
            context.authored_by_self,
            context.peer_id,
            context.message_id,
            saved_messages_peer,
        ) {
            Ok(()) => Ok(()),
            Err(denial) => Err(
                Response::plain_with_locale(self.locale(), denial.response(self.locale(), policy)),
            ),
        }
    }

    /// Why a module-management request is refused, where it is.
    pub open spec fn lm_denial(self, request: LmRequest, context: MessageContext) -> Option<
        policy::SensitiveCommandDenial,
    > {
        if request is Install || request is Confirm || request is Cancel || request is Enable
            || request is Disable {
            match policy::authorization(
                SensitiveCommandPolicy::ModuleMutation,
                context.edited,
                context.authored_by_self,
                context.peer_id,
                context.message_id,
                self.module_control,
            ) {
                Err(denial) => Some(denial),
                Ok(()) => None,
            }
        } else {
            None
        }
    }

    /// Whether a module-management request is carried out: every request that changes something takes
    /// a new message of the owner in Saved Messages; else what the owner is told.
    pub fn execute_lm(&self, request: &LmRequest, context: MessageContext) -> (result: Result<
        (),
        Response,
    >)
        ensures
            result is Ok <==> self.lm_denial(*request, context) is None,
            ({
                let mutates = request is Install || request is Confirm || request is Cancel
                    || request is Enable || request is Disable;
                match policy::authorization(
                    SensitiveCommandPolicy::ModuleMutation,
                    context.edited,
                    context.authored_by_self,
                    context.peer_id,
                    context.message_id,
                    self.module_control,
                ) {
                    Err(denial) if mutates => result is Err && result->Err_0@
                        == response::plain_view(
                        self.settings.language(),
                        denial.response(
                            self.settings.language(),
                            SensitiveCommandPolicy::ModuleMutation,
                        )@,
                    ),
                    _ => result is Ok,
                }
            }),
    {
        if lm_request_mutates(request) {
            self.authorize_sensitive_command(
                SensitiveCommandPolicy::ModuleMutation,
                context,
                self.module_control,
            )
        } else {
            Ok(())
        }
    }

    /// What a command leads to.
    pub open spec fn task_for(self, action: Action, context: MessageContext) -> TaskView {
        let locale = self.settings.language();
        match action {
            Action::Language(LanguageRequest::Change(_)) => TaskView::StoreLocale,
            Action::Language(request) => TaskView::Answered(
                self.settings@.after_language(request, false).1,
            ),
            Action::Ping => TaskView::MeasureLatency,
            Action::Stats => TaskView::MeasureStats,
            Action::Info => TaskView::GatherFacts,
            Action::Help(_) => TaskView::RenderHelp,
            Action::Fastfetch(_) => TaskView::RunFastfetch,
            Action::Alias(request) => if request is Add || request is Delete {
                TaskView::StoreAlias
            } else {
                TaskView::Answered(
                    alias::alias_view(
                        locale,
                        self.settings.prefix@,
                        self.aliases,
                        request,
                        AliasChange::Made,
                    ),
                )
            },
            Action::Prefix(request) => if request is Change || request is Reset {
                TaskView::StorePrefix
            } else {
                TaskView::Answered(self.settings@.after_prefix(request, false).1)
            },
            Action::Modules { .. } => TaskView::RenderModules,
            Action::Lm(request) => match self.lm_denial(request, context) {
                Some(denial) => TaskView::Answered(
                    response::plain_view(
                        locale,
                        denial.response(locale, SensitiveCommandPolicy::ModuleMutation)@,
                    ),
                ),
                None => if request is Invalid {
                    TaskView::Answered(
                        response::plain_view(
                            locale,
                            chars::replaced(
                                crate::i18n::lm_text(locale, crate::i18n::LmText::Usage)@,
                                "{prefix}"@,
                                self.settings.prefix@,
                            ),
                        ),
                    )
                } else {
                    TaskView::ManageModules
                },
            },
            Action::Reboot => match policy::authorization(
                SensitiveCommandPolicy::Reboot,
                context.edited,
                context.authored_by_self,
                context.peer_id,
                context.message_id,
                None,
            ) {
                Ok(()) => TaskView::Restart(
                    response::plain_view(locale, runtime_text(locale, RuntimeText::Rebooting)@),
                ),
                Err(denial) => TaskView::Answered(
                    response::plain_view(
                        locale,
                        denial.response(locale, SensitiveCommandPolicy::Reboot)@,
                    ),
                ),
            },
            Action::Setup(_) => match self.setup_refusal(context.peer_id) {
                Some(reason) => TaskView::Answered(
                    response::plain_view(locale, setup_text(locale, reason)@),
                ),
                None => TaskView::Setup,
            },
            Action::Start(_) => TaskView::StoreStart,
            Action::External(_) => TaskView::RunExternal,
        }
    }

    /// Takes a command: counts it, and answers it where that takes nothing from outside.
    pub fn execute(&mut self, action: &Action, context: MessageContext) -> (task: Task)
        ensures
            task@ == old(self).task_for(*action, context),
            final(self).recognized_commands == (if old(self).recognized_commands < u64::MAX {
                (old(self).recognized_commands + 1) as u64
            } else {
                u64::MAX
            }),
            *final(self) == (RuntimeState {
                recognized_commands: final(self).recognized_commands,
                ..*old(self)
            }),
            ({
                let settings = old(self).settings;
                let locale = settings.language();
                match *action {
                    Action::Start(request) => task matches Task::StoreStart(changes) && (
                        changes.locale,
                        changes.onboarding,
                    ) == old(self).changes(request),
                    Action::Setup(_) => match old(self).setup {
                        Some(setup) if context.peer_id == setup.saved_messages_peer => task is Setup,
                        Some(_) => task matches Task::Answered(answer) && answer.only(
                            response::plain_view(
                                locale,
                                setup_text(locale, SetupText::SavedMessagesOnly)@,
                            ),
                        ),
                        None => task matches Task::Answered(answer) && answer.only(
                            response::plain_view(
                                locale,
                                setup_text(locale, SetupText::Unavailable)@,
                            ),
                        ),
                    },
                    Action::Info => task is GatherFacts,
                    Action::Language(LanguageRequest::Change(wanted)) => task == Task::StoreLocale(
                        wanted,
                    ),
                    Action::Language(request) => task matches Task::Answered(answer) && answer.only(
                        language_view(settings, request),
                    ),
                    Action::Ping => task is MeasureLatency,
                    Action::Stats => task is MeasureStats,
                    Action::Help(_) => task is RenderHelp,
                    Action::Fastfetch(_) => task is RunFastfetch,
                    Action::Alias(request) => if request is Add || request is Delete {
                        task is StoreAlias
                    } else {
                        task matches Task::Answered(answer) && answer.only(
                            alias::alias_view(
                                locale,
                                settings.prefix@,
                                old(self).aliases,
                                request,
                                AliasChange::Made,
                            ),
                        )
                    },
                    Action::Prefix(request) => match request {
                        PrefixRequest::Change(prefix) => task matches Task::StorePrefix(wanted)
                            && wanted@ == prefix@,
                        PrefixRequest::Reset => task matches Task::StorePrefix(wanted) && wanted@
                            == DEFAULT_PREFIX@,
                        PrefixRequest::Show => task matches Task::Answered(answer) && answer.only(
                            response::plain_view(
                                locale,
                                chars::replaced(
                                    prefix_text(locale, PrefixText::Current)@,
                                    "{prefix}"@,
                                    settings.prefix@,
                                ),
                            ),
                        ),
                        PrefixRequest::Invalid => task matches Task::Answered(answer) && answer.only(
                            response::plain_view(
                                locale,
                                chars::replaced(
                                    prefix_text(locale, PrefixText::Usage)@,
                                    "{prefix}"@,
                                    settings.prefix@,
                                ),
                            ),
                        ),
                    },
                    Action::Modules { .. } => task is RenderModules,
                    Action::Lm(request) => {
                        let mutates = request is Install || request is Confirm || request is Cancel
                            || request is Enable || request is Disable;
                        match policy::authorization(
                            SensitiveCommandPolicy::ModuleMutation,
                            context.edited,
                            context.authored_by_self,
                            context.peer_id,
                            context.message_id,
                            old(self).module_control,
                        ) {
                            Err(denial) if mutates => task matches Task::Answered(answer)
                                && answer.only(
                                response::plain_view(
                                    locale,
                                    denial.response(
                                        locale,
                                        SensitiveCommandPolicy::ModuleMutation,
                                    )@,
                                ),
                            ),
                            _ => if request is Invalid {
                                task matches Task::Answered(answer) && answer.only(
                                    response::plain_view(
                                        locale,
                                        chars::replaced(
                                            crate::i18n::lm_text(
                                                locale,
                                                crate::i18n::LmText::Usage,
                                            )@,
                                            "{prefix}"@,
                                            settings.prefix@,
                                        ),
                                    ),
                                )
                            } else {
                                task is ManageModules
                            },
                        }
                    },
                    Action::Reboot => task matches Task::Answered(answer) && reboot_answered(
                        answer,
                        locale,
                        context,
                    ),
                    Action::External(_) => task is RunExternal,
                }
            }),
    {
        self.count_command();
        match action {
            Action::Start(request) => Task::StoreStart(self.start_changes(request)),
            Action::Setup(_) => match self.execute_setup(context.peer_id) {
                SetupEntry::Reply(answer) => Task::Answered(answer),
                SetupEntry::Coordinator => Task::Setup,
            },
            Action::Info => Task::GatherFacts,
            Action::Language(request) => match *request {
                LanguageRequest::Change(locale) => Task::StoreLocale(locale),
                _ => {
                    let answer = self.execute_language(request, false);
                    Task::Answered(RuntimeExecution::from(answer))
                },
            },
            Action::Ping => Task::MeasureLatency,
            Action::Stats => Task::MeasureStats,
            Action::Help(_) => Task::RenderHelp,
            Action::Fastfetch(_) => Task::RunFastfetch,
            Action::Alias(request) => match request {
                AliasRequest::Add { .. } | AliasRequest::Delete { .. } => Task::StoreAlias,
                _ => {
                    let answer = self.execute_alias(request, AliasChange::Made);
                    Task::Answered(RuntimeExecution::from(answer))
                },
            },
            Action::Prefix(request) => match request {
                PrefixRequest::Change(prefix) => Task::StorePrefix(prefix.clone()),
                PrefixRequest::Reset => Task::StorePrefix(DEFAULT_PREFIX.to_owned()),
                PrefixRequest::Show => Task::Answered(
                    RuntimeExecution::from(self.render_prefix(PrefixText::Current)),
                ),
                PrefixRequest::Invalid => Task::Answered(
                    RuntimeExecution::from(self.render_prefix(PrefixText::Usage)),
                ),
            },
            Action::Modules { .. } => Task::RenderModules,
            Action::Lm(request) => match self.execute_lm(request, context) {
                Err(denial) => Task::Answered(RuntimeExecution::from(denial)),
                Ok(()) => match request {
                    LmRequest::Invalid => {
                        let answer = self.lm_invalid_usage_response();
                        Task::Answered(RuntimeExecution::from(answer))
                    },
                    _ => Task::ManageModules,
                },
            },
            Action::Reboot => Task::Answered(self.execute_reboot(context)),
            Action::External(_) => Task::RunExternal,
        }
    }

    fn render_prefix(&self, key: PrefixText) -> (answer: Response)
        ensures
            answer@ == response::plain_view(
                self.settings.language(),
                chars::replaced(
                    prefix_text(self.settings.language(), key)@,
                    "{prefix}"@,
                    self.settings.prefix@,
                ),
            ),
    {
        let message = chars::replace(prefix_text(self.locale(), key), "{prefix}", self.prefix());
        Response::plain_with_locale(self.locale(), message.as_str())
    }

    /// The template of the instance summary. How the build relates to upstream is filled in where the
    /// words are given.
    pub open spec fn summary_template(self, facts: InfoFacts) -> Seq<char> {
        let locale = self.settings.language();
        match facts.words {
            Some(words) => chars::replaced(
                words.caption@,
                "{upstream_status}"@,
                match self.upstream_revision_cache@.served() {
                    Some(served) => info::revision_status_text(words, served.relation),
                    None => info_text(locale, InfoText::Unavailable)@,
                },
            ),
            None => info_text(locale, InfoText::Caption)@,
        }
    }

    /// The instance summary. How the version relates to upstream stands behind it, once upstream told its
    /// version.
    pub open spec fn summary(self, facts: InfoFacts) -> Seq<char> {
        let locale = self.settings.language();
        let built_in = crate::modules::registry().len();
        crate::i18n::render::info_filled(
            self.summary_template(facts),
            match self.self_identity {
                Some(identity) => crate::info::owner_name(identity),
                None => info_text(locale, InfoText::Unknown)@,
            },
            info::version_line(
                facts.version@,
                info::version_status_text(
                    locale,
                    self.upstream_version_known,
                    facts.version_relation,
                    match self.upstream_revision_cache@.served() {
                        Some(served) => served.version,
                        None => None,
                    },
                ),
            ),
            crate::info::short_form(facts.build_rev@),
            match self.upstream_revision_cache@.served() {
                Some(served) => crate::info::short_form(served.revision),
                None => info_text(locale, InfoText::Unavailable)@,
            },
            self.settings.prefix@,
            built_in + external::running(self.external_snapshot.module_statuses@),
            built_in + self.external_snapshot.descriptors@.len(),
            facts.host@,
            facts.os@,
        )
    }

    /// The answer to a request for the instance summary, in quotations where it has four sections, with the
    /// media to deliver with it.
    pub fn execute_info(&self, facts: InfoFacts<'_>, media: Option<String>) -> (execution:
        RuntimeExecution)
        requires
            self.external_snapshot.descriptors@.len() + 3 <= usize::MAX,
            self.external_snapshot.module_statuses@.len() + 3 <= usize::MAX,
        ensures
            execution.response@ == response::four_blockquotes_view(
                self.settings.language(),
                self.summary(facts),
            ),
            execution.media == media,
            execution.provision is None && execution.shutdown is None && execution.post_edit is None
                && !execution.onboarding_page,
    {
        let locale = self.locale();
        let owner = match &self.self_identity {
            Some(identity) => owner_label(identity),
            None => info_text(locale, InfoText::Unknown).to_owned(),
        };
        let short_rev = short_commit(facts.build_rev);
        let known = self.upstream_revision();
        let upstream = match &known {
            Some(known) => short_commit(known.revision.as_str()),
            None => info_text(locale, InfoText::Unavailable),
        };
        let upstream_version = match &known {
            Some(known) => match &known.version {
                Some(version) => Some(version.as_str()),
                None => None,
            },
            None => None,
        };
        let status = version_status(
            locale,
            self.upstream_version_known,
            facts.version_relation,
            upstream_version,
        );
        let version = versioned(facts.version, status.as_str());
        let template = match &facts.words {
            Some(words) => {
                let relation = match &known {
                    Some(known) => revision_status(words, known.relation),
                    None => info_text(locale, InfoText::Unavailable).to_owned(),
                };
                chars::replace(words.caption, "{upstream_status}", relation.as_str())
            },
            None => info_text(locale, InfoText::Caption).to_owned(),
        };
        let modules = crate::modules::modules();
        assert(modules@.len() == modules@.map_values(
            |module: crate::modules::ModuleSpec| module@,
        ).len());
        let built_in: usize = modules.len();
        let running: usize = self.external_snapshot.running_modules();
        let caption = fill_info_text(
            template.as_str(),
            InfoCaptionData {
                owner: owner.as_str(),
                version: version.as_str(),
                commit: short_rev,
                upstream,
                prefix: self.prefix(),
                active_modules: built_in + running,
                total_modules: built_in + self.external_snapshot.descriptors.len(),
                host: facts.host,
                os: facts.os,
            },
        );
        let mut execution = RuntimeExecution::from(
            Response::four_blockquotes_with_locale(locale, caption),
        );
        execution.media = media;
        execution
    }
}

fn render_language(locale: Locale, key: Text) -> (line: String)
    ensures
        line@ == language_line(locale, key),
{
    let mut line = "🌐 ".to_owned();
    line.append(text(locale, key));
    line.append(": ");
    line.append(locale.code());
    line
}

/// While the setup is configured and BotFather is not known, modules are told of nothing, whatever
/// else happens to the state.
pub proof fn projection_is_closed_until_botfather_is_known(state: RuntimeState)
    requires
        state.wf(),
        state.setup is Some,
        state.setup->0.botfather_peer is None,
    ensures
        !state.external_projection_permitted,
{
}

/// A message that the setup routes is one that it protects: whatever it takes or swallows is kept from
/// everyone else.
pub proof fn routed_messages_are_protected(
    state: RuntimeState,
    peer: PeerId,
    authored_by_self: bool,
    outgoing: bool,
    edited: bool,
)
    ensures
        state.route(peer, authored_by_self, outgoing, edited) != SetupRoute::Ignored <==> (
        state.setup matches Some(setup) && setup.protects(peer, authored_by_self)),
{
}

} // verus!
