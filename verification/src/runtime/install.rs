//! The installation of external modules: the plan that the owner sees, and what a confirmation
//! leads to.
//!
//! Inspecting packages, keeping approvals, installing files and running modules is up to the caller,
//! who reports what came of it.
use super::info::bounded_list;
use crate::i18n::{
    inspection_warning_text, lm_fill, lm_format, lm_label, lm_text, render_lm_install_plan,
    InspectionWarning, LmInstallPlanText, LmLabel, LmText, Locale,
};
use crate::i18n::render;
use crate::response;
use crate::response::Response;
use crate::runtime::info;
use crate::text;
use vstd::prelude::*;
use vstd::string::*;

verus! {

/// Where a module package comes from.
pub enum SourceIdentity {
    Archive,
    PinnedRepository { repository: String, revision: String },
}

/// The size of a module package.
pub struct ArchiveStatistics {
    pub archive_bytes: u64,
    pub file_count: u32,
    pub compressed_bytes: u64,
    pub expanded_bytes: u64,
}

/// What an inspected module package asks for.
pub struct ModuleInstallPlan {
    pub source_identity: SourceIdentity,
    pub module_id: String,
    pub module_version: String,
    pub protocol_version: u32,
    pub entrypoint: String,
    pub default_command: Option<String>,
    pub archive_digest: String,
    pub fingerprint: String,
    pub archive: ArchiveStatistics,
    pub warnings: Vec<InspectionWarning>,
    pub capabilities: Vec<String>,
    pub subscriptions: Vec<String>,
    pub telegram_methods: Vec<String>,
    pub actions: Vec<String>,
}

/// The label of a source.
pub open spec fn source_label(locale: Locale, source: SourceIdentity) -> Seq<char> {
    match source {
        SourceIdentity::Archive => lm_label(locale, LmLabel::Archive)@,
        SourceIdentity::PinnedRepository { repository, revision } => lm_label(
            locale,
            LmLabel::Repository,
        )@ + " "@ + repository@ + " @ "@ + revision@,
    }
}

fn render_source(locale: Locale, source: &SourceIdentity) -> (label: String)
    ensures
        label@ == source_label(locale, *source),
{
    match source {
        SourceIdentity::Archive => lm_label(locale, LmLabel::Archive).to_owned(),
        SourceIdentity::PinnedRepository { repository, revision } => {
            let mut label = lm_label(locale, LmLabel::Repository).to_owned();
            label.append(" ");
            label.append(repository.as_str());
            label.append(" @ ");
            label.append(revision.as_str());
            label
        },
    }
}

/// The bounded list of some values.
pub open spec fn bounded(locale: Locale, values: Seq<Seq<char>>) -> Seq<char> {
    info::names_label(locale, info::bounded_items(locale, values))
}

/// The texts of warnings.
pub open spec fn warning_texts(locale: Locale, warnings: Seq<InspectionWarning>) -> Seq<Seq<char>> {
    warnings.map_values(
        |warning: InspectionWarning| inspection_warning_text(locale, &warning)@,
    )
}

fn render_warnings(locale: Locale, warnings: &Vec<InspectionWarning>) -> (texts: Vec<String>)
    ensures
        text::views(texts@) == warning_texts(locale, warnings@),
{
    let mut texts: Vec<String> = Vec::new();
    let mut i: usize = 0;
    assert(text::views(texts@) == warning_texts(locale, warnings@.take(0)));
    while i < warnings.len()
        invariant
            i <= warnings@.len(),
            text::views(texts@) == warning_texts(locale, warnings@.take(i as int)),
        decreases warnings@.len() - i,
    {
        let told = inspection_warning_text(locale, &warnings[i]).to_owned();
        let ghost before = texts@;
        let ghost shown = told@;
        texts.push(told);
        proof {
            assert(text::views(texts@) == text::views(before).push(shown));
            assert(warning_texts(locale, warnings@.take(i + 1)) == warning_texts(
                locale,
                warnings@.take(i as int),
            ).push(shown));
        }
        i = i + 1;
    }
    assert(warnings@.take(i as int) == warnings@);
    texts
}

/// The placeholders of the plan and their values.
pub open spec fn plan_values(
    locale: Locale,
    plan: ModuleInstallPlan,
    approval_id: Seq<char>,
    prefix: Seq<char>,
) -> Seq<(Seq<char>, Seq<char>)> {
    seq![
        ("source"@, source_label(locale, plan.source_identity)),
        ("module"@, plan.module_id@),
        ("version"@, plan.module_version@),
        ("entrypoint"@, plan.entrypoint@),
        (
            "default_command"@,
            match plan.default_command {
                Some(command) => command@,
                None => lm_label(locale, LmLabel::Absent)@,
            },
        ),
        ("sha256"@, plan.archive_digest@),
        ("fingerprint"@, plan.fingerprint@),
        ("capabilities"@, bounded(locale, text::views(plan.capabilities@))),
        ("subscriptions"@, bounded(locale, text::views(plan.subscriptions@))),
        ("methods"@, bounded(locale, text::views(plan.telegram_methods@))),
        ("actions"@, bounded(locale, text::views(plan.actions@))),
        ("warnings"@, bounded(locale, warning_texts(locale, plan.warnings@))),
        ("approval_id"@, approval_id),
        ("prefix"@, prefix),
        ("protocol"@, text::decimal(plan.protocol_version as nat)),
        ("archive_bytes"@, text::decimal(plan.archive.archive_bytes as nat)),
        ("file_count"@, text::decimal(plan.archive.file_count as nat)),
        ("compressed_bytes"@, text::decimal(plan.archive.compressed_bytes as nat)),
        ("expanded_bytes"@, text::decimal(plan.archive.expanded_bytes as nat)),
    ]
}

/// The plan that the owner sees before a module is installed. What a package lists is shown in
/// bounded form.
pub fn render_install_plan(
    locale: Locale,
    plan: &ModuleInstallPlan,
    approval_id: &str,
    prefix: &str,
) -> (message: String)
    ensures
        message@ == crate::i18n::interpolated(
            lm_text(locale, LmText::InstallPlan)@,
            plan_values(locale, *plan, approval_id@, prefix@),
        ),
{
    let source = render_source(locale, &plan.source_identity);
    let capabilities = bounded_list(locale, &plan.capabilities);
    let subscriptions = bounded_list(locale, &plan.subscriptions);
    let methods = bounded_list(locale, &plan.telegram_methods);
    let actions = bounded_list(locale, &plan.actions);
    let warnings = bounded_list(locale, &render_warnings(locale, &plan.warnings));
    let default_command = match &plan.default_command {
        Some(command) => command.as_str(),
        None => lm_label(locale, LmLabel::Absent),
    };
    let shown = LmInstallPlanText {
        source: source.as_str(),
        module: plan.module_id.as_str(),
        version: plan.module_version.as_str(),
        protocol: plan.protocol_version,
        entrypoint: plan.entrypoint.as_str(),
        default_command,
        sha256: plan.archive_digest.as_str(),
        fingerprint: plan.fingerprint.as_str(),
        archive_bytes: plan.archive.archive_bytes,
        file_count: plan.archive.file_count as usize,
        compressed_bytes: plan.archive.compressed_bytes,
        expanded_bytes: plan.archive.expanded_bytes,
        capabilities: capabilities.as_str(),
        subscriptions: subscriptions.as_str(),
        methods: methods.as_str(),
        actions: actions.as_str(),
        warnings: warnings.as_str(),
        approval_id,
        prefix,
    };
    assert(shown.named_values() == plan_values(locale, *plan, approval_id@, prefix@));
    render_lm_install_plan(locale, shown)
}

/// The words for updates, which the catalog does not hold: templates with the placeholders `{id}` for
/// the module and `{detail}` for the rest.
pub struct UpdateWords<'a> {
    /// Told with a plan; the detail is the installed version.
    pub planned: &'a str,
    /// Told of an update; the detail is the change of the version.
    pub updated: &'a str,
    /// Told of a failed update; the detail is the reason.
    pub failed: &'a str,
}

/// What the owner is told.
pub enum InstallReply {
    Message(LmText),
    /// A message about a module.
    About { key: LmText, module_id: String },
    /// A module was updated; `change` tells from which version to which.
    Updated { module_id: String, change: String },
    /// A module could not be updated and runs as before.
    UpdateFailed { module_id: String, reason: String },
}

impl InstallReply {
    /// What the reply says in a language.
    pub open spec fn told(self, locale: Locale, words: UpdateWords) -> Seq<char> {
        match self {
            InstallReply::Message(key) => lm_text(locale, key)@,
            InstallReply::About { key, module_id } => render::lm_formatted(
                locale,
                key,
                module_id@,
                ""@,
            ),
            InstallReply::Updated { module_id, change } => render::lm_filled(
                words.updated@,
                module_id@,
                change@,
            ),
            InstallReply::UpdateFailed { module_id, reason } => render::lm_filled(
                words.failed@,
                module_id@,
                reason@,
            ),
        }
    }

    /// The reply as a response.
    pub fn render(&self, locale: Locale, words: &UpdateWords<'_>) -> (response: Response)
        ensures
            response@ == response::plain_view(locale, self.told(locale, *words)),
    {
        match self {
            InstallReply::Message(key) => Response::plain_with_locale(
                locale,
                lm_text(locale, *key),
            ),
            InstallReply::About { key, module_id } => Response::plain_with_locale(
                locale,
                lm_format(locale, *key, module_id.as_str(), "").as_str(),
            ),
            InstallReply::Updated { module_id, change } => Response::plain_with_locale(
                locale,
                lm_fill(words.updated, module_id.as_str(), change.as_str()).as_str(),
            ),
            InstallReply::UpdateFailed { module_id, reason } => Response::plain_with_locale(
                locale,
                lm_fill(words.failed, module_id.as_str(), reason.as_str()).as_str(),
            ),
        }
    }
}

/// What came of looking at the package that the owner attached.
pub enum InspectionOutcome {
    /// Modules cannot be installed.
    InstallUnavailable,
    /// There is no package to inspect.
    NoPackage,
    /// The package is not safe.
    UnsafePackage,
    /// No approval could be issued or read back.
    NoApproval,
    /// The plan awaits approval; `installed` is the version that it would replace.
    Planned { plan: ModuleInstallPlan, approval_id: String, installed: Option<String> },
}

/// What is told of a package. A plan that would replace an installed version says so in a line of its
/// own.
pub open spec fn inspection_text(
    locale: Locale,
    prefix: Seq<char>,
    words: UpdateWords,
    outcome: InspectionOutcome,
) -> Seq<char> {
    match outcome {
        InspectionOutcome::InstallUnavailable => lm_text(locale, LmText::InstallUnavailable)@,
        InspectionOutcome::NoPackage => lm_text(locale, LmText::AttachPackage)@,
        InspectionOutcome::UnsafePackage => lm_text(locale, LmText::UnsafePackage)@,
        InspectionOutcome::NoApproval => lm_text(locale, LmText::PlanUnavailable)@,
        InspectionOutcome::Planned { plan, approval_id, installed } => {
            let shown = crate::i18n::interpolated(
                lm_text(locale, LmText::InstallPlan)@,
                plan_values(locale, plan, approval_id@, prefix),
            );
            match installed {
                Some(installed) => shown + "\n"@ + render::lm_filled(
                    words.planned@,
                    plan.module_id@,
                    installed@,
                ),
                None => shown,
            }
        },
    }
}

/// The answer to a request to install the attached package.
pub fn inspect_module_install(
    locale: Locale,
    prefix: &str,
    words: &UpdateWords<'_>,
    outcome: InspectionOutcome,
) -> (response: Response)
    ensures
        response@ == response::plain_view(
            locale,
            inspection_text(locale, prefix@, *words, outcome),
        ),
{
    let key = match outcome {
        InspectionOutcome::InstallUnavailable => LmText::InstallUnavailable,
        InspectionOutcome::NoPackage => LmText::AttachPackage,
        InspectionOutcome::UnsafePackage => LmText::UnsafePackage,
        InspectionOutcome::NoApproval => LmText::PlanUnavailable,
        InspectionOutcome::Planned { plan, approval_id, installed } => {
            let mut message = render_install_plan(locale, &plan, approval_id.as_str(), prefix);
            if let Some(installed) = installed {
                message.append("\n");
                message.append(
                    lm_fill(words.planned, plan.module_id.as_str(), installed.as_str()).as_str(),
                );
            }
            return Response::plain_with_locale(locale, message.as_str());
        },
    };
    Response::plain_with_locale(locale, lm_text(locale, key))
}

/// What came of revoking an approval.
#[derive(Clone, Copy, Debug, PartialEq, Eq, Structural)]
pub enum RevokeOutcome {
    /// What the owner gave is no approval.
    InvalidId,
    Revoked,
    Unknown,
    Failed,
}

/// The message of a cancellation.
pub open spec fn cancellation_key(outcome: RevokeOutcome) -> LmText {
    match outcome {
        RevokeOutcome::Revoked => LmText::Cancelled,
        RevokeOutcome::Failed => LmText::PlanUnavailable,
        RevokeOutcome::InvalidId => LmText::ApprovalInvalid,
        RevokeOutcome::Unknown => LmText::ApprovalInvalid,
    }
}

/// The answer to a request to cancel an installation.
pub fn cancel_module_install(locale: Locale, outcome: RevokeOutcome) -> (response: Response)
    ensures
        response@ == response::plain_view(locale, lm_text(locale, cancellation_key(outcome))@),
{
    let key = match outcome {
        RevokeOutcome::Revoked => LmText::Cancelled,
        RevokeOutcome::Failed => LmText::PlanUnavailable,
        RevokeOutcome::InvalidId | RevokeOutcome::Unknown => LmText::ApprovalInvalid,
    };
    Response::plain_with_locale(locale, lm_text(locale, key))
}

/// What happens to a module that is registered already when its package is confirmed.
#[derive(Clone, Copy, Debug, PartialEq, Eq, Structural)]
pub enum RegisteredModules {
    Refuse,
    Update,
}

/// Where a confirmed installation stands.
#[derive(Clone, Copy, Debug, PartialEq, Eq, Structural)]
pub enum InstallStage {
    ReadingPlan,
    Redeeming,
    TakingStage,
    CheckingDeclarative,
    LoadingState,
    Installing,
    Registering,
    Updating,
    Finished,
}

/// What the caller is to do next.
pub enum InstallAction {
    /// Read the plan without using the approval up, and tell whether its module is registered.
    ReadPlan,
    /// Use the approval up.
    Redeem,
    /// Take over the staged package.
    TakeStage,
    /// Look whether the module is managed declaratively.
    CheckDeclarative,
    /// Look whether the module is enabled and which version is registered.
    LoadState,
    /// Install the staged package as a new module.
    InstallFresh,
    /// Register the installed module.
    Register,
    /// Stop the module and replace it with the staged package.
    Update,
    /// Nothing is left but to clean up the staged package, to start the module again, to look at the
    /// modules anew, each where it says so, and to answer.
    Finish { cleanup_stage: bool, restart: bool, refresh: bool, reply: InstallReply },
}

/// Why an approval could not be read or used.
#[derive(Clone, Copy, Debug, PartialEq, Eq, Structural)]
pub enum ApprovalFailure {
    /// There is no such approval.
    Unavailable,
    Failed,
}

/// Why a staged package could not be installed.
#[derive(Clone, Copy, Debug, PartialEq, Eq, Structural)]
pub enum InstallFailure {
    /// The half-installed module could not be removed.
    TargetCleanup,
    /// The installed module did not pass its checks.
    PostInstallValidation,
    Other,
}

/// A confirmed installation under way.
pub struct InstallConfirmation {
    pub stage: InstallStage,
    /// What happens to a module that is registered already.
    pub registered_modules: RegisteredModules,
    /// Whether module management is set up.
    pub control: bool,
    /// Whether there is a module runtime.
    pub manager: bool,
    pub module_id: String,
    pub version: String,
    pub was_enabled: bool,
    pub previous: Option<String>,
}

/// How a version change is told.
pub open spec fn version_change(previous: Seq<char>, version: Seq<char>) -> Seq<char> {
    "v"@ + previous + " → v"@ + version
}

/// The model of an [`InstallReply`].
pub enum ReplyView {
    Message(LmText),
    About { key: LmText, module_id: Seq<char> },
    Updated { module_id: Seq<char>, change: Seq<char> },
    UpdateFailed { module_id: Seq<char>, reason: Seq<char> },
}

impl View for InstallReply {
    type V = ReplyView;

    open spec fn view(&self) -> ReplyView {
        match *self {
            InstallReply::Message(key) => ReplyView::Message(key),
            InstallReply::About { key, module_id } => ReplyView::About {
                key,
                module_id: module_id@,
            },
            InstallReply::Updated { module_id, change } => ReplyView::Updated {
                module_id: module_id@,
                change: change@,
            },
            InstallReply::UpdateFailed { module_id, reason } => ReplyView::UpdateFailed {
                module_id: module_id@,
                reason: reason@,
            },
        }
    }
}

/// The model of an [`InstallAction`].
pub enum ActionView {
    ReadPlan,
    Redeem,
    TakeStage,
    CheckDeclarative,
    LoadState,
    InstallFresh,
    Register,
    Update,
    Finish { cleanup_stage: bool, restart: bool, refresh: bool, reply: ReplyView },
}

impl View for InstallAction {
    type V = ActionView;

    open spec fn view(&self) -> ActionView {
        match *self {
            InstallAction::ReadPlan => ActionView::ReadPlan,
            InstallAction::Redeem => ActionView::Redeem,
            InstallAction::TakeStage => ActionView::TakeStage,
            InstallAction::CheckDeclarative => ActionView::CheckDeclarative,
            InstallAction::LoadState => ActionView::LoadState,
            InstallAction::InstallFresh => ActionView::InstallFresh,
            InstallAction::Register => ActionView::Register,
            InstallAction::Update => ActionView::Update,
            InstallAction::Finish { cleanup_stage, restart, refresh, reply } =>
                ActionView::Finish { cleanup_stage, restart, refresh, reply: reply@ },
        }
    }
}

/// What the caller reports to an installation.
pub enum InstallEvent {
    /// The plan was read: whether its module is registered, or why it could not be read.
    PlanRead { module_id: Seq<char>, result: Result<bool, ApprovalFailure> },
    /// The approval was used up: the module and its version, or why it could not be used.
    Redeemed(Result<(Seq<char>, Seq<char>), ApprovalFailure>),
    /// Whether the staged package was taken over.
    StageTaken(bool),
    /// Whether the module is managed declaratively, where that could be found out.
    DeclarativeChecked(Option<bool>),
    /// Whether the module is enabled and which version is registered, where that could be found out.
    StateLoaded(Option<(bool, Option<Seq<char>>)>),
    /// Whether the new module was installed.
    Installed(Result<(), InstallFailure>),
    /// Whether the installed module could be registered.
    Registered(bool),
    /// The module was updated; the reason where that failed.
    Updated(Option<Seq<char>>),
}

/// The model of an [`InstallConfirmation`].
pub struct ConfirmationView {
    pub stage: InstallStage,
    pub registered_modules: RegisteredModules,
    pub control: bool,
    pub manager: bool,
    pub module_id: Seq<char>,
    pub version: Seq<char>,
    pub was_enabled: bool,
    pub previous: Option<Seq<char>>,
}

impl View for InstallConfirmation {
    type V = ConfirmationView;

    open spec fn view(&self) -> ConfirmationView {
        ConfirmationView {
            stage: self.stage,
            registered_modules: self.registered_modules,
            control: self.control,
            manager: self.manager,
            module_id: self.module_id@,
            version: self.version@,
            was_enabled: self.was_enabled,
            previous: super::upstream::optional(self.previous),
        }
    }
}

/// The end of an installation with a message; the staged package is cleaned up where it was taken
/// over.
pub open spec fn refusal(cleanup: bool, key: LmText) -> ActionView {
    ActionView::Finish {
        cleanup_stage: cleanup,
        restart: false,
        refresh: false,
        reply: ReplyView::Message(key),
    }
}

/// The end of an installation with a message about the module, after looking at the modules anew.
pub open spec fn conclusion(key: LmText, module_id: Seq<char>) -> ActionView {
    ActionView::Finish {
        cleanup_stage: false,
        restart: false,
        refresh: true,
        reply: ReplyView::About { key, module_id },
    }
}

impl ConfirmationView {
    /// The same installation at another stage.
    pub open spec fn at(self, stage: InstallStage) -> ConfirmationView {
        ConfirmationView { stage, ..self }
    }

    /// Whether declarations are looked at: where modules are managed, and a registered one was not
    /// refused already.
    pub open spec fn checks_declarations(self) -> bool {
        self.registered_modules == RegisteredModules::Update && self.control
    }

    /// What follows once the staged package was taken over and the module may be changed by hand. Only
    /// where modules are managed and run can a module be registered that was not refused already.
    pub open spec fn cleared(self) -> (ConfirmationView, ActionView) {
        if self.checks_declarations() && self.manager {
            (self.at(InstallStage::LoadingState), ActionView::LoadState)
        } else {
            (self.at(InstallStage::Installing), ActionView::InstallFresh)
        }
    }

    /// The installation and the next action once something was reported; nothing where the report is
    /// not the one that the stage waits for.
    pub open spec fn after(self, event: InstallEvent) -> Option<(ConfirmationView, ActionView)> {
        let finished = self.at(InstallStage::Finished);
        match (self.stage, event) {
            (InstallStage::ReadingPlan, InstallEvent::PlanRead { module_id, result }) => Some(
                match result {
                    Err(failure) => (finished, refusal(false, approval_failure_text(failure))),
                    Ok(registered) => if registered && self.manager {
                        (
                            finished,
                            ActionView::Finish {
                                cleanup_stage: false,
                                restart: false,
                                refresh: false,
                                reply: ReplyView::About {
                                    key: LmText::AlreadyRegistered,
                                    module_id,
                                },
                            },
                        )
                    } else {
                        (self.at(InstallStage::Redeeming), ActionView::Redeem)
                    },
                },
            ),
            (InstallStage::Redeeming, InstallEvent::Redeemed(result)) => Some(
                match result {
                    Err(failure) => (finished, refusal(false, approval_failure_text(failure))),
                    Ok((module_id, version)) => (
                        ConfirmationView {
                            module_id,
                            version,
                            ..self.at(InstallStage::TakingStage)
                        },
                        ActionView::TakeStage,
                    ),
                },
            ),
            (InstallStage::TakingStage, InstallEvent::StageTaken(taken)) => Some(
                if !taken {
                    (finished, refusal(false, LmText::VerifiedPackageUnavailable))
                } else if self.checks_declarations() {
                    (self.at(InstallStage::CheckingDeclarative), ActionView::CheckDeclarative)
                } else {
                    self.cleared()
                },
            ),
            (InstallStage::CheckingDeclarative, InstallEvent::DeclarativeChecked(managed)) => Some(
                match managed {
                    Some(true) => (finished, refusal(true, LmText::Declarative)),
                    None => (finished, refusal(true, LmText::PlanUnavailable)),
                    Some(false) => self.cleared(),
                },
            ),
            (InstallStage::LoadingState, InstallEvent::StateLoaded(state)) => Some(
                match state {
                    None => (finished, refusal(true, LmText::StateUnavailable)),
                    Some((was_enabled, previous)) => {
                        let known = ConfirmationView { was_enabled, previous, ..self };
                        if previous is Some {
                            (known.at(InstallStage::Updating), ActionView::Update)
                        } else {
                            (known.at(InstallStage::Installing), ActionView::InstallFresh)
                        }
                    },
                },
            ),
            (InstallStage::Installing, InstallEvent::Installed(result)) => Some(
                match result {
                    Err(failure) => (finished, refusal(true, install_failure_text(failure))),
                    Ok(()) => if self.manager {
                        (self.at(InstallStage::Registering), ActionView::Register)
                    } else {
                        (finished, conclusion(LmText::InstalledDisabled, self.module_id))
                    },
                },
            ),
            (InstallStage::Registering, InstallEvent::Registered(registered)) => Some(
                (
                    finished,
                    conclusion(
                        if registered {
                            LmText::InstalledDisabled
                        } else {
                            LmText::RegistrationConflict
                        },
                        self.module_id,
                    ),
                ),
            ),
            (InstallStage::Updating, InstallEvent::Updated(failure)) => match self.previous {
                Some(previous) => Some(
                    (
                        finished,
                        ActionView::Finish {
                            cleanup_stage: false,
                            restart: self.was_enabled,
                            refresh: true,
                            reply: match failure {
                                None => ReplyView::Updated {
                                    module_id: self.module_id,
                                    change: version_change(previous, self.version),
                                },
                                Some(reason) => ReplyView::UpdateFailed {
                                    module_id: self.module_id,
                                    reason,
                                },
                            },
                        },
                    ),
                ),
                None => None,
            },
            _ => None,
        }
    }
}

fn refuse(cleanup: bool, key: LmText) -> (action: InstallAction)
    ensures
        action@ == refusal(cleanup, key),
{
    InstallAction::Finish {
        cleanup_stage: cleanup,
        restart: false,
        refresh: false,
        reply: InstallReply::Message(key),
    }
}

/// The message of a failed installation.
#[verifier::allow_in_spec]
pub fn install_failure_text(failure: InstallFailure) -> LmText
    returns
        (match failure {
            InstallFailure::TargetCleanup => LmText::InstallRollbackFailed,
            InstallFailure::PostInstallValidation => LmText::InstallValidationFailed,
            InstallFailure::Other => LmText::InstallFailed,
        }),
{
    match failure {
        InstallFailure::TargetCleanup => LmText::InstallRollbackFailed,
        InstallFailure::PostInstallValidation => LmText::InstallValidationFailed,
        InstallFailure::Other => LmText::InstallFailed,
    }
}

/// The message of an approval that cannot be used.
#[verifier::allow_in_spec]
pub fn approval_failure_text(failure: ApprovalFailure) -> LmText
    returns
        (match failure {
            ApprovalFailure::Unavailable => LmText::ApprovalInvalid,
            ApprovalFailure::Failed => LmText::PlanUnavailable,
        }),
{
    match failure {
        ApprovalFailure::Unavailable => LmText::ApprovalInvalid,
        ApprovalFailure::Failed => LmText::PlanUnavailable,
    }
}

/// Whether an installation has just begun: registered modules are either looked for first, or the
/// approval is used up right away.
pub open spec fn begun(
    started: (InstallConfirmation, InstallAction),
    control: bool,
    manager: bool,
    registered_modules: RegisteredModules,
) -> bool {
    &&& started.0.registered_modules == registered_modules
    &&& started.0.control == control
    &&& started.0.manager == manager
    &&& !started.0.was_enabled
    &&& started.0.previous is None
    &&& match registered_modules {
        RegisteredModules::Refuse => started.0.stage == InstallStage::ReadingPlan && started.1
            is ReadPlan,
        RegisteredModules::Update => started.0.stage == InstallStage::Redeeming && started.1
            is Redeem,
    }
}

impl InstallConfirmation {
    /// Begins an installation that the owner confirmed with something that reads as an approval, or
    /// tells why not.
    pub fn begin(
        approval_id_valid: bool,
        installation: bool,
        control: bool,
        manager: bool,
        registered_modules: RegisteredModules,
    ) -> (result: Result<(Self, InstallAction), LmText>)
        ensures
            if !approval_id_valid {
                result == Err::<(Self, InstallAction), _>(LmText::ApprovalInvalid)
            } else if !installation {
                result == Err::<(Self, InstallAction), _>(LmText::InstallUnavailable)
            } else {
                result is Ok && begun(result->Ok_0, control, manager, registered_modules)
            },
    {
        if !approval_id_valid {
            return Err(LmText::ApprovalInvalid);
        }
        if !installation {
            return Err(LmText::InstallUnavailable);
        }
        let (stage, action) = match registered_modules {
            RegisteredModules::Refuse => (InstallStage::ReadingPlan, InstallAction::ReadPlan),
            RegisteredModules::Update => (InstallStage::Redeeming, InstallAction::Redeem),
        };
        Ok(
            (
                InstallConfirmation {
                    stage,
                    registered_modules,
                    control,
                    manager,
                    module_id: String::new(),
                    version: String::new(),
                    was_enabled: false,
                    previous: None,
                },
                action,
            ),
        )
    }

    /// Takes the plan of an approval that is not used up yet: a module that is registered already is
    /// refused, and the approval stays.
    pub fn plan_read(&mut self, module_id: String, result: Result<bool, ApprovalFailure>) -> (action:
        InstallAction)
        requires
            old(self).stage == InstallStage::ReadingPlan,
        ensures
            old(self)@.after(InstallEvent::PlanRead { module_id: module_id@, result }) == Some(
                (final(self)@, action@),
            ),
    {
        match result {
            Err(failure) => {
                self.stage = InstallStage::Finished;
                refuse(false, approval_failure_text(failure))
            },
            Ok(registered) => {
                if registered && self.manager {
                    self.stage = InstallStage::Finished;
                    InstallAction::Finish {
                        cleanup_stage: false,
                        restart: false,
                        refresh: false,
                        reply: InstallReply::About { key: LmText::AlreadyRegistered, module_id },
                    }
                } else {
                    self.stage = InstallStage::Redeeming;
                    InstallAction::Redeem
                }
            },
        }
    }

    /// Takes what came of using the approval up.
    pub fn redeemed(&mut self, result: Result<(String, String), ApprovalFailure>) -> (action:
        InstallAction)
        requires
            old(self).stage == InstallStage::Redeeming,
        ensures
            old(self)@.after(
                InstallEvent::Redeemed(
                    match result {
                        Ok((module_id, version)) => Ok((module_id@, version@)),
                        Err(failure) => Err(failure),
                    },
                ),
            ) == Some((final(self)@, action@)),
    {
        match result {
            Err(failure) => {
                self.stage = InstallStage::Finished;
                refuse(false, approval_failure_text(failure))
            },
            Ok((module_id, version)) => {
                self.module_id = module_id;
                self.version = version;
                self.stage = InstallStage::TakingStage;
                InstallAction::TakeStage
            },
        }
    }

    fn checks(&self) -> (yes: bool)
        ensures
            yes == self@.checks_declarations(),
    {
        match self.registered_modules {
            RegisteredModules::Update => self.control,
            RegisteredModules::Refuse => false,
        }
    }

    fn proceed(&mut self) -> (action: InstallAction)
        ensures
            (final(self)@, action@) == old(self)@.cleared(),
    {
        if self.checks() && self.manager {
            self.stage = InstallStage::LoadingState;
            InstallAction::LoadState
        } else {
            self.stage = InstallStage::Installing;
            InstallAction::InstallFresh
        }
    }

    /// Takes whether the staged package could be taken over.
    pub fn stage_taken(&mut self, taken: bool) -> (action: InstallAction)
        requires
            old(self).stage == InstallStage::TakingStage,
        ensures
            old(self)@.after(InstallEvent::StageTaken(taken)) == Some((final(self)@, action@)),
    {
        if !taken {
            self.stage = InstallStage::Finished;
            return refuse(false, LmText::VerifiedPackageUnavailable);
        }
        if self.checks() {
            self.stage = InstallStage::CheckingDeclarative;
            InstallAction::CheckDeclarative
        } else {
            self.proceed()
        }
    }

    /// Takes whether the module is managed declaratively. Such a module is not changed here, nor one
    /// of which that could not be found out.
    pub fn declarative_checked(&mut self, managed: Option<bool>) -> (action: InstallAction)
        requires
            old(self).stage == InstallStage::CheckingDeclarative,
        ensures
            old(self)@.after(InstallEvent::DeclarativeChecked(managed)) == Some(
                (final(self)@, action@),
            ),
    {
        match managed {
            Some(true) => {
                self.stage = InstallStage::Finished;
                refuse(true, LmText::Declarative)
            },
            None => {
                self.stage = InstallStage::Finished;
                refuse(true, LmText::PlanUnavailable)
            },
            Some(false) => self.proceed(),
        }
    }

    /// Takes whether the module is enabled and which version of it is registered. A registered module
    /// is updated; any other is installed.
    pub fn state_loaded(&mut self, state: Option<(bool, Option<String>)>) -> (action: InstallAction)
        requires
            old(self).stage == InstallStage::LoadingState,
        ensures
            old(self)@.after(
                InstallEvent::StateLoaded(
                    match state {
                        Some((enabled, registered)) => Some(
                            (enabled, super::upstream::optional(registered)),
                        ),
                        None => None,
                    },
                ),
            ) == Some((final(self)@, action@)),
    {
        match state {
            None => {
                self.stage = InstallStage::Finished;
                refuse(true, LmText::StateUnavailable)
            },
            Some((enabled, registered)) => {
                self.was_enabled = enabled;
                let update = registered.is_some();
                self.previous = registered;
                if update {
                    self.stage = InstallStage::Updating;
                    InstallAction::Update
                } else {
                    self.stage = InstallStage::Installing;
                    InstallAction::InstallFresh
                }
            },
        }
    }

    /// Takes what came of installing a new module.
    pub fn confirm_fresh_install(&mut self, result: Result<(), InstallFailure>) -> (action:
        InstallAction)
        requires
            old(self).stage == InstallStage::Installing,
        ensures
            old(self)@.after(InstallEvent::Installed(result)) == Some((final(self)@, action@)),
    {
        match result {
            Err(failure) => {
                self.stage = InstallStage::Finished;
                refuse(true, install_failure_text(failure))
            },
            Ok(()) => {
                if self.manager {
                    self.stage = InstallStage::Registering;
                    InstallAction::Register
                } else {
                    self.stage = InstallStage::Finished;
                    self.conclude(LmText::InstalledDisabled)
                }
            },
        }
    }

    fn conclude(&self, key: LmText) -> (action: InstallAction)
        ensures
            action@ == conclusion(key, self.module_id@),
    {
        InstallAction::Finish {
            cleanup_stage: false,
            restart: false,
            refresh: true,
            reply: InstallReply::About { key, module_id: self.module_id.clone() },
        }
    }

    /// Takes whether the installed module could be registered.
    pub fn registered(&mut self, registered: bool) -> (action: InstallAction)
        requires
            old(self).stage == InstallStage::Registering,
        ensures
            old(self)@.after(InstallEvent::Registered(registered)) == Some(
                (final(self)@, action@),
            ),
    {
        self.stage = InstallStage::Finished;
        if registered {
            self.conclude(LmText::InstalledDisabled)
        } else {
            self.conclude(LmText::RegistrationConflict)
        }
    }

    /// Takes what came of updating a module; `failure` is the reason where it failed. Either way the
    /// module is started again where it was enabled.
    pub fn confirm_update(&mut self, failure: Option<String>) -> (action: InstallAction)
        requires
            old(self).stage == InstallStage::Updating,
            old(self).previous is Some,
        ensures
            old(self)@.after(
                InstallEvent::Updated(super::upstream::optional(failure)),
            ) == Some((final(self)@, action@)),
    {
        self.stage = InstallStage::Finished;
        let module_id = self.module_id.clone();
        let reply = match failure {
            Some(reason) => InstallReply::UpdateFailed { module_id, reason },
            None => {
                let mut change = "v".to_owned();
                if let Some(previous) = &self.previous {
                    change.append(previous.as_str());
                }
                change.append(" → v");
                change.append(self.version.as_str());
                InstallReply::Updated { module_id, change }
            },
        };
        InstallAction::Finish {
            cleanup_stage: false,
            restart: self.was_enabled,
            refresh: true,
            reply,
        }
    }
}

/// An installation after some reports, each of which its stage waited for; nothing where one was not.
pub open spec fn reported(start: ConfirmationView, events: Seq<InstallEvent>) -> Option<
    ConfirmationView,
>
    decreases events.len(),
{
    if events.len() == 0 {
        Some(start)
    } else {
        match reported(start, events.drop_last()) {
            Some(state) => match state.after(events.last()) {
                Some((next, _)) => Some(next),
                None => None,
            },
            None => None,
        }
    }
}

/// Whether the approval was used up.
pub open spec fn was_redeemed(events: Seq<InstallEvent>) -> bool {
    exists|i: int|
        0 <= i < events.len() && (#[trigger] events[i] matches InstallEvent::Redeemed(result)
            && result is Ok)
}

/// Whether the staged package was taken over.
pub open spec fn was_taken(events: Seq<InstallEvent>) -> bool {
    exists|i: int| 0 <= i < events.len() && #[trigger] events[i] == InstallEvent::StageTaken(true)
}

/// Whether the module was found not to be managed declaratively.
pub open spec fn was_cleared(events: Seq<InstallEvent>) -> bool {
    exists|i: int|
        0 <= i < events.len() && #[trigger] events[i] == InstallEvent::DeclarativeChecked(
            Some(false),
        )
}

/// Whether a module is being changed.
pub open spec fn changes_modules(stage: InstallStage) -> bool {
    stage == InstallStage::Installing || stage == InstallStage::Updating || stage
        == InstallStage::Registering
}

proof fn lemma_progress(start: ConfirmationView, events: Seq<InstallEvent>)
    requires
        start.stage == InstallStage::ReadingPlan || start.stage == InstallStage::Redeeming,
        reported(start, events) is Some,
    ensures
        ({
            let state = reported(start, events)->0;
            &&& state.registered_modules == start.registered_modules
            &&& state.control == start.control
            &&& state.manager == start.manager
            &&& changes_modules(state.stage) || state.stage == InstallStage::LoadingState ==> {
                &&& was_redeemed(events)
                &&& was_taken(events)
                &&& start.checks_declarations() ==> was_cleared(events)
            }
            &&& state.stage == InstallStage::CheckingDeclarative ==> was_redeemed(events)
                && was_taken(events)
            &&& state.stage == InstallStage::TakingStage ==> was_redeemed(events)
            &&& state.stage == InstallStage::Updating ==> state.previous is Some
        }),
    decreases events.len(),
{
    if events.len() > 0 {
        let earlier = events.drop_last();
        lemma_progress(start, earlier);
        assert forall|i: int| 0 <= i < earlier.len() implies #[trigger] earlier[i] == events[i] by {}
        if was_redeemed(earlier) {
            let i = choose|i: int|
                0 <= i < earlier.len() && (#[trigger] earlier[i] matches InstallEvent::Redeemed(
                    result,
                ) && result is Ok);
            assert(events[i] == earlier[i]);
        }
        if was_taken(earlier) {
            let i = choose|i: int|
                0 <= i < earlier.len() && #[trigger] earlier[i] == InstallEvent::StageTaken(true);
            assert(events[i] == earlier[i]);
        }
        if was_cleared(earlier) {
            let i = choose|i: int|
                0 <= i < earlier.len() && #[trigger] earlier[i]
                    == InstallEvent::DeclarativeChecked(Some(false));
            assert(events[i] == earlier[i]);
        }
        assert(events[events.len() - 1] == events.last());
    }
}

/// A module is installed or updated only after its approval was used up, its verified package was taken
/// over and, where declarations are looked at, it was found not to be managed declaratively.
pub proof fn modules_change_only_with_approval(start: ConfirmationView, events: Seq<InstallEvent>)
    requires
        start.stage == InstallStage::ReadingPlan || start.stage == InstallStage::Redeeming,
        reported(start, events) matches Some(state) && changes_modules(state.stage),
    ensures
        was_redeemed(events),
        was_taken(events),
        start.checks_declarations() ==> was_cleared(events),
{
    lemma_progress(start, events);
}

/// Where registered modules are refused, none is updated: once the package was taken over, it is
/// installed.
pub proof fn refusing_never_updates(start: ConfirmationView, events: Seq<InstallEvent>)
    requires
        start.stage == InstallStage::ReadingPlan || start.stage == InstallStage::Redeeming,
        start.registered_modules == RegisteredModules::Refuse,
    ensures
        reported(start, events) matches Some(state) ==> state.stage != InstallStage::Updating
            && state.stage != InstallStage::CheckingDeclarative && state.stage
            != InstallStage::LoadingState && state.registered_modules == RegisteredModules::Refuse,
    decreases events.len(),
{
    if events.len() > 0 {
        refusing_never_updates(start, events.drop_last());
    }
}

/// An installation that is refused while it holds the staged package cleans the package up.
pub proof fn refusals_clean_up(state: ConfirmationView, event: InstallEvent)
    requires
        state.stage == InstallStage::CheckingDeclarative || state.stage
            == InstallStage::LoadingState || state.stage == InstallStage::Installing,
    ensures
        state.after(event) matches Some((_, ActionView::Finish { cleanup_stage, reply, .. })) ==> (
        cleanup_stage <==> reply is Message),
{
}

impl super::RuntimeState {
    /// The answer to a request to install the attached package; nothing is inspected where modules
    /// cannot be installed.
    pub fn inspect_module_install(&self, words: &UpdateWords<'_>, outcome: InspectionOutcome) -> (response:
        Response)
        ensures
            response@ == response::plain_view(
                self.settings.language(),
                inspection_text(
                    self.settings.language(),
                    self.settings.prefix@,
                    *words,
                    if self.module_installation is Some {
                        outcome
                    } else {
                        InspectionOutcome::InstallUnavailable
                    },
                ),
            ),
    {
        let outcome = if self.module_installation.is_some() {
            outcome
        } else {
            InspectionOutcome::InstallUnavailable
        };
        inspect_module_install(self.locale(), self.prefix(), words, outcome)
    }

    /// Begins an installation that the owner confirmed, or tells why not.
    pub fn confirm_module_install(
        &self,
        approval_id_valid: bool,
        registered_modules: RegisteredModules,
    ) -> (result: Result<(InstallConfirmation, InstallAction), Response>)
        ensures
            ({
                let locale = self.settings.language();
                if !approval_id_valid {
                    result is Err && result->Err_0@ == response::plain_view(
                        locale,
                        lm_text(locale, LmText::ApprovalInvalid)@,
                    )
                } else if self.module_installation is None {
                    result is Err && result->Err_0@ == response::plain_view(
                        locale,
                        lm_text(locale, LmText::InstallUnavailable)@,
                    )
                } else {
                    &&& result is Ok
                    &&& begun(
                        result->Ok_0,
                        self.module_control is Some,
                        self.external_manager,
                        registered_modules,
                    )
                }
            }),
    {
        let locale = self.locale();
        match InstallConfirmation::begin(
            approval_id_valid,
            self.module_installation.is_some(),
            self.module_control.is_some(),
            self.external_manager,
            registered_modules,
        ) {
            Ok(started) => Ok(started),
            Err(key) => Err(Response::plain_with_locale(locale, lm_text(locale, key))),
        }
    }

    /// The answer to a request to cancel an installation.
    pub fn cancel_module_install(&self, outcome: RevokeOutcome) -> (response: Response)
        ensures
            response@ == response::plain_view(
                self.settings.language(),
                lm_text(self.settings.language(), cancellation_key(outcome))@,
            ),
    {
        cancel_module_install(self.locale(), outcome)
    }
}

} // verus!
