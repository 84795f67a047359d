//! Messages on languages, the tutorial, prefixes, aliases and privileged commands.
use super::Locale;
use vstd::prelude::*;

verus! {

/// Language, tutorial and authorization messages.
#[derive(Clone, Copy, Debug, PartialEq, Eq, Structural)]
pub enum Text {
    LanguageChoose,
    LanguageCurrent,
    LanguageChanged,
    LanguageUsage,
    OnboardingSelect,
    OnboardingIntro,
    OnboardingPrefix,
    OnboardingPing,
    OnboardingHelp,
    OnboardingModules,
    OnboardingExternal,
    OnboardingCompanion,
    OnboardingDone,
    OnboardingSkipped,
    StartUsage,
    PostAuthInvite,
    PostAuthFallback,
    LanguageSaveFailed,
    OnboardingSaveFailed,
}

/// The language, tutorial or authorization message `key`.
#[verifier::allow_in_spec]
pub fn text(locale: Locale, key: Text) -> &'static str
    returns
        (match (locale, key) {
            (Locale::English, Text::LanguageChoose) => "Choose language: en or ru.",
            (Locale::Russian, Text::LanguageChoose) => "Выберите язык: en или ru.",
            (Locale::English, Text::LanguageCurrent) => "Current language",
            (Locale::Russian, Text::LanguageCurrent) => "Текущий язык",
            (Locale::English, Text::LanguageChanged) => "Language saved",
            (Locale::Russian, Text::LanguageChanged) => "Язык сохранён",
            (Locale::English, Text::LanguageUsage) => "Usage: language [en|ru]",
            (Locale::Russian, Text::LanguageUsage) => "Использование: language [en|ru]",
            (Locale::English, Text::OnboardingSelect) => "Welcome to Lavis. Choose: {prefix}start en or {prefix}start ru.",
            (Locale::Russian, Text::OnboardingSelect) => "Добро пожаловать в Lavis. Выберите: {prefix}start en или {prefix}start ru.",
            (Locale::English, Text::OnboardingIntro) => "Welcome! Lavis accepts your own outgoing commands.",
            (Locale::Russian, Text::OnboardingIntro) => "Добро пожаловать! Lavis принимает только ваши исходящие команды.",
            (Locale::English, Text::OnboardingPrefix) => "Commands start with {prefix}. Change it with {prefix}prefix.",
            (Locale::Russian, Text::OnboardingPrefix) => "Команды начинаются с {prefix}. Изменить его: {prefix}prefix.",
            (Locale::English, Text::OnboardingPing) => "Check Telegram latency with {prefix}ping.",
            (Locale::Russian, Text::OnboardingPing) => "Проверьте задержку Telegram: {prefix}ping.",
            (Locale::English, Text::OnboardingHelp) => "Browse every built-in command with {prefix}help.",
            (Locale::Russian, Text::OnboardingHelp) => "Откройте встроенные команды: {prefix}help.",
            (Locale::English, Text::OnboardingModules) => "Built-in modules are listed by {prefix}modules.",
            (Locale::Russian, Text::OnboardingModules) => "Встроенные модули покажет {prefix}modules.",
            (Locale::English, Text::OnboardingExternal) => "External modules run code: inspect and confirm them carefully with {prefix}lm.",
            (Locale::Russian, Text::OnboardingExternal) => "Внешние модули запускают код: внимательно проверяйте их через {prefix}lm.",
            (Locale::English, Text::OnboardingCompanion) => "A companion bot creates and maintains the private forum workspace after confirmation. Start the single safe flow with {prefix}start bot.",
            (Locale::Russian, Text::OnboardingCompanion) => "Companion-бот после подтверждения создаёт и поддерживает приватное форум-пространство. Единый безопасный запуск: {prefix}start bot.",
            (Locale::English, Text::OnboardingDone) => "Tutorial complete. Restart it anytime with {prefix}start.",
            (Locale::Russian, Text::OnboardingDone) => "Обучение завершено. Перезапустить его можно: {prefix}start.",
            (Locale::English, Text::OnboardingSkipped) => "Tutorial skipped. Restart it anytime with {prefix}start.",
            (Locale::Russian, Text::OnboardingSkipped) => "Обучение пропущено. Перезапустить его можно: {prefix}start.",
            (Locale::English, Text::StartUsage) => "Usage: {prefix}start [en|ru|skip|bot]",
            (Locale::Russian, Text::StartUsage) => "Использование: {prefix}start [en|ru|skip|bot]",
            (Locale::English, Text::PostAuthInvite) => "Authorization complete. Send {prefix}start to begin your Lavis tutorial.",
            (Locale::Russian, Text::PostAuthInvite) => "Авторизация завершена. Отправьте {prefix}start, чтобы начать обучение Lavis.",
            (Locale::English, Text::PostAuthFallback) => "Could not send the Telegram invitation.",
            (Locale::Russian, Text::PostAuthFallback) => "Не удалось отправить приглашение в Telegram.",
            (Locale::English, Text::LanguageSaveFailed) => "⚠️ Could not save language.",
            (Locale::Russian, Text::LanguageSaveFailed) => "⚠️ Не удалось сохранить язык.",
            (Locale::English, Text::OnboardingSaveFailed) => "⚠️ Could not save tutorial progress.",
            (Locale::Russian, Text::OnboardingSaveFailed) => "⚠️ Не удалось сохранить прогресс обучения.",
        }),
{
    match (locale, key) {
        (Locale::English, Text::LanguageChoose) => "Choose language: en or ru.",
        (Locale::Russian, Text::LanguageChoose) => "Выберите язык: en или ru.",
        (Locale::English, Text::LanguageCurrent) => "Current language",
        (Locale::Russian, Text::LanguageCurrent) => "Текущий язык",
        (Locale::English, Text::LanguageChanged) => "Language saved",
        (Locale::Russian, Text::LanguageChanged) => "Язык сохранён",
        (Locale::English, Text::LanguageUsage) => "Usage: language [en|ru]",
        (Locale::Russian, Text::LanguageUsage) => "Использование: language [en|ru]",
        (Locale::English, Text::OnboardingSelect) => "Welcome to Lavis. Choose: {prefix}start en or {prefix}start ru.",
        (Locale::Russian, Text::OnboardingSelect) => "Добро пожаловать в Lavis. Выберите: {prefix}start en или {prefix}start ru.",
        (Locale::English, Text::OnboardingIntro) => "Welcome! Lavis accepts your own outgoing commands.",
        (Locale::Russian, Text::OnboardingIntro) => "Добро пожаловать! Lavis принимает только ваши исходящие команды.",
        (Locale::English, Text::OnboardingPrefix) => "Commands start with {prefix}. Change it with {prefix}prefix.",
        (Locale::Russian, Text::OnboardingPrefix) => "Команды начинаются с {prefix}. Изменить его: {prefix}prefix.",
        (Locale::English, Text::OnboardingPing) => "Check Telegram latency with {prefix}ping.",
        (Locale::Russian, Text::OnboardingPing) => "Проверьте задержку Telegram: {prefix}ping.",
        (Locale::English, Text::OnboardingHelp) => "Browse every built-in command with {prefix}help.",
        (Locale::Russian, Text::OnboardingHelp) => "Откройте встроенные команды: {prefix}help.",
        (Locale::English, Text::OnboardingModules) => "Built-in modules are listed by {prefix}modules.",
        (Locale::Russian, Text::OnboardingModules) => "Встроенные модули покажет {prefix}modules.",
        (Locale::English, Text::OnboardingExternal) => "External modules run code: inspect and confirm them carefully with {prefix}lm.",
        (Locale::Russian, Text::OnboardingExternal) => "Внешние модули запускают код: внимательно проверяйте их через {prefix}lm.",
        (Locale::English, Text::OnboardingCompanion) => "A companion bot creates and maintains the private forum workspace after confirmation. Start the single safe flow with {prefix}start bot.",
        (Locale::Russian, Text::OnboardingCompanion) => "Companion-бот после подтверждения создаёт и поддерживает приватное форум-пространство. Единый безопасный запуск: {prefix}start bot.",
        (Locale::English, Text::OnboardingDone) => "Tutorial complete. Restart it anytime with {prefix}start.",
        (Locale::Russian, Text::OnboardingDone) => "Обучение завершено. Перезапустить его можно: {prefix}start.",
        (Locale::English, Text::OnboardingSkipped) => "Tutorial skipped. Restart it anytime with {prefix}start.",
        (Locale::Russian, Text::OnboardingSkipped) => "Обучение пропущено. Перезапустить его можно: {prefix}start.",
        (Locale::English, Text::StartUsage) => "Usage: {prefix}start [en|ru|skip|bot]",
        (Locale::Russian, Text::StartUsage) => "Использование: {prefix}start [en|ru|skip|bot]",
        (Locale::English, Text::PostAuthInvite) => "Authorization complete. Send {prefix}start to begin your Lavis tutorial.",
        (Locale::Russian, Text::PostAuthInvite) => "Авторизация завершена. Отправьте {prefix}start, чтобы начать обучение Lavis.",
        (Locale::English, Text::PostAuthFallback) => "Could not send the Telegram invitation.",
        (Locale::Russian, Text::PostAuthFallback) => "Не удалось отправить приглашение в Telegram.",
        (Locale::English, Text::LanguageSaveFailed) => "⚠️ Could not save language.",
        (Locale::Russian, Text::LanguageSaveFailed) => "⚠️ Не удалось сохранить язык.",
        (Locale::English, Text::OnboardingSaveFailed) => "⚠️ Could not save tutorial progress.",
        (Locale::Russian, Text::OnboardingSaveFailed) => "⚠️ Не удалось сохранить прогресс обучения.",
    }
}

/// Short runtime statuses.
#[derive(Clone, Copy, Debug, PartialEq, Eq, Structural)]
pub enum RuntimeText {
    PingFailed,
    Rebooting,
    LmUnavailable,
    LmStateUnavailable,
    LmListUnavailable,
}

/// The runtime status `key`.
#[verifier::allow_in_spec]
pub fn runtime_text(locale: Locale, key: RuntimeText) -> &'static str
    returns
        (match (locale, key) {
            (Locale::English, RuntimeText::PingFailed) => "⚠️ Telegram ping failed",
            (Locale::Russian, RuntimeText::PingFailed) => "⚠️ Не удалось выполнить Telegram ping",
            (Locale::English, RuntimeText::Rebooting) => "♻️ Lavis is restarting…",
            (Locale::Russian, RuntimeText::Rebooting) => "♻️ Lavis перезапускается…",
            (Locale::English, RuntimeText::LmUnavailable) => "⚠️ External module management is unavailable.",
            (Locale::Russian, RuntimeText::LmUnavailable) => "⚠️ Управление внешними модулями недоступно.",
            (Locale::English, RuntimeText::LmStateUnavailable) => "⚠️ External module state is unavailable.",
            (Locale::Russian, RuntimeText::LmStateUnavailable) => "⚠️ Состояние внешних модулей недоступно.",
            (Locale::English, RuntimeText::LmListUnavailable) => "⚠️ Could not read the external module list.",
            (Locale::Russian, RuntimeText::LmListUnavailable) => "⚠️ Не удалось прочитать список внешних модулей.",
        }),
{
    match (locale, key) {
        (Locale::English, RuntimeText::PingFailed) => "⚠️ Telegram ping failed",
        (Locale::Russian, RuntimeText::PingFailed) => "⚠️ Не удалось выполнить Telegram ping",
        (Locale::English, RuntimeText::Rebooting) => "♻️ Lavis is restarting…",
        (Locale::Russian, RuntimeText::Rebooting) => "♻️ Lavis перезапускается…",
        (Locale::English, RuntimeText::LmUnavailable) => "⚠️ External module management is unavailable.",
        (Locale::Russian, RuntimeText::LmUnavailable) => "⚠️ Управление внешними модулями недоступно.",
        (Locale::English, RuntimeText::LmStateUnavailable) => "⚠️ External module state is unavailable.",
        (Locale::Russian, RuntimeText::LmStateUnavailable) => "⚠️ Состояние внешних модулей недоступно.",
        (Locale::English, RuntimeText::LmListUnavailable) => "⚠️ Could not read the external module list.",
        (Locale::Russian, RuntimeText::LmListUnavailable) => "⚠️ Не удалось прочитать список внешних модулей.",
    }
}

/// Restart confirmation messages.
#[derive(Clone, Copy, Debug, PartialEq, Eq, Structural)]
pub enum RebootText {
    Pending,
    ReceiptLookupFailed,
    ReceiptPreparationFailed,
    StartFailed,
    ReceiptArmFailed,
    Completed,
}

/// The template of a restart message; `{elapsed}` stands for the seconds taken.
#[verifier::allow_in_spec]
pub fn reboot_template(locale: Locale, key: RebootText) -> &'static str
    returns
        (match (locale, key) {
            (Locale::English, RebootText::Pending) => "⚠️ A previous restart confirmation is still pending.",
            (Locale::Russian, RebootText::Pending) => "⚠️ Уже ожидается подтверждение предыдущего перезапуска.",
            (Locale::English, RebootText::ReceiptLookupFailed) => "⚠️ Could not check the restart confirmation.",
            (Locale::Russian, RebootText::ReceiptLookupFailed) => "⚠️ Не удалось проверить подтверждение перезапуска.",
            (Locale::English, RebootText::ReceiptPreparationFailed) => "⚠️ Could not prepare the restart confirmation.",
            (Locale::Russian, RebootText::ReceiptPreparationFailed) => "⚠️ Не удалось подготовить подтверждение перезапуска.",
            (Locale::English, RebootText::StartFailed) => "⚠️ Could not start the restart; Lavis is still running.",
            (Locale::Russian, RebootText::StartFailed) => "⚠️ Не удалось начать перезапуск; Lavis продолжает работу.",
            (Locale::English, RebootText::ReceiptArmFailed) => "⚠️ Could not save the restart confirmation; Lavis is still running.",
            (Locale::Russian, RebootText::ReceiptArmFailed) => "⚠️ Не удалось сохранить подтверждение перезапуска; Lavis продолжает работу.",
            (Locale::English, RebootText::Completed) => "✅ Lavis restarted\n\nRestart time: {elapsed} s",
            (Locale::Russian, RebootText::Completed) => "✅ Lavis перезагрузился\n\nВремя перезагрузки: {elapsed} с",
        }),
{
    match (locale, key) {
        (Locale::English, RebootText::Pending) => "⚠️ A previous restart confirmation is still pending.",
        (Locale::Russian, RebootText::Pending) => "⚠️ Уже ожидается подтверждение предыдущего перезапуска.",
        (Locale::English, RebootText::ReceiptLookupFailed) => "⚠️ Could not check the restart confirmation.",
        (Locale::Russian, RebootText::ReceiptLookupFailed) => "⚠️ Не удалось проверить подтверждение перезапуска.",
        (Locale::English, RebootText::ReceiptPreparationFailed) => "⚠️ Could not prepare the restart confirmation.",
        (Locale::Russian, RebootText::ReceiptPreparationFailed) => "⚠️ Не удалось подготовить подтверждение перезапуска.",
        (Locale::English, RebootText::StartFailed) => "⚠️ Could not start the restart; Lavis is still running.",
        (Locale::Russian, RebootText::StartFailed) => "⚠️ Не удалось начать перезапуск; Lavis продолжает работу.",
        (Locale::English, RebootText::ReceiptArmFailed) => "⚠️ Could not save the restart confirmation; Lavis is still running.",
        (Locale::Russian, RebootText::ReceiptArmFailed) => "⚠️ Не удалось сохранить подтверждение перезапуска; Lavis продолжает работу.",
        (Locale::English, RebootText::Completed) => "✅ Lavis restarted\n\nRestart time: {elapsed} s",
        (Locale::Russian, RebootText::Completed) => "✅ Lavis перезагрузился\n\nВремя перезагрузки: {elapsed} с",
    }
}

/// Command prefix messages.
#[derive(Clone, Copy, Debug, PartialEq, Eq, Structural)]
pub enum PrefixText {
    Current,
    Changed,
    ChangeFailed,
    Reset,
    ResetFailed,
    Usage,
}

/// The prefix message `key`.
#[verifier::allow_in_spec]
pub fn prefix_text(locale: Locale, key: PrefixText) -> &'static str
    returns
        (match (locale, key) {
            (Locale::English, PrefixText::Current) => "⚙️ Active prefix: {prefix}",
            (Locale::Russian, PrefixText::Current) => "⚙️ Текущий префикс: {prefix}",
            (Locale::English, PrefixText::Changed) => "⚙️ Command prefix set: {prefix}",
            (Locale::Russian, PrefixText::Changed) => "⚙️ Префикс команд изменён: {prefix}",
            (Locale::English, PrefixText::ChangeFailed) => "⚠️ Could not change prefix.",
            (Locale::Russian, PrefixText::ChangeFailed) => "⚠️ Не удалось изменить префикс.",
            (Locale::English, PrefixText::Reset) => "⚙️ Command prefix reset: {prefix}",
            (Locale::Russian, PrefixText::Reset) => "⚙️ Префикс сброшен: {prefix}",
            (Locale::English, PrefixText::ResetFailed) => "⚠️ Could not reset prefix.",
            (Locale::Russian, PrefixText::ResetFailed) => "⚠️ Не удалось сбросить префикс.",
            (Locale::English, PrefixText::Usage) => "⚠️ Usage: {prefix}prefix [new-prefix|reset]",
            (Locale::Russian, PrefixText::Usage) => "⚠️ Использование: {prefix}prefix [new-prefix|reset]",
        }),
{
    match (locale, key) {
        (Locale::English, PrefixText::Current) => "⚙️ Active prefix: {prefix}",
        (Locale::Russian, PrefixText::Current) => "⚙️ Текущий префикс: {prefix}",
        (Locale::English, PrefixText::Changed) => "⚙️ Command prefix set: {prefix}",
        (Locale::Russian, PrefixText::Changed) => "⚙️ Префикс команд изменён: {prefix}",
        (Locale::English, PrefixText::ChangeFailed) => "⚠️ Could not change prefix.",
        (Locale::Russian, PrefixText::ChangeFailed) => "⚠️ Не удалось изменить префикс.",
        (Locale::English, PrefixText::Reset) => "⚙️ Command prefix reset: {prefix}",
        (Locale::Russian, PrefixText::Reset) => "⚙️ Префикс сброшен: {prefix}",
        (Locale::English, PrefixText::ResetFailed) => "⚠️ Could not reset prefix.",
        (Locale::Russian, PrefixText::ResetFailed) => "⚠️ Не удалось сбросить префикс.",
        (Locale::English, PrefixText::Usage) => "⚠️ Usage: {prefix}prefix [new-prefix|reset]",
        (Locale::Russian, PrefixText::Usage) => "⚠️ Использование: {prefix}prefix [new-prefix|reset]",
    }
}

/// Command alias messages.
#[derive(Clone, Copy, Debug, PartialEq, Eq, Structural)]
pub enum AliasText {
    Empty,
    List,
    ListItem,
    Added,
    AddFailed,
    Deleted,
    NotFound,
    DeleteFailed,
    DoesNotExist,
    ShowHeading,
    Target,
    Usage,
}

/// The alias message `key`.
#[verifier::allow_in_spec]
pub fn alias_text(locale: Locale, key: AliasText) -> &'static str
    returns
        (match (locale, key) {
            (Locale::English, AliasText::Empty) => "🔗 No aliases configured",
            (Locale::Russian, AliasText::Empty) => "🔗 Псевдонимы не настроены",
            (Locale::English, AliasText::List) => "🔗 Aliases\n\n{items}",
            (Locale::Russian, AliasText::List) => "🔗 Псевдонимы\n\n{items}",
            (Locale::English, AliasText::ListItem) => "{prefix}{name} → {prefix}{target}{args}",
            (Locale::Russian, AliasText::ListItem) => "{prefix}{name} → {prefix}{target}{args}",
            (Locale::English, AliasText::Added) => "🔗 Added alias: {prefix}{name}",
            (Locale::Russian, AliasText::Added) => "🔗 Добавлен псевдоним: {prefix}{name}",
            (Locale::English, AliasText::AddFailed) => "⚠️ Could not add alias.",
            (Locale::Russian, AliasText::AddFailed) => "⚠️ Не удалось добавить псевдоним.",
            (Locale::English, AliasText::Deleted) => "🔗 Deleted alias: {prefix}{name}",
            (Locale::Russian, AliasText::Deleted) => "🔗 Псевдоним удалён: {prefix}{name}",
            (Locale::English, AliasText::NotFound) => "❓ Alias not found: {name}",
            (Locale::Russian, AliasText::NotFound) => "❓ Псевдоним не найден: {name}",
            (Locale::English, AliasText::DeleteFailed) => "⚠️ Could not delete alias.",
            (Locale::Russian, AliasText::DeleteFailed) => "⚠️ Не удалось удалить псевдоним.",
            (Locale::English, AliasText::DoesNotExist) => "⚠️ Alias does not exist: {prefix}{name}",
            (Locale::Russian, AliasText::DoesNotExist) => "⚠️ Псевдоним не существует: {prefix}{name}",
            (Locale::English, AliasText::ShowHeading) => "🔗 {prefix}{name}",
            (Locale::Russian, AliasText::ShowHeading) => "🔗 {prefix}{name}",
            (Locale::English, AliasText::Target) => "Alias for:\n{prefix}{target}{args}",
            (Locale::Russian, AliasText::Target) => "Псевдоним для:\n{prefix}{target}{args}",
            (Locale::English, AliasText::Usage) => "⚠️ Usage: {prefix}alias [list|add <name> <command> [arguments...]|show <name>|del <name>]",
            (Locale::Russian, AliasText::Usage) => "⚠️ Использование: {prefix}alias [list|add <name> <command> [arguments...]|show <name>|del <name>]",
        }),
{
    match (locale, key) {
        (Locale::English, AliasText::Empty) => "🔗 No aliases configured",
        (Locale::Russian, AliasText::Empty) => "🔗 Псевдонимы не настроены",
        (Locale::English, AliasText::List) => "🔗 Aliases\n\n{items}",
        (Locale::Russian, AliasText::List) => "🔗 Псевдонимы\n\n{items}",
        (Locale::English, AliasText::ListItem) => "{prefix}{name} → {prefix}{target}{args}",
        (Locale::Russian, AliasText::ListItem) => "{prefix}{name} → {prefix}{target}{args}",
        (Locale::English, AliasText::Added) => "🔗 Added alias: {prefix}{name}",
        (Locale::Russian, AliasText::Added) => "🔗 Добавлен псевдоним: {prefix}{name}",
        (Locale::English, AliasText::AddFailed) => "⚠️ Could not add alias.",
        (Locale::Russian, AliasText::AddFailed) => "⚠️ Не удалось добавить псевдоним.",
        (Locale::English, AliasText::Deleted) => "🔗 Deleted alias: {prefix}{name}",
        (Locale::Russian, AliasText::Deleted) => "🔗 Псевдоним удалён: {prefix}{name}",
        (Locale::English, AliasText::NotFound) => "❓ Alias not found: {name}",
        (Locale::Russian, AliasText::NotFound) => "❓ Псевдоним не найден: {name}",
        (Locale::English, AliasText::DeleteFailed) => "⚠️ Could not delete alias.",
        (Locale::Russian, AliasText::DeleteFailed) => "⚠️ Не удалось удалить псевдоним.",
        (Locale::English, AliasText::DoesNotExist) => "⚠️ Alias does not exist: {prefix}{name}",
        (Locale::Russian, AliasText::DoesNotExist) => "⚠️ Псевдоним не существует: {prefix}{name}",
        (Locale::English, AliasText::ShowHeading) => "🔗 {prefix}{name}",
        (Locale::Russian, AliasText::ShowHeading) => "🔗 {prefix}{name}",
        (Locale::English, AliasText::Target) => "Alias for:\n{prefix}{target}{args}",
        (Locale::Russian, AliasText::Target) => "Псевдоним для:\n{prefix}{target}{args}",
        (Locale::English, AliasText::Usage) => "⚠️ Usage: {prefix}alias [list|add <name> <command> [arguments...]|show <name>|del <name>]",
        (Locale::Russian, AliasText::Usage) => "⚠️ Использование: {prefix}alias [list|add <name> <command> [arguments...]|show <name>|del <name>]",
    }
}

/// Refusals of privileged commands.
#[derive(Clone, Copy, Debug, PartialEq, Eq, Structural)]
pub enum SensitiveText {
    RebootDenied,
    ModuleMutationDenied,
}

/// The refusal `key`.
#[verifier::allow_in_spec]
pub fn sensitive_text(locale: Locale, key: SensitiveText) -> &'static str
    returns
        (match (locale, key) {
            (Locale::English, SensitiveText::RebootDenied) => "⚠️ Restart is available only from a new self-authored message.",
            (Locale::Russian, SensitiveText::RebootDenied) => "⚠️ Перезапуск доступен только из нового собственного сообщения.",
            (Locale::English, SensitiveText::ModuleMutationDenied) => "⚠️ This module operation is available only from a new self-authored message in Saved Messages.",
            (Locale::Russian, SensitiveText::ModuleMutationDenied) => "⚠️ Эта операция с модулями доступна только из нового собственного сообщения в Saved Messages.",
        }),
{
    match (locale, key) {
        (Locale::English, SensitiveText::RebootDenied) => "⚠️ Restart is available only from a new self-authored message.",
        (Locale::Russian, SensitiveText::RebootDenied) => "⚠️ Перезапуск доступен только из нового собственного сообщения.",
        (Locale::English, SensitiveText::ModuleMutationDenied) => "⚠️ This module operation is available only from a new self-authored message in Saved Messages.",
        (Locale::Russian, SensitiveText::ModuleMutationDenied) => "⚠️ Эта операция с модулями доступна только из нового собственного сообщения в Saved Messages.",
    }
}

} // verus!
