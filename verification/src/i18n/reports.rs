//! Frames of responses, reports and external command results.
use super::Locale;
use vstd::prelude::*;

verus! {

/// Lavis-owned response presentation text. Content supplied by external
/// modules is intentionally not included here.
#[derive(Clone, Copy, Debug, PartialEq, Eq, Structural)]
pub enum ResponseText {
    Truncated,
    DocumentationTruncated,
    ExternalModuleProvenance,
}

/// The response frame `key`.
#[verifier::allow_in_spec]
pub fn response_text(locale: Locale, key: ResponseText) -> &'static str
    returns
        (match (locale, key) {
            (Locale::English, ResponseText::Truncated) => "… output truncated",
            (Locale::Russian, ResponseText::Truncated) => "… вывод сокращён",
            (Locale::English, ResponseText::DocumentationTruncated) => "… documentation truncated",
            (Locale::Russian, ResponseText::DocumentationTruncated) => "… описание сокращено",
            (Locale::English, ResponseText::ExternalModuleProvenance) => "⚠️ External module «{name}» ({id} v{version}) — code runs without a sandbox.",
            (Locale::Russian, ResponseText::ExternalModuleProvenance) => "⚠️ Внешний модуль «{name}» ({id} v{version}) — код без песочницы.",
        }),
{
    match (locale, key) {
        (Locale::English, ResponseText::Truncated) => "… output truncated",
        (Locale::Russian, ResponseText::Truncated) => "… вывод сокращён",
        (Locale::English, ResponseText::DocumentationTruncated) => "… documentation truncated",
        (Locale::Russian, ResponseText::DocumentationTruncated) => "… описание сокращено",
        (Locale::English, ResponseText::ExternalModuleProvenance) => "⚠️ External module «{name}» ({id} v{version}) — code runs without a sandbox.",
        (Locale::Russian, ResponseText::ExternalModuleProvenance) => "⚠️ Внешний модуль «{name}» ({id} v{version}) — код без песочницы.",
    }
}

/// Latency report.
#[derive(Clone, Copy, Debug, PartialEq, Eq, Structural)]
pub enum PingText {
    Success,
}

/// The template of a latency report; `{latency}` stands for the latency.
#[verifier::allow_in_spec]
pub fn ping_template(locale: Locale, key: PingText) -> &'static str
    returns
        (match (locale, key) {
            (Locale::English, PingText::Success) => "🏓 Pong: {latency}",
            (Locale::Russian, PingText::Success) => "🏓 Понг: {latency}",
        }),
{
    match (locale, key) {
        (Locale::English, PingText::Success) => "🏓 Pong: {latency}",
        (Locale::Russian, PingText::Success) => "🏓 Понг: {latency}",
    }
}

/// Statistics report.
#[derive(Clone, Copy, Debug, PartialEq, Eq, Structural)]
pub enum StatsText {
    Report,
    Unavailable,
}

/// The statistics text `key`.
#[verifier::allow_in_spec]
pub fn stats_text(locale: Locale, key: StatsText) -> &'static str
    returns
        (match (locale, key) {
            (Locale::English, StatsText::Report) => "📊 Lavis stats\n\nTelegram: {telegram}\nLavis uptime: {lavis_uptime}\nSystem uptime: {system_uptime}\nMemory: {memory}\nCommands: {commands}\nVersion: {version}",
            (Locale::Russian, StatsText::Report) => "📊 Статистика Lavis\n\nTelegram: {telegram}\nВремя работы Lavis: {lavis_uptime}\nВремя работы системы: {system_uptime}\nПамять: {memory}\nКоманды: {commands}\nВерсия: {version}",
            (Locale::English, StatsText::Unavailable) => "unavailable",
            (Locale::Russian, StatsText::Unavailable) => "недоступно",
        }),
{
    match (locale, key) {
        (Locale::English, StatsText::Report) => "📊 Lavis stats\n\nTelegram: {telegram}\nLavis uptime: {lavis_uptime}\nSystem uptime: {system_uptime}\nMemory: {memory}\nCommands: {commands}\nVersion: {version}",
        (Locale::Russian, StatsText::Report) => "📊 Статистика Lavis\n\nTelegram: {telegram}\nВремя работы Lavis: {lavis_uptime}\nВремя работы системы: {system_uptime}\nПамять: {memory}\nКоманды: {commands}\nВерсия: {version}",
        (Locale::English, StatsText::Unavailable) => "unavailable",
        (Locale::Russian, StatsText::Unavailable) => "недоступно",
    }
}

/// Instance summary.
#[derive(Clone, Copy, Debug, PartialEq, Eq, Structural)]
pub enum InfoText {
    Caption,
    Unknown,
    Unavailable,
}

/// The instance summary text `key`.
#[verifier::allow_in_spec]
pub fn info_text(locale: Locale, key: InfoText) -> &'static str
    returns
        (match (locale, key) {
            (Locale::English, InfoText::Caption) => "ℹ️ Lavis — really your userbot\n\nOwner: {owner}\nVersion: {version}\nCurrent commit: {commit}\nUpstream main: {upstream}\nPrefix: {prefix}\nModules: {total} ({active} active)\nHost: {host}\nOS: {os}",
            (Locale::Russian, InfoText::Caption) => "ℹ️ Lavis — really your userbot\n\nВладелец: {owner}\nВерсия: {version}\nТекущий коммит: {commit}\nОсновная ветка: {upstream}\nПрефикс: {prefix}\nМодули: {total} ({active} активных)\nХост: {host}\nОС: {os}",
            (Locale::English, InfoText::Unknown) => "unknown",
            (Locale::Russian, InfoText::Unknown) => "неизвестно",
            (Locale::English, InfoText::Unavailable) => "unavailable",
            (Locale::Russian, InfoText::Unavailable) => "недоступно",
        }),
{
    match (locale, key) {
        (Locale::English, InfoText::Caption) => "ℹ️ Lavis — really your userbot\n\nOwner: {owner}\nVersion: {version}\nCurrent commit: {commit}\nUpstream main: {upstream}\nPrefix: {prefix}\nModules: {total} ({active} active)\nHost: {host}\nOS: {os}",
        (Locale::Russian, InfoText::Caption) => "ℹ️ Lavis — really your userbot\n\nВладелец: {owner}\nВерсия: {version}\nТекущий коммит: {commit}\nОсновная ветка: {upstream}\nПрефикс: {prefix}\nМодули: {total} ({active} активных)\nХост: {host}\nОС: {os}",
        (Locale::English, InfoText::Unknown) => "unknown",
        (Locale::Russian, InfoText::Unknown) => "неизвестно",
        (Locale::English, InfoText::Unavailable) => "unavailable",
        (Locale::Russian, InfoText::Unavailable) => "недоступно",
    }
}

/// Lavis-owned framing for an external command result. Module-provided text is
/// deliberately not catalogued or translated.
#[derive(Clone, Copy, Debug, PartialEq, Eq, Structural)]
pub enum ExternalCommandText {
    RuntimeUnavailable,
    MissingDescriptor,
    Unavailable,
    Timeout,
    ProtocolDecode,
    WrongRequestId,
    ModuleError,
    ResultTooLarge,
    GenericError,
}

/// The template of an external command failure.
#[verifier::allow_in_spec]
pub fn external_command_template(locale: Locale, key: ExternalCommandText) -> &'static str
    returns
        (match (locale, key) {
            (Locale::English, ExternalCommandText::RuntimeUnavailable) => "⚠️ External modules are unavailable.",
            (Locale::Russian, ExternalCommandText::RuntimeUnavailable) => "⚠️ Внешние модули недоступны.",
            (Locale::English, ExternalCommandText::MissingDescriptor) => "⚠️ Module «{id}» is missing from the module catalog.",
            (Locale::Russian, ExternalCommandText::MissingDescriptor) => "⚠️ Модуль «{id}» отсутствует в каталоге модулей.",
            (Locale::English, ExternalCommandText::Unavailable) => "⚠️ Module «{id}» is unavailable or stopped with an error.",
            (Locale::Russian, ExternalCommandText::Unavailable) => "⚠️ Модуль «{id}» недоступен или завершился с ошибкой.",
            (Locale::English, ExternalCommandText::Timeout) => "⚠️ Module «{id}» did not respond in time.",
            (Locale::Russian, ExternalCommandText::Timeout) => "⚠️ Модуль «{id}» не ответил вовремя.",
            (Locale::English, ExternalCommandText::ProtocolDecode) => "⚠️ Module «{id}» sent an invalid response.",
            (Locale::Russian, ExternalCommandText::ProtocolDecode) => "⚠️ Модуль «{id}» прислал некорректный ответ.",
            (Locale::English, ExternalCommandText::WrongRequestId) => "⚠️ Module «{id}» responded with the wrong request ID.",
            (Locale::Russian, ExternalCommandText::WrongRequestId) => "⚠️ Модуль «{id}» прислал ответ с неверным идентификатором запроса.",
            (Locale::English, ExternalCommandText::ModuleError) => "⚠️ Module «{id}» reported an execution error.",
            (Locale::Russian, ExternalCommandText::ModuleError) => "⚠️ Модуль «{id}» сообщил об ошибке выполнения.",
            (Locale::English, ExternalCommandText::ResultTooLarge) => "⚠️ Module «{id}» returned a result that is too large.",
            (Locale::Russian, ExternalCommandText::ResultTooLarge) => "⚠️ Результат модуля «{id}» слишком большой.",
            (Locale::English, ExternalCommandText::GenericError) => "⚠️ Module error «{id}»: {detail}",
            (Locale::Russian, ExternalCommandText::GenericError) => "⚠️ Ошибка модуля «{id}»: {detail}",
        }),
{
    match (locale, key) {
        (Locale::English, ExternalCommandText::RuntimeUnavailable) => "⚠️ External modules are unavailable.",
        (Locale::Russian, ExternalCommandText::RuntimeUnavailable) => "⚠️ Внешние модули недоступны.",
        (Locale::English, ExternalCommandText::MissingDescriptor) => "⚠️ Module «{id}» is missing from the module catalog.",
        (Locale::Russian, ExternalCommandText::MissingDescriptor) => "⚠️ Модуль «{id}» отсутствует в каталоге модулей.",
        (Locale::English, ExternalCommandText::Unavailable) => "⚠️ Module «{id}» is unavailable or stopped with an error.",
        (Locale::Russian, ExternalCommandText::Unavailable) => "⚠️ Модуль «{id}» недоступен или завершился с ошибкой.",
        (Locale::English, ExternalCommandText::Timeout) => "⚠️ Module «{id}» did not respond in time.",
        (Locale::Russian, ExternalCommandText::Timeout) => "⚠️ Модуль «{id}» не ответил вовремя.",
        (Locale::English, ExternalCommandText::ProtocolDecode) => "⚠️ Module «{id}» sent an invalid response.",
        (Locale::Russian, ExternalCommandText::ProtocolDecode) => "⚠️ Модуль «{id}» прислал некорректный ответ.",
        (Locale::English, ExternalCommandText::WrongRequestId) => "⚠️ Module «{id}» responded with the wrong request ID.",
        (Locale::Russian, ExternalCommandText::WrongRequestId) => "⚠️ Модуль «{id}» прислал ответ с неверным идентификатором запроса.",
        (Locale::English, ExternalCommandText::ModuleError) => "⚠️ Module «{id}» reported an execution error.",
        (Locale::Russian, ExternalCommandText::ModuleError) => "⚠️ Модуль «{id}» сообщил об ошибке выполнения.",
        (Locale::English, ExternalCommandText::ResultTooLarge) => "⚠️ Module «{id}» returned a result that is too large.",
        (Locale::Russian, ExternalCommandText::ResultTooLarge) => "⚠️ Результат модуля «{id}» слишком большой.",
        (Locale::English, ExternalCommandText::GenericError) => "⚠️ Module error «{id}»: {detail}",
        (Locale::Russian, ExternalCommandText::GenericError) => "⚠️ Ошибка модуля «{id}»: {detail}",
    }
}

/// System summary messages.
#[derive(Clone, Copy, Debug, PartialEq, Eq, Structural)]
pub enum FastfetchText {
    Empty,
    TimedOut,
    Unavailable,
    NonZero,
    UnexpectedStatus,
    InputTokenization,
    InputUnsupportedOption,
    InputMissingValue,
    InputDuplicateOption,
    InputInvalidLogo,
    InputInvalidStructure,
    InputInvalidSeparator,
    InputInvalidLogoPadding,
    ProfileNotReadable,
    ProfileMalformed,
    ProfileUnsupportedVersion,
    ProfileTooLarge,
    ProfileUnsafePath,
    ProfileInvalidLogo,
    ProfileInvalidStructure,
    ProfileInvalidSeparator,
    ProfileInvalidLogoPadding,
}

/// The system summary message `key`.
#[verifier::allow_in_spec]
pub fn fastfetch_text(locale: Locale, key: FastfetchText) -> &'static str
    returns
        (match (locale, key) {
            (Locale::English, FastfetchText::Empty) => "⚠️ Fastfetch produced no output. See {prefix}help fastfetch",
            (Locale::Russian, FastfetchText::Empty) => "⚠️ Fastfetch не вернул вывод. См. {prefix}help fastfetch",
            (Locale::English, FastfetchText::TimedOut) => "⚠️ Fastfetch timed out. See {prefix}help fastfetch",
            (Locale::Russian, FastfetchText::TimedOut) => "⚠️ Fastfetch превысил время ожидания. См. {prefix}help fastfetch",
            (Locale::English, FastfetchText::Unavailable) => "⚠️ Fastfetch is unavailable. See {prefix}help fastfetch",
            (Locale::Russian, FastfetchText::Unavailable) => "⚠️ Fastfetch недоступен. См. {prefix}help fastfetch",
            (Locale::English, FastfetchText::NonZero) => "⚠️ Fastfetch failed (exit code {code}). See {prefix}help fastfetch",
            (Locale::Russian, FastfetchText::NonZero) => "⚠️ Fastfetch завершился с кодом {code}. См. {prefix}help fastfetch",
            (Locale::English, FastfetchText::UnexpectedStatus) => "⚠️ Fastfetch ended unexpectedly. See {prefix}help fastfetch",
            (Locale::Russian, FastfetchText::UnexpectedStatus) => "⚠️ Fastfetch завершился неожиданно. См. {prefix}help fastfetch",
            (Locale::English, FastfetchText::InputTokenization) => "⚠️ Fastfetch input error: invalid quoting. See {prefix}help fastfetch",
            (Locale::Russian, FastfetchText::InputTokenization) => "⚠️ Ошибка ввода Fastfetch: неверные кавычки. См. {prefix}help fastfetch",
            (Locale::English, FastfetchText::InputUnsupportedOption) => "⚠️ Fastfetch input error: unsupported option. See {prefix}help fastfetch",
            (Locale::Russian, FastfetchText::InputUnsupportedOption) => "⚠️ Ошибка ввода Fastfetch: неподдерживаемый параметр. См. {prefix}help fastfetch",
            (Locale::English, FastfetchText::InputMissingValue) => "⚠️ Fastfetch input error: option value is missing. See {prefix}help fastfetch",
            (Locale::Russian, FastfetchText::InputMissingValue) => "⚠️ Ошибка ввода Fastfetch: отсутствует значение параметра. См. {prefix}help fastfetch",
            (Locale::English, FastfetchText::InputDuplicateOption) => "⚠️ Fastfetch input error: option is repeated. See {prefix}help fastfetch",
            (Locale::Russian, FastfetchText::InputDuplicateOption) => "⚠️ Ошибка ввода Fastfetch: параметр повторяется. См. {prefix}help fastfetch",
            (Locale::English, FastfetchText::InputInvalidLogo) => "⚠️ Fastfetch input error: invalid --logo value. See {prefix}help fastfetch",
            (Locale::Russian, FastfetchText::InputInvalidLogo) => "⚠️ Ошибка ввода Fastfetch: неверное значение --logo. См. {prefix}help fastfetch",
            (Locale::English, FastfetchText::InputInvalidStructure) => "⚠️ Fastfetch input error: invalid --structure value. See {prefix}help fastfetch",
            (Locale::Russian, FastfetchText::InputInvalidStructure) => "⚠️ Ошибка ввода Fastfetch: неверное значение --structure. См. {prefix}help fastfetch",
            (Locale::English, FastfetchText::InputInvalidSeparator) => "⚠️ Fastfetch input error: invalid --separator value. See {prefix}help fastfetch",
            (Locale::Russian, FastfetchText::InputInvalidSeparator) => "⚠️ Ошибка ввода Fastfetch: неверное значение --separator. См. {prefix}help fastfetch",
            (Locale::English, FastfetchText::InputInvalidLogoPadding) => "⚠️ Fastfetch input error: invalid --logo-padding value. See {prefix}help fastfetch",
            (Locale::Russian, FastfetchText::InputInvalidLogoPadding) => "⚠️ Ошибка ввода Fastfetch: неверное значение --logo-padding. См. {prefix}help fastfetch",
            (Locale::English, FastfetchText::ProfileNotReadable) => "⚠️ Fastfetch profile cannot be read at {path}. See {prefix}help fastfetch",
            (Locale::Russian, FastfetchText::ProfileNotReadable) => "⚠️ Не удалось прочитать профиль Fastfetch в {path}. См. {prefix}help fastfetch",
            (Locale::English, FastfetchText::ProfileMalformed) => "⚠️ Fastfetch profile is malformed at {path}. See {prefix}help fastfetch",
            (Locale::Russian, FastfetchText::ProfileMalformed) => "⚠️ Профиль Fastfetch содержит ошибку в {path}. См. {prefix}help fastfetch",
            (Locale::English, FastfetchText::ProfileUnsupportedVersion) => "⚠️ Fastfetch profile version is unsupported at {path}. See {prefix}help fastfetch",
            (Locale::Russian, FastfetchText::ProfileUnsupportedVersion) => "⚠️ Версия профиля Fastfetch не поддерживается в {path}. См. {prefix}help fastfetch",
            (Locale::English, FastfetchText::ProfileTooLarge) => "⚠️ Fastfetch profile is too large at {path}. See {prefix}help fastfetch",
            (Locale::Russian, FastfetchText::ProfileTooLarge) => "⚠️ Профиль Fastfetch слишком большой в {path}. См. {prefix}help fastfetch",
            (Locale::English, FastfetchText::ProfileUnsafePath) => "⚠️ Fastfetch profile path is unsafe: {path}. See {prefix}help fastfetch",
            (Locale::Russian, FastfetchText::ProfileUnsafePath) => "⚠️ Небезопасный путь профиля Fastfetch: {path}. См. {prefix}help fastfetch",
            (Locale::English, FastfetchText::ProfileInvalidLogo) => "⚠️ Fastfetch profile has an invalid logo at {path}. See {prefix}help fastfetch",
            (Locale::Russian, FastfetchText::ProfileInvalidLogo) => "⚠️ Профиль Fastfetch содержит неверный логотип в {path}. См. {prefix}help fastfetch",
            (Locale::English, FastfetchText::ProfileInvalidStructure) => "⚠️ Fastfetch profile has an invalid structure at {path}. See {prefix}help fastfetch",
            (Locale::Russian, FastfetchText::ProfileInvalidStructure) => "⚠️ Профиль Fastfetch содержит неверную структуру в {path}. См. {prefix}help fastfetch",
            (Locale::English, FastfetchText::ProfileInvalidSeparator) => "⚠️ Fastfetch profile has an invalid separator at {path}. See {prefix}help fastfetch",
            (Locale::Russian, FastfetchText::ProfileInvalidSeparator) => "⚠️ Профиль Fastfetch содержит неверный разделитель в {path}. См. {prefix}help fastfetch",
            (Locale::English, FastfetchText::ProfileInvalidLogoPadding) => "⚠️ Fastfetch profile has invalid logo padding at {path}. See {prefix}help fastfetch",
            (Locale::Russian, FastfetchText::ProfileInvalidLogoPadding) => "⚠️ Профиль Fastfetch содержит неверный отступ логотипа в {path}. См. {prefix}help fastfetch",
        }),
{
    match (locale, key) {
        (Locale::English, FastfetchText::Empty) => "⚠️ Fastfetch produced no output. See {prefix}help fastfetch",
        (Locale::Russian, FastfetchText::Empty) => "⚠️ Fastfetch не вернул вывод. См. {prefix}help fastfetch",
        (Locale::English, FastfetchText::TimedOut) => "⚠️ Fastfetch timed out. See {prefix}help fastfetch",
        (Locale::Russian, FastfetchText::TimedOut) => "⚠️ Fastfetch превысил время ожидания. См. {prefix}help fastfetch",
        (Locale::English, FastfetchText::Unavailable) => "⚠️ Fastfetch is unavailable. See {prefix}help fastfetch",
        (Locale::Russian, FastfetchText::Unavailable) => "⚠️ Fastfetch недоступен. См. {prefix}help fastfetch",
        (Locale::English, FastfetchText::NonZero) => "⚠️ Fastfetch failed (exit code {code}). See {prefix}help fastfetch",
        (Locale::Russian, FastfetchText::NonZero) => "⚠️ Fastfetch завершился с кодом {code}. См. {prefix}help fastfetch",
        (Locale::English, FastfetchText::UnexpectedStatus) => "⚠️ Fastfetch ended unexpectedly. See {prefix}help fastfetch",
        (Locale::Russian, FastfetchText::UnexpectedStatus) => "⚠️ Fastfetch завершился неожиданно. См. {prefix}help fastfetch",
        (Locale::English, FastfetchText::InputTokenization) => "⚠️ Fastfetch input error: invalid quoting. See {prefix}help fastfetch",
        (Locale::Russian, FastfetchText::InputTokenization) => "⚠️ Ошибка ввода Fastfetch: неверные кавычки. См. {prefix}help fastfetch",
        (Locale::English, FastfetchText::InputUnsupportedOption) => "⚠️ Fastfetch input error: unsupported option. See {prefix}help fastfetch",
        (Locale::Russian, FastfetchText::InputUnsupportedOption) => "⚠️ Ошибка ввода Fastfetch: неподдерживаемый параметр. См. {prefix}help fastfetch",
        (Locale::English, FastfetchText::InputMissingValue) => "⚠️ Fastfetch input error: option value is missing. See {prefix}help fastfetch",
        (Locale::Russian, FastfetchText::InputMissingValue) => "⚠️ Ошибка ввода Fastfetch: отсутствует значение параметра. См. {prefix}help fastfetch",
        (Locale::English, FastfetchText::InputDuplicateOption) => "⚠️ Fastfetch input error: option is repeated. See {prefix}help fastfetch",
        (Locale::Russian, FastfetchText::InputDuplicateOption) => "⚠️ Ошибка ввода Fastfetch: параметр повторяется. См. {prefix}help fastfetch",
        (Locale::English, FastfetchText::InputInvalidLogo) => "⚠️ Fastfetch input error: invalid --logo value. See {prefix}help fastfetch",
        (Locale::Russian, FastfetchText::InputInvalidLogo) => "⚠️ Ошибка ввода Fastfetch: неверное значение --logo. См. {prefix}help fastfetch",
        (Locale::English, FastfetchText::InputInvalidStructure) => "⚠️ Fastfetch input error: invalid --structure value. See {prefix}help fastfetch",
        (Locale::Russian, FastfetchText::InputInvalidStructure) => "⚠️ Ошибка ввода Fastfetch: неверное значение --structure. См. {prefix}help fastfetch",
        (Locale::English, FastfetchText::InputInvalidSeparator) => "⚠️ Fastfetch input error: invalid --separator value. See {prefix}help fastfetch",
        (Locale::Russian, FastfetchText::InputInvalidSeparator) => "⚠️ Ошибка ввода Fastfetch: неверное значение --separator. См. {prefix}help fastfetch",
        (Locale::English, FastfetchText::InputInvalidLogoPadding) => "⚠️ Fastfetch input error: invalid --logo-padding value. See {prefix}help fastfetch",
        (Locale::Russian, FastfetchText::InputInvalidLogoPadding) => "⚠️ Ошибка ввода Fastfetch: неверное значение --logo-padding. См. {prefix}help fastfetch",
        (Locale::English, FastfetchText::ProfileNotReadable) => "⚠️ Fastfetch profile cannot be read at {path}. See {prefix}help fastfetch",
        (Locale::Russian, FastfetchText::ProfileNotReadable) => "⚠️ Не удалось прочитать профиль Fastfetch в {path}. См. {prefix}help fastfetch",
        (Locale::English, FastfetchText::ProfileMalformed) => "⚠️ Fastfetch profile is malformed at {path}. See {prefix}help fastfetch",
        (Locale::Russian, FastfetchText::ProfileMalformed) => "⚠️ Профиль Fastfetch содержит ошибку в {path}. См. {prefix}help fastfetch",
        (Locale::English, FastfetchText::ProfileUnsupportedVersion) => "⚠️ Fastfetch profile version is unsupported at {path}. See {prefix}help fastfetch",
        (Locale::Russian, FastfetchText::ProfileUnsupportedVersion) => "⚠️ Версия профиля Fastfetch не поддерживается в {path}. См. {prefix}help fastfetch",
        (Locale::English, FastfetchText::ProfileTooLarge) => "⚠️ Fastfetch profile is too large at {path}. See {prefix}help fastfetch",
        (Locale::Russian, FastfetchText::ProfileTooLarge) => "⚠️ Профиль Fastfetch слишком большой в {path}. См. {prefix}help fastfetch",
        (Locale::English, FastfetchText::ProfileUnsafePath) => "⚠️ Fastfetch profile path is unsafe: {path}. See {prefix}help fastfetch",
        (Locale::Russian, FastfetchText::ProfileUnsafePath) => "⚠️ Небезопасный путь профиля Fastfetch: {path}. См. {prefix}help fastfetch",
        (Locale::English, FastfetchText::ProfileInvalidLogo) => "⚠️ Fastfetch profile has an invalid logo at {path}. See {prefix}help fastfetch",
        (Locale::Russian, FastfetchText::ProfileInvalidLogo) => "⚠️ Профиль Fastfetch содержит неверный логотип в {path}. См. {prefix}help fastfetch",
        (Locale::English, FastfetchText::ProfileInvalidStructure) => "⚠️ Fastfetch profile has an invalid structure at {path}. See {prefix}help fastfetch",
        (Locale::Russian, FastfetchText::ProfileInvalidStructure) => "⚠️ Профиль Fastfetch содержит неверную структуру в {path}. См. {prefix}help fastfetch",
        (Locale::English, FastfetchText::ProfileInvalidSeparator) => "⚠️ Fastfetch profile has an invalid separator at {path}. See {prefix}help fastfetch",
        (Locale::Russian, FastfetchText::ProfileInvalidSeparator) => "⚠️ Профиль Fastfetch содержит неверный разделитель в {path}. См. {prefix}help fastfetch",
        (Locale::English, FastfetchText::ProfileInvalidLogoPadding) => "⚠️ Fastfetch profile has invalid logo padding at {path}. See {prefix}help fastfetch",
        (Locale::Russian, FastfetchText::ProfileInvalidLogoPadding) => "⚠️ Профиль Fastfetch содержит неверный отступ логотипа в {path}. См. {prefix}help fastfetch",
    }
}

} // verus!
