//! Messages and labels of the module-management UI.
use super::Locale;
use vstd::prelude::*;

verus! {

/// What an external module process is doing.
#[derive(Clone, Copy, Debug, PartialEq, Eq, Structural)]
pub enum ExternalModuleRuntimeStatus {
    Running,
    Failed,
    Terminated,
    InstalledDisabled,
}

/// What deserves attention in an inspected module package.
#[derive(Clone, Copy, Debug, PartialEq, Eq, Structural)]
pub enum InspectionWarning {
    StoredOnlyArchive,
    TelegramRawNotSandboxed,
}

/// Stable labels and status messages owned by Lavis's module-management UI.
#[derive(Clone, Copy, Debug, PartialEq, Eq, Structural)]
pub enum LmText {
    Usage,
    Unavailable,
    StateUnavailable,
    ListUnavailable,
    Empty,
    ListHeading,
    RuntimeUnavailable,
    NoRuntimeError,
    LastModuleError,
    DoctorHeading,
    DoctorModuleHeading,
    DoctorEmpty,
    NotFound,
    InvalidManifest,
    NotInstalled,
    NotInstalledOrUnavailable,
    StateChanged,
    StateUnchanged,
    Declarative,
    StateChangeFailed,
    InstallUnavailable,
    AttachPackage,
    UnsafePackage,
    PlanUnavailable,
    ApprovalInvalid,
    AlreadyRegistered,
    VerifiedPackageUnavailable,
    InstallRollbackFailed,
    InstallValidationFailed,
    InstallFailed,
    RegistrationConflict,
    InstalledDisabled,
    Cancelled,
    SavedMessagesOnly,
    InstallPlan,
}

/// The module-management message `key`.
#[verifier::allow_in_spec]
pub fn lm_text(locale: Locale, key: LmText) -> &'static str
    returns
        (match (locale, key) {
            (Locale::English, LmText::Usage) => "⚠️ Usage:\n{prefix}lm\n{prefix}lm list\n{prefix}lm info <id>\n{prefix}lm logs <id>\n{prefix}lm doctor [<id>]\n{prefix}lm install\n{prefix}lm confirm <ApprovalId>\n{prefix}lm cancel <ApprovalId>\n{prefix}lm enable <id>\n{prefix}lm disable <id>",
            (Locale::Russian, LmText::Usage) => "⚠️ Использование:\n{prefix}lm\n{prefix}lm list\n{prefix}lm info <id>\n{prefix}lm logs <id>\n{prefix}lm doctor [<id>]\n{prefix}lm install\n{prefix}lm confirm <ApprovalId>\n{prefix}lm cancel <ApprovalId>\n{prefix}lm enable <id>\n{prefix}lm disable <id>",
            (Locale::English, LmText::Unavailable) => "⚠️ External module management is unavailable.",
            (Locale::Russian, LmText::Unavailable) => "⚠️ Управление внешними модулями недоступно.",
            (Locale::English, LmText::StateUnavailable) => "⚠️ External module state is unavailable.",
            (Locale::Russian, LmText::StateUnavailable) => "⚠️ Состояние внешних модулей недоступно.",
            (Locale::English, LmText::ListUnavailable) => "⚠️ Could not read the external module list.",
            (Locale::Russian, LmText::ListUnavailable) => "⚠️ Не удалось прочитать список внешних модулей.",
            (Locale::English, LmText::Empty) => "📦 No external modules are installed.\n\nAttach a .lmod document to a message, then use:\n{prefix}lm install",
            (Locale::Russian, LmText::Empty) => "📦 Внешние модули не установлены.\n\nПрикрепите .lmod к сообщению, затем используйте:\n{prefix}lm install",
            (Locale::English, LmText::ListHeading) => "📦 External modules",
            (Locale::Russian, LmText::ListHeading) => "📦 Внешние модули",
            (Locale::English, LmText::RuntimeUnavailable) => "⚠️ External module runtime is unavailable.",
            (Locale::Russian, LmText::RuntimeUnavailable) => "⚠️ Runtime внешних модулей недоступен.",
            (Locale::English, LmText::NoRuntimeError) => "ℹ️ Module {id} has no retained runtime error.",
            (Locale::Russian, LmText::NoRuntimeError) => "ℹ️ Для модуля {id} нет сохранённой runtime-ошибки.",
            (Locale::English, LmText::LastModuleError) => "📋 Last module error: {id}\n\n{detail}",
            (Locale::Russian, LmText::LastModuleError) => "📋 Последняя ошибка модуля {id}\n\n{detail}",
            (Locale::English, LmText::DoctorHeading) => "🩺 External module diagnostics",
            (Locale::Russian, LmText::DoctorHeading) => "🩺 Диагностика внешних модулей",
            (Locale::English, LmText::DoctorModuleHeading) => "🩺 Module diagnostics: {id}",
            (Locale::Russian, LmText::DoctorModuleHeading) => "🩺 Диагностика модуля {id}",
            (Locale::English, LmText::DoctorEmpty) => "No external modules are installed.",
            (Locale::Russian, LmText::DoctorEmpty) => "Внешние модули не установлены.",
            (Locale::English, LmText::NotFound) => "ℹ️ Module {id} was not found.",
            (Locale::Russian, LmText::NotFound) => "ℹ️ Модуль {id} не найден.",
            (Locale::English, LmText::InvalidManifest) => "⚠️ The installed module manifest is invalid.",
            (Locale::Russian, LmText::InvalidManifest) => "⚠️ Манифест установленного модуля некорректен.",
            (Locale::English, LmText::NotInstalled) => "⚠️ Module is not installed.",
            (Locale::Russian, LmText::NotInstalled) => "⚠️ Модуль не установлен.",
            (Locale::English, LmText::NotInstalledOrUnavailable) => "⚠️ Module is not installed or unavailable.",
            (Locale::Russian, LmText::NotInstalledOrUnavailable) => "⚠️ Модуль не установлен или недоступен.",
            (Locale::English, LmText::Declarative) => "⚠️ This module is managed declaratively by NixOS. Change services.lavis.extensions and run nh os switch.",
            (Locale::Russian, LmText::Declarative) => "⚠️ Модуль управляется декларативно через NixOS. Измените services.lavis.extensions и выполните nh os switch.",
            (Locale::English, LmText::StateChangeFailed) => "⚠️ Could not change module state.",
            (Locale::Russian, LmText::StateChangeFailed) => "⚠️ Не удалось изменить состояние модуля.",
            (Locale::English, LmText::InstallUnavailable) => "⚠️ External module installation is unavailable.",
            (Locale::Russian, LmText::InstallUnavailable) => "⚠️ Установка внешних модулей недоступна.",
            (Locale::English, LmText::AttachPackage) => "⚠️ Attach a .lmod document to a new self-authored message in Saved Messages.",
            (Locale::Russian, LmText::AttachPackage) => "⚠️ Прикрепите документ .lmod к новому собственному сообщению в Saved Messages.",
            (Locale::English, LmText::UnsafePackage) => "⚠️ The .lmod package did not pass safe inspection.",
            (Locale::Russian, LmText::UnsafePackage) => "⚠️ Пакет .lmod не прошёл безопасную проверку.",
            (Locale::English, LmText::PlanUnavailable) => "⚠️ The installation plan is unavailable.",
            (Locale::Russian, LmText::PlanUnavailable) => "⚠️ План установки недоступен.",
            (Locale::English, LmText::ApprovalInvalid) => "⚠️ ApprovalId is invalid or expired.",
            (Locale::Russian, LmText::ApprovalInvalid) => "⚠️ ApprovalId недействителен или истёк.",
            (Locale::English, LmText::AlreadyRegistered) => "⚠️ Module «{id}» is already registered; installation was not started.",
            (Locale::Russian, LmText::AlreadyRegistered) => "⚠️ Модуль «{id}» уже зарегистрирован; установка не начата.",
            (Locale::English, LmText::VerifiedPackageUnavailable) => "⚠️ The verified package is unavailable.",
            (Locale::Russian, LmText::VerifiedPackageUnavailable) => "⚠️ Проверенный пакет недоступен.",
            (Locale::English, LmText::InstallRollbackFailed) => "⚠️ Installation did not finish: target rollback failed; inspect the module directory manually.",
            (Locale::Russian, LmText::InstallRollbackFailed) => "⚠️ Установка не завершена: откат цели не удался; проверьте каталог модулей вручную.",
            (Locale::English, LmText::InstallValidationFailed) => "⚠️ Installation was not completed: final validation failed and the target was removed.",
            (Locale::Russian, LmText::InstallValidationFailed) => "⚠️ Установка не выполнена: финальная проверка не пройдена, цель удалена.",
            (Locale::English, LmText::InstallFailed) => "⚠️ Installation was not completed.",
            (Locale::Russian, LmText::InstallFailed) => "⚠️ Установка не выполнена.",
            (Locale::English, LmText::RegistrationConflict) => "⚠️ Module «{id}» was installed but not registered because its descriptor conflicts.",
            (Locale::Russian, LmText::RegistrationConflict) => "⚠️ Модуль «{id}» установлен, но не зарегистрирован из-за конфликтующего описания.",
            (Locale::English, LmText::InstalledDisabled) => "✅ Module «{id}» was installed and is disabled.",
            (Locale::Russian, LmText::InstalledDisabled) => "✅ Модуль «{id}» установлен и выключен.",
            (Locale::English, LmText::Cancelled) => "✅ Installation plan cancelled.",
            (Locale::Russian, LmText::Cancelled) => "✅ План установки отменён.",
            (Locale::English, LmText::SavedMessagesOnly) => "⚠️ This module operation is available only from a new self-authored message in Saved Messages.",
            (Locale::Russian, LmText::SavedMessagesOnly) => "⚠️ Эта операция с модулями доступна только из нового собственного сообщения в Saved Messages.",
            (Locale::English, LmText::InstallPlan) => "📋 Installation plan\n\nSource: {source}\nModule: {module} v{version}\nProtocol: {protocol}\nEntrypoint: {entrypoint}\nDefault command: {default_command}\nSHA-256: {sha256}\nFingerprint: {fingerprint}\nArchive: {archive_bytes} bytes, files: {file_count}, compressed: {compressed_bytes} bytes, expanded: {expanded_bytes} bytes\nCapabilities: {capabilities}\nSubscriptions: {subscriptions}\nTelegram V6 methods: {methods}\nActions: {actions}\nWarnings: {warnings}\n\nApprovalId: {approval_id}\nConfirm: {prefix}lm confirm {approval_id}\nCancel: {prefix}lm cancel {approval_id}\nExpires in: 10 minutes.",
            (Locale::Russian, LmText::InstallPlan) => "📋 План установки\n\nИсточник: {source}\nМодуль: {module} v{version}\nПротокол: {protocol}\nТочка входа: {entrypoint}\nКоманда по умолчанию: {default_command}\nSHA-256: {sha256}\nОтпечаток: {fingerprint}\nАрхив: {archive_bytes} Байт, файлов: {file_count}, сжато: {compressed_bytes} Байт, распаковано: {expanded_bytes} Байт\nВозможности: {capabilities}\nПодписки: {subscriptions}\nМетоды Telegram V6: {methods}\nДействия: {actions}\nПредупреждения: {warnings}\n\nApprovalId: {approval_id}\nПодтвердите: {prefix}lm confirm {approval_id}\nОтменить: {prefix}lm cancel {approval_id}\nСрок действия: 10 минут.",
            (Locale::English, LmText::StateChanged) => "✅ Module «{id}» is now {detail}.\n\nRun {prefix}reboot to apply the change.",
            (Locale::Russian, LmText::StateChanged) => "✅ Модуль «{id}» {detail}.\n\nДля применения изменений выполните:\n{prefix}reboot",
            (Locale::English, LmText::StateUnchanged) => "ℹ️ Module «{id}» is already {detail}.",
            (Locale::Russian, LmText::StateUnchanged) => "ℹ️ Модуль «{id}» уже {detail}.",
        }),
{
    match (locale, key) {
        (Locale::English, LmText::Usage) => "⚠️ Usage:\n{prefix}lm\n{prefix}lm list\n{prefix}lm info <id>\n{prefix}lm logs <id>\n{prefix}lm doctor [<id>]\n{prefix}lm install\n{prefix}lm confirm <ApprovalId>\n{prefix}lm cancel <ApprovalId>\n{prefix}lm enable <id>\n{prefix}lm disable <id>",
        (Locale::Russian, LmText::Usage) => "⚠️ Использование:\n{prefix}lm\n{prefix}lm list\n{prefix}lm info <id>\n{prefix}lm logs <id>\n{prefix}lm doctor [<id>]\n{prefix}lm install\n{prefix}lm confirm <ApprovalId>\n{prefix}lm cancel <ApprovalId>\n{prefix}lm enable <id>\n{prefix}lm disable <id>",
        (Locale::English, LmText::Unavailable) => "⚠️ External module management is unavailable.",
        (Locale::Russian, LmText::Unavailable) => "⚠️ Управление внешними модулями недоступно.",
        (Locale::English, LmText::StateUnavailable) => "⚠️ External module state is unavailable.",
        (Locale::Russian, LmText::StateUnavailable) => "⚠️ Состояние внешних модулей недоступно.",
        (Locale::English, LmText::ListUnavailable) => "⚠️ Could not read the external module list.",
        (Locale::Russian, LmText::ListUnavailable) => "⚠️ Не удалось прочитать список внешних модулей.",
        (Locale::English, LmText::Empty) => "📦 No external modules are installed.\n\nAttach a .lmod document to a message, then use:\n{prefix}lm install",
        (Locale::Russian, LmText::Empty) => "📦 Внешние модули не установлены.\n\nПрикрепите .lmod к сообщению, затем используйте:\n{prefix}lm install",
        (Locale::English, LmText::ListHeading) => "📦 External modules",
        (Locale::Russian, LmText::ListHeading) => "📦 Внешние модули",
        (Locale::English, LmText::RuntimeUnavailable) => "⚠️ External module runtime is unavailable.",
        (Locale::Russian, LmText::RuntimeUnavailable) => "⚠️ Runtime внешних модулей недоступен.",
        (Locale::English, LmText::NoRuntimeError) => "ℹ️ Module {id} has no retained runtime error.",
        (Locale::Russian, LmText::NoRuntimeError) => "ℹ️ Для модуля {id} нет сохранённой runtime-ошибки.",
        (Locale::English, LmText::LastModuleError) => "📋 Last module error: {id}\n\n{detail}",
        (Locale::Russian, LmText::LastModuleError) => "📋 Последняя ошибка модуля {id}\n\n{detail}",
        (Locale::English, LmText::DoctorHeading) => "🩺 External module diagnostics",
        (Locale::Russian, LmText::DoctorHeading) => "🩺 Диагностика внешних модулей",
        (Locale::English, LmText::DoctorModuleHeading) => "🩺 Module diagnostics: {id}",
        (Locale::Russian, LmText::DoctorModuleHeading) => "🩺 Диагностика модуля {id}",
        (Locale::English, LmText::DoctorEmpty) => "No external modules are installed.",
        (Locale::Russian, LmText::DoctorEmpty) => "Внешние модули не установлены.",
        (Locale::English, LmText::NotFound) => "ℹ️ Module {id} was not found.",
        (Locale::Russian, LmText::NotFound) => "ℹ️ Модуль {id} не найден.",
        (Locale::English, LmText::InvalidManifest) => "⚠️ The installed module manifest is invalid.",
        (Locale::Russian, LmText::InvalidManifest) => "⚠️ Манифест установленного модуля некорректен.",
        (Locale::English, LmText::NotInstalled) => "⚠️ Module is not installed.",
        (Locale::Russian, LmText::NotInstalled) => "⚠️ Модуль не установлен.",
        (Locale::English, LmText::NotInstalledOrUnavailable) => "⚠️ Module is not installed or unavailable.",
        (Locale::Russian, LmText::NotInstalledOrUnavailable) => "⚠️ Модуль не установлен или недоступен.",
        (Locale::English, LmText::Declarative) => "⚠️ This module is managed declaratively by NixOS. Change services.lavis.extensions and run nh os switch.",
        (Locale::Russian, LmText::Declarative) => "⚠️ Модуль управляется декларативно через NixOS. Измените services.lavis.extensions и выполните nh os switch.",
        (Locale::English, LmText::StateChangeFailed) => "⚠️ Could not change module state.",
        (Locale::Russian, LmText::StateChangeFailed) => "⚠️ Не удалось изменить состояние модуля.",
        (Locale::English, LmText::InstallUnavailable) => "⚠️ External module installation is unavailable.",
        (Locale::Russian, LmText::InstallUnavailable) => "⚠️ Установка внешних модулей недоступна.",
        (Locale::English, LmText::AttachPackage) => "⚠️ Attach a .lmod document to a new self-authored message in Saved Messages.",
        (Locale::Russian, LmText::AttachPackage) => "⚠️ Прикрепите документ .lmod к новому собственному сообщению в Saved Messages.",
        (Locale::English, LmText::UnsafePackage) => "⚠️ The .lmod package did not pass safe inspection.",
        (Locale::Russian, LmText::UnsafePackage) => "⚠️ Пакет .lmod не прошёл безопасную проверку.",
        (Locale::English, LmText::PlanUnavailable) => "⚠️ The installation plan is unavailable.",
        (Locale::Russian, LmText::PlanUnavailable) => "⚠️ План установки недоступен.",
        (Locale::English, LmText::ApprovalInvalid) => "⚠️ ApprovalId is invalid or expired.",
        (Locale::Russian, LmText::ApprovalInvalid) => "⚠️ ApprovalId недействителен или истёк.",
        (Locale::English, LmText::AlreadyRegistered) => "⚠️ Module «{id}» is already registered; installation was not started.",
        (Locale::Russian, LmText::AlreadyRegistered) => "⚠️ Модуль «{id}» уже зарегистрирован; установка не начата.",
        (Locale::English, LmText::VerifiedPackageUnavailable) => "⚠️ The verified package is unavailable.",
        (Locale::Russian, LmText::VerifiedPackageUnavailable) => "⚠️ Проверенный пакет недоступен.",
        (Locale::English, LmText::InstallRollbackFailed) => "⚠️ Installation did not finish: target rollback failed; inspect the module directory manually.",
        (Locale::Russian, LmText::InstallRollbackFailed) => "⚠️ Установка не завершена: откат цели не удался; проверьте каталог модулей вручную.",
        (Locale::English, LmText::InstallValidationFailed) => "⚠️ Installation was not completed: final validation failed and the target was removed.",
        (Locale::Russian, LmText::InstallValidationFailed) => "⚠️ Установка не выполнена: финальная проверка не пройдена, цель удалена.",
        (Locale::English, LmText::InstallFailed) => "⚠️ Installation was not completed.",
        (Locale::Russian, LmText::InstallFailed) => "⚠️ Установка не выполнена.",
        (Locale::English, LmText::RegistrationConflict) => "⚠️ Module «{id}» was installed but not registered because its descriptor conflicts.",
        (Locale::Russian, LmText::RegistrationConflict) => "⚠️ Модуль «{id}» установлен, но не зарегистрирован из-за конфликтующего описания.",
        (Locale::English, LmText::InstalledDisabled) => "✅ Module «{id}» was installed and is disabled.",
        (Locale::Russian, LmText::InstalledDisabled) => "✅ Модуль «{id}» установлен и выключен.",
        (Locale::English, LmText::Cancelled) => "✅ Installation plan cancelled.",
        (Locale::Russian, LmText::Cancelled) => "✅ План установки отменён.",
        (Locale::English, LmText::SavedMessagesOnly) => "⚠️ This module operation is available only from a new self-authored message in Saved Messages.",
        (Locale::Russian, LmText::SavedMessagesOnly) => "⚠️ Эта операция с модулями доступна только из нового собственного сообщения в Saved Messages.",
        (Locale::English, LmText::InstallPlan) => "📋 Installation plan\n\nSource: {source}\nModule: {module} v{version}\nProtocol: {protocol}\nEntrypoint: {entrypoint}\nDefault command: {default_command}\nSHA-256: {sha256}\nFingerprint: {fingerprint}\nArchive: {archive_bytes} bytes, files: {file_count}, compressed: {compressed_bytes} bytes, expanded: {expanded_bytes} bytes\nCapabilities: {capabilities}\nSubscriptions: {subscriptions}\nTelegram V6 methods: {methods}\nActions: {actions}\nWarnings: {warnings}\n\nApprovalId: {approval_id}\nConfirm: {prefix}lm confirm {approval_id}\nCancel: {prefix}lm cancel {approval_id}\nExpires in: 10 minutes.",
        (Locale::Russian, LmText::InstallPlan) => "📋 План установки\n\nИсточник: {source}\nМодуль: {module} v{version}\nПротокол: {protocol}\nТочка входа: {entrypoint}\nКоманда по умолчанию: {default_command}\nSHA-256: {sha256}\nОтпечаток: {fingerprint}\nАрхив: {archive_bytes} Байт, файлов: {file_count}, сжато: {compressed_bytes} Байт, распаковано: {expanded_bytes} Байт\nВозможности: {capabilities}\nПодписки: {subscriptions}\nМетоды Telegram V6: {methods}\nДействия: {actions}\nПредупреждения: {warnings}\n\nApprovalId: {approval_id}\nПодтвердите: {prefix}lm confirm {approval_id}\nОтменить: {prefix}lm cancel {approval_id}\nСрок действия: 10 минут.",
        (Locale::English, LmText::StateChanged) => "✅ Module «{id}» is now {detail}.\n\nRun {prefix}reboot to apply the change.",
        (Locale::Russian, LmText::StateChanged) => "✅ Модуль «{id}» {detail}.\n\nДля применения изменений выполните:\n{prefix}reboot",
        (Locale::English, LmText::StateUnchanged) => "ℹ️ Module «{id}» is already {detail}.",
        (Locale::Russian, LmText::StateUnchanged) => "ℹ️ Модуль «{id}» уже {detail}.",
    }
}

/// Labels of the module-management UI.
#[derive(Clone, Copy, Debug, PartialEq, Eq, Structural)]
pub enum LmLabel {
    Enabled,
    Disabled,
    Manual,
    Declarative,
    Absent,
    InvalidId,
    InvalidManifest,
    NotRunning,
    MissingCatalog,
    Status,
    Source,
    Runtime,
    Author,
    Commands,
    Id,
    Version,
    Management,
    Diagnostic,
    LastFailure,
    LastError,
    Capabilities,
    Entrypoint,
    Protocol,
    ProvidedCommands,
    InstallationPlan,
    Archive,
    Repository,
    Warnings,
}

/// The module-management label `key`.
#[verifier::allow_in_spec]
pub fn lm_label(locale: Locale, key: LmLabel) -> &'static str
    returns
        (match (locale, key) {
            (Locale::English, LmLabel::Enabled) => "enabled",
            (Locale::Russian, LmLabel::Enabled) => "включён",
            (Locale::English, LmLabel::Disabled) => "disabled",
            (Locale::Russian, LmLabel::Disabled) => "отключён",
            (Locale::English, LmLabel::Manual) => "manual",
            (Locale::Russian, LmLabel::Manual) => "вручную",
            (Locale::English, LmLabel::Declarative) => "NixOS (declarative)",
            (Locale::Russian, LmLabel::Declarative) => "NixOS (декларативно)",
            (Locale::English, LmLabel::Absent) => "none",
            (Locale::Russian, LmLabel::Absent) => "нет",
            (Locale::English, LmLabel::InvalidId) => "invalid ID",
            (Locale::Russian, LmLabel::InvalidId) => "некорректный ID",
            (Locale::English, LmLabel::InvalidManifest) => "invalid manifest",
            (Locale::Russian, LmLabel::InvalidManifest) => "некорректный манифест",
            (Locale::English, LmLabel::NotRunning) => "not running",
            (Locale::Russian, LmLabel::NotRunning) => "не запущен",
            (Locale::English, LmLabel::MissingCatalog) => "enabled, but missing from the catalog",
            (Locale::Russian, LmLabel::MissingCatalog) => "включён, но каталог отсутствует",
            (Locale::English, LmLabel::Status) => "Status",
            (Locale::Russian, LmLabel::Status) => "Состояние",
            (Locale::English, LmLabel::Source) => "Source",
            (Locale::Russian, LmLabel::Source) => "Источник",
            (Locale::English, LmLabel::Runtime) => "Runtime",
            (Locale::Russian, LmLabel::Runtime) => "Runtime",
            (Locale::English, LmLabel::Author) => "Author",
            (Locale::Russian, LmLabel::Author) => "Автор",
            (Locale::English, LmLabel::Commands) => "Commands",
            (Locale::Russian, LmLabel::Commands) => "Команд",
            (Locale::English, LmLabel::Id) => "ID",
            (Locale::Russian, LmLabel::Id) => "ID",
            (Locale::English, LmLabel::Version) => "Version",
            (Locale::Russian, LmLabel::Version) => "Версия",
            (Locale::English, LmLabel::Management) => "Management",
            (Locale::Russian, LmLabel::Management) => "Управление",
            (Locale::English, LmLabel::Diagnostic) => "Diagnostic",
            (Locale::Russian, LmLabel::Diagnostic) => "Диагностика",
            (Locale::English, LmLabel::LastFailure) => "Last failure",
            (Locale::Russian, LmLabel::LastFailure) => "Последний сбой",
            (Locale::English, LmLabel::LastError) => "Last error",
            (Locale::Russian, LmLabel::LastError) => "Последняя ошибка",
            (Locale::English, LmLabel::Capabilities) => "Capabilities",
            (Locale::Russian, LmLabel::Capabilities) => "Возможности",
            (Locale::English, LmLabel::Entrypoint) => "Entrypoint",
            (Locale::Russian, LmLabel::Entrypoint) => "Точка входа",
            (Locale::English, LmLabel::Protocol) => "Schema/API protocol",
            (Locale::Russian, LmLabel::Protocol) => "Schema/API protocol",
            (Locale::English, LmLabel::ProvidedCommands) => "Provided commands",
            (Locale::Russian, LmLabel::ProvidedCommands) => "Предоставляемые команды",
            (Locale::English, LmLabel::InstallationPlan) => "📋 Installation plan",
            (Locale::Russian, LmLabel::InstallationPlan) => "📋 План установки",
            (Locale::English, LmLabel::Archive) => "archive .lmod",
            (Locale::Russian, LmLabel::Archive) => "архив .lmod",
            (Locale::English, LmLabel::Repository) => "repository",
            (Locale::Russian, LmLabel::Repository) => "репозиторий",
            (Locale::English, LmLabel::Warnings) => "Warnings",
            (Locale::Russian, LmLabel::Warnings) => "Предупреждения",
        }),
{
    match (locale, key) {
        (Locale::English, LmLabel::Enabled) => "enabled",
        (Locale::Russian, LmLabel::Enabled) => "включён",
        (Locale::English, LmLabel::Disabled) => "disabled",
        (Locale::Russian, LmLabel::Disabled) => "отключён",
        (Locale::English, LmLabel::Manual) => "manual",
        (Locale::Russian, LmLabel::Manual) => "вручную",
        (Locale::English, LmLabel::Declarative) => "NixOS (declarative)",
        (Locale::Russian, LmLabel::Declarative) => "NixOS (декларативно)",
        (Locale::English, LmLabel::Absent) => "none",
        (Locale::Russian, LmLabel::Absent) => "нет",
        (Locale::English, LmLabel::InvalidId) => "invalid ID",
        (Locale::Russian, LmLabel::InvalidId) => "некорректный ID",
        (Locale::English, LmLabel::InvalidManifest) => "invalid manifest",
        (Locale::Russian, LmLabel::InvalidManifest) => "некорректный манифест",
        (Locale::English, LmLabel::NotRunning) => "not running",
        (Locale::Russian, LmLabel::NotRunning) => "не запущен",
        (Locale::English, LmLabel::MissingCatalog) => "enabled, but missing from the catalog",
        (Locale::Russian, LmLabel::MissingCatalog) => "включён, но каталог отсутствует",
        (Locale::English, LmLabel::Status) => "Status",
        (Locale::Russian, LmLabel::Status) => "Состояние",
        (Locale::English, LmLabel::Source) => "Source",
        (Locale::Russian, LmLabel::Source) => "Источник",
        (Locale::English, LmLabel::Runtime) => "Runtime",
        (Locale::Russian, LmLabel::Runtime) => "Runtime",
        (Locale::English, LmLabel::Author) => "Author",
        (Locale::Russian, LmLabel::Author) => "Автор",
        (Locale::English, LmLabel::Commands) => "Commands",
        (Locale::Russian, LmLabel::Commands) => "Команд",
        (Locale::English, LmLabel::Id) => "ID",
        (Locale::Russian, LmLabel::Id) => "ID",
        (Locale::English, LmLabel::Version) => "Version",
        (Locale::Russian, LmLabel::Version) => "Версия",
        (Locale::English, LmLabel::Management) => "Management",
        (Locale::Russian, LmLabel::Management) => "Управление",
        (Locale::English, LmLabel::Diagnostic) => "Diagnostic",
        (Locale::Russian, LmLabel::Diagnostic) => "Диагностика",
        (Locale::English, LmLabel::LastFailure) => "Last failure",
        (Locale::Russian, LmLabel::LastFailure) => "Последний сбой",
        (Locale::English, LmLabel::LastError) => "Last error",
        (Locale::Russian, LmLabel::LastError) => "Последняя ошибка",
        (Locale::English, LmLabel::Capabilities) => "Capabilities",
        (Locale::Russian, LmLabel::Capabilities) => "Возможности",
        (Locale::English, LmLabel::Entrypoint) => "Entrypoint",
        (Locale::Russian, LmLabel::Entrypoint) => "Точка входа",
        (Locale::English, LmLabel::Protocol) => "Schema/API protocol",
        (Locale::Russian, LmLabel::Protocol) => "Schema/API protocol",
        (Locale::English, LmLabel::ProvidedCommands) => "Provided commands",
        (Locale::Russian, LmLabel::ProvidedCommands) => "Предоставляемые команды",
        (Locale::English, LmLabel::InstallationPlan) => "📋 Installation plan",
        (Locale::Russian, LmLabel::InstallationPlan) => "📋 План установки",
        (Locale::English, LmLabel::Archive) => "archive .lmod",
        (Locale::Russian, LmLabel::Archive) => "архив .lmod",
        (Locale::English, LmLabel::Repository) => "repository",
        (Locale::Russian, LmLabel::Repository) => "репозиторий",
        (Locale::English, LmLabel::Warnings) => "Warnings",
        (Locale::Russian, LmLabel::Warnings) => "Предупреждения",
    }
}

/// The name of a module runtime status.
#[verifier::allow_in_spec]
pub fn lm_runtime_status(locale: Locale, status: ExternalModuleRuntimeStatus) -> &'static str
    returns
        (match (locale, status) {
            (Locale::English, ExternalModuleRuntimeStatus::Running) => "running",
            (Locale::Russian, ExternalModuleRuntimeStatus::Running) => "активен",
            (Locale::English, ExternalModuleRuntimeStatus::Failed) => "failed",
            (Locale::Russian, ExternalModuleRuntimeStatus::Failed) => "ошибка",
            (Locale::English, ExternalModuleRuntimeStatus::Terminated) => "terminated",
            (Locale::Russian, ExternalModuleRuntimeStatus::Terminated) => "остановлен",
            (Locale::English, ExternalModuleRuntimeStatus::InstalledDisabled) => "installed, disabled",
            (Locale::Russian, ExternalModuleRuntimeStatus::InstalledDisabled) => "установлен, выключен",
        }),
{
    match (locale, status) {
        (Locale::English, ExternalModuleRuntimeStatus::Running) => "running",
        (Locale::Russian, ExternalModuleRuntimeStatus::Running) => "активен",
        (Locale::English, ExternalModuleRuntimeStatus::Failed) => "failed",
        (Locale::Russian, ExternalModuleRuntimeStatus::Failed) => "ошибка",
        (Locale::English, ExternalModuleRuntimeStatus::Terminated) => "terminated",
        (Locale::Russian, ExternalModuleRuntimeStatus::Terminated) => "остановлен",
        (Locale::English, ExternalModuleRuntimeStatus::InstalledDisabled) => "installed, disabled",
        (Locale::Russian, ExternalModuleRuntimeStatus::InstalledDisabled) => "установлен, выключен",
    }
}

/// The text of a package warning.
#[verifier::allow_in_spec]
pub fn inspection_warning_text(locale: Locale, warning: &InspectionWarning) -> &'static str
    returns
        (match (locale, *warning) {
            (Locale::English, InspectionWarning::StoredOnlyArchive) => "archive uses stored (uncompressed) entries",
            (Locale::Russian, InspectionWarning::StoredOnlyArchive) => "архив содержит записи без сжатия",
            (Locale::English, InspectionWarning::TelegramRawNotSandboxed) => "raw Telegram RPC access is not sandboxed",
            (Locale::Russian, InspectionWarning::TelegramRawNotSandboxed) => "доступ к raw Telegram RPC не изолирован песочницей",
        }),
{
    match (locale, warning) {
        (Locale::English, InspectionWarning::StoredOnlyArchive) => "archive uses stored (uncompressed) entries",
        (Locale::Russian, InspectionWarning::StoredOnlyArchive) => "архив содержит записи без сжатия",
        (Locale::English, InspectionWarning::TelegramRawNotSandboxed) => "raw Telegram RPC access is not sandboxed",
        (Locale::Russian, InspectionWarning::TelegramRawNotSandboxed) => "доступ к raw Telegram RPC не изолирован песочницей",
    }
}

} // verus!
