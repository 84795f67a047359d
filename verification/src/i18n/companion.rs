//! Companion setup messages.
use super::Locale;
use vstd::prelude::*;

verus! {

/// Lavis-owned companion setup UI. BotFather's own replies are intentionally
/// never included here: they are parsed, but never translated or echoed.
#[derive(Clone, Copy, Debug, PartialEq, Eq, Structural)]
pub enum SetupText {
    Unavailable,
    SavedMessagesOnly,
    TimedOut,
    AlreadyActive,
    ExistingBot,
    NoActiveSetup,
    Cancelled,
    UsernamePrompt,
    UsernameGenerationFailed,
    UsernameInvalid,
    Usage,
    Plan,
    ConfirmOrCancel,
    WaitingBotFather,
    BotFatherUnavailable,
    BotFatherStartFailed,
    Started,
    BotCheckUnavailable,
    BotUsernameRejected,
    BotLimitReached,
    BotRetryLater,
    BotUnexpected,
    BotStorageFailed,
    BotTimedOut,
    BotVerificationFailed,
    Status,
    StatusIdle,
    StatusIdleValue,
    StatusUnavailable,
    NotConfigured,
    RepairCheckUnavailable,
    RepairStarted,
    RepairNoData,
    RepairDataUnsafe,
    RepairIdentityUnsafe,
    RepairTokenUnsafe,
    RepairTokenMismatch,
    RepairIdentitySaveFailed,
    ProvisionCompleted,
    ProvisionWithoutCommunity,
    ProvisionWithoutFolderCapacity,
    ProvisionWithoutFolderConflict,
    ProvisionFailed,
    StatusBotValidated,
    StatusComplete,
    StatusCompletedWithoutFolderCapacity,
    StatusCompletedWithoutFolderNameConflict,
    StatusCompanionAndCommunityConfigured,
    StatusCompanionConfiguredCommunityPending,
    StatusUnknown,
}

/// The companion setup message `key`.
#[verifier::allow_in_spec]
pub fn setup_text(locale: Locale, key: SetupText) -> &'static str
    returns
        (match (locale, key) {
            (Locale::English, SetupText::Unavailable) => "⚠️ Setup storage is unavailable.",
            (Locale::Russian, SetupText::Unavailable) => "⚠️ Хранилище настройки недоступно.",
            (Locale::English, SetupText::SavedMessagesOnly) => "⚠️ Setup is available only in Saved Messages. Start it there with the active prefix.",
            (Locale::Russian, SetupText::SavedMessagesOnly) => "⚠️ Настройка доступна только в Saved Messages. Запустите её там с активным префиксом.",
            (Locale::English, SetupText::TimedOut) => "⌛ Setup timed out. Persistent data is retained; retry setup or setup repair.",
            (Locale::Russian, SetupText::TimedOut) => "⌛ Настройка остановлена по таймауту. Постоянные данные сохранены; повторите setup или setup repair.",
            (Locale::English, SetupText::AlreadyActive) => "⚠️ Setup is already active. Send cancel to stop it.",
            (Locale::Russian, SetupText::AlreadyActive) => "⚠️ Настройка уже выполняется. Напишите cancel для отмены.",
            (Locale::English, SetupText::ExistingBot) => "ℹ️ The bot already exists. Use setup repair to restore the workspace.",
            (Locale::Russian, SetupText::ExistingBot) => "ℹ️ Бот уже создан. Используйте setup repair для восстановления workspace.",
            (Locale::English, SetupText::NoActiveSetup) => "ℹ️ No active setup to cancel.",
            (Locale::Russian, SetupText::NoActiveSetup) => "ℹ️ Нет активной настройки для отмены.",
            (Locale::English, SetupText::Cancelled) => "✅ Setup cancelled.",
            (Locale::Russian, SetupText::Cancelled) => "✅ Настройка отменена.",
            (Locale::English, SetupText::UsernamePrompt) => "🤖 Enter the bot username ending in _bot.",
            (Locale::Russian, SetupText::UsernamePrompt) => "🤖 Введите желаемое имя бота, оканчивающееся на _bot.",
            (Locale::English, SetupText::UsernameGenerationFailed) => "⚠️ Could not generate a bot username.",
            (Locale::Russian, SetupText::UsernameGenerationFailed) => "⚠️ Не удалось сгенерировать имя бота.",
            (Locale::English, SetupText::UsernameInvalid) => "⚠️ The username must contain 5–32 ASCII letters, digits, or _ and end in _bot.",
            (Locale::Russian, SetupText::UsernameInvalid) => "⚠️ Имя должно содержать 5–32 ASCII-букв, цифр или _ и оканчиваться на _bot.",
            (Locale::English, SetupText::Usage) => "⚠️ Usage: setup [auto|<username_bot>|status|repair|cancel]",
            (Locale::Russian, SetupText::Usage) => "⚠️ Использование: setup [auto|<username_bot>|status|repair|cancel]",
            (Locale::English, SetupText::Plan) => "📋 Setup plan\n\n• Create companion bot @{username} named «{display_name}».\n• Create or repair the private Lavis workspace.\n• Join your account to the official public community @lavis_userbot.\n• Add the workspace, bot, and community to the Lavis folder.\n\nSend confirm to proceed or cancel to stop.",
            (Locale::Russian, SetupText::Plan) => "📋 План настройки\n\n• Создать companion-бота @{username} с именем «{display_name}».\n• Создать или восстановить приватный Lavis workspace.\n• Присоединить ваш Telegram-аккаунт к официальному публичному сообществу @lavis_userbot.\n• Добавить workspace, бота и сообщество в папку Lavis.\n\nНапишите confirm для подтверждения или cancel для отмены.",
            (Locale::English, SetupText::ConfirmOrCancel) => "⚠️ Send confirm or cancel.",
            (Locale::Russian, SetupText::ConfirmOrCancel) => "⚠️ Напишите confirm или cancel.",
            (Locale::English, SetupText::WaitingBotFather) => "ℹ️ Setup is waiting for BotFather.",
            (Locale::Russian, SetupText::WaitingBotFather) => "ℹ️ Настройка ожидает ответ BotFather.",
            (Locale::English, SetupText::BotFatherUnavailable) => "⚠️ Could not contact BotFather.",
            (Locale::Russian, SetupText::BotFatherUnavailable) => "⚠️ Не удалось связаться с BotFather.",
            (Locale::English, SetupText::BotFatherStartFailed) => "⚠️ Could not start the BotFather conversation.",
            (Locale::Russian, SetupText::BotFatherStartFailed) => "⚠️ Не удалось начать диалог с BotFather.",
            (Locale::English, SetupText::Started) => "⏳ Setup started. Waiting for BotFather.",
            (Locale::Russian, SetupText::Started) => "⏳ Настройка начата. Ожидается ответ BotFather.",
            (Locale::English, SetupText::BotCheckUnavailable) => "⚠️ Bot verification is unavailable.",
            (Locale::Russian, SetupText::BotCheckUnavailable) => "⚠️ Проверка бота недоступна.",
            (Locale::English, SetupText::BotUsernameRejected) => "⚠️ BotFather rejected the username. Enter another username ending in _bot.",
            (Locale::Russian, SetupText::BotUsernameRejected) => "⚠️ BotFather отклонил имя. Введите другое имя, оканчивающееся на _bot.",
            (Locale::English, SetupText::BotLimitReached) => "⚠️ BotFather reported that the bot limit was reached.",
            (Locale::Russian, SetupText::BotLimitReached) => "⚠️ BotFather сообщил о достигнутом лимите ботов.",
            (Locale::English, SetupText::BotRetryLater) => "⚠️ BotFather asked you to retry later.",
            (Locale::Russian, SetupText::BotRetryLater) => "⚠️ BotFather просит повторить попытку позже.",
            (Locale::English, SetupText::BotUnexpected) => "⚠️ The BotFather conversation ended due to an unexpected response.",
            (Locale::Russian, SetupText::BotUnexpected) => "⚠️ Диалог с BotFather завершился из-за неожиданного ответа.",
            (Locale::English, SetupText::BotStorageFailed) => "⚠️ Bot data could not be saved safely. Setup stopped.",
            (Locale::Russian, SetupText::BotStorageFailed) => "⚠️ Данные бота не удалось безопасно сохранить. Настройка остановлена.",
            (Locale::English, SetupText::BotTimedOut) => "⚠️ BotFather did not respond in time. Setup stopped.",
            (Locale::Russian, SetupText::BotTimedOut) => "⚠️ BotFather не ответил вовремя. Настройка остановлена.",
            (Locale::English, SetupText::BotVerificationFailed) => "⚠️ Bot verification or storage failed. Setup stopped.",
            (Locale::Russian, SetupText::BotVerificationFailed) => "⚠️ Проверка или сохранение бота завершились ошибкой. Настройка остановлена.",
            (Locale::English, SetupText::Status) => "⚙️ Setup status: {status}\nBot: {bot}",
            (Locale::Russian, SetupText::Status) => "⚙️ Состояние настройки: {status}\nБот: {bot}",
            (Locale::English, SetupText::StatusIdle) => "⚙️ Setup status: idle",
            (Locale::Russian, SetupText::StatusIdle) => "⚙️ Состояние настройки: бездействует",
            (Locale::English, SetupText::StatusIdleValue) => "idle",
            (Locale::Russian, SetupText::StatusIdleValue) => "бездействует",
            (Locale::English, SetupText::StatusUnavailable) => "⚠️ Setup status is unavailable because local state could not be read safely.",
            (Locale::Russian, SetupText::StatusUnavailable) => "⚠️ Состояние настройки недоступно: локальные данные нельзя безопасно прочитать.",
            (Locale::English, SetupText::NotConfigured) => "not configured",
            (Locale::Russian, SetupText::NotConfigured) => "не настроен",
            (Locale::English, SetupText::RepairCheckUnavailable) => "⚠️ Saved bot verification is unavailable.",
            (Locale::Russian, SetupText::RepairCheckUnavailable) => "⚠️ Проверка сохранённого бота недоступна.",
            (Locale::English, SetupText::RepairStarted) => "⏳ Companion workspace repair started.",
            (Locale::Russian, SetupText::RepairStarted) => "⏳ Восстановление companion workspace начато.",
            (Locale::English, SetupText::RepairNoData) => "⚠️ No safe data is available for repair.",
            (Locale::Russian, SetupText::RepairNoData) => "⚠️ Нет безопасных данных для восстановления.",
            (Locale::English, SetupText::RepairDataUnsafe) => "⚠️ Saved data cannot be verified safely.",
            (Locale::Russian, SetupText::RepairDataUnsafe) => "⚠️ Сохранённые данные нельзя безопасно проверить.",
            (Locale::English, SetupText::RepairIdentityUnsafe) => "⚠️ Saved bot identity is incomplete or unsafe.",
            (Locale::Russian, SetupText::RepairIdentityUnsafe) => "⚠️ Сохранённая идентификация бота неполна или небезопасна.",
            (Locale::English, SetupText::RepairTokenUnsafe) => "⚠️ Saved token could not be verified safely. Repair was not started.",
            (Locale::Russian, SetupText::RepairTokenUnsafe) => "⚠️ Сохранённый токен не удалось безопасно проверить. Восстановление не запущено.",
            (Locale::English, SetupText::RepairTokenMismatch) => "⚠️ Saved token does not match the saved bot. Repair was not started.",
            (Locale::Russian, SetupText::RepairTokenMismatch) => "⚠️ Сохранённый токен не соответствует сохранённому боту. Восстановление не запущено.",
            (Locale::English, SetupText::RepairIdentitySaveFailed) => "⚠️ Verified bot identity could not be saved safely. Repair was not started.",
            (Locale::Russian, SetupText::RepairIdentitySaveFailed) => "⚠️ Проверенный идентификатор бота не удалось безопасно сохранить. Восстановление не запущено.",
            (Locale::English, SetupText::ProvisionCompleted) => "✅ Companion workspace and official community @lavis_userbot are configured.",
            (Locale::Russian, SetupText::ProvisionCompleted) => "✅ Companion workspace и официальное сообщество @lavis_userbot настроены.",
            (Locale::English, SetupText::ProvisionWithoutCommunity) => "⚠️ Companion workspace is ready, but joining @lavis_userbot failed. Retry {prefix}setup repair.",
            (Locale::Russian, SetupText::ProvisionWithoutCommunity) => "⚠️ Companion workspace готов, но присоединиться к @lavis_userbot не удалось. Повторите {prefix}setup repair.",
            (Locale::English, SetupText::ProvisionWithoutFolderCapacity) => "⚠️ Companion workspace is configured without a folder: the folder limit was reached. Retry {prefix}setup repair later.",
            (Locale::Russian, SetupText::ProvisionWithoutFolderCapacity) => "⚠️ Companion workspace настроен без папки: достигнут лимит папок. Повторите {prefix}setup repair позже.",
            (Locale::English, SetupText::ProvisionWithoutFolderConflict) => "⚠️ Companion workspace is configured without a folder: its name or ownership conflicts. Retry {prefix}setup repair after resolving it.",
            (Locale::Russian, SetupText::ProvisionWithoutFolderConflict) => "⚠️ Companion workspace настроен без папки: папка занята или принадлежит другой настройке. Повторите {prefix}setup repair после устранения конфликта.",
            (Locale::English, SetupText::ProvisionFailed) => "⚠️ Companion workspace repair did not finish. Retry {prefix}setup repair later.",
            (Locale::English, SetupText::StatusBotValidated) => "bot validated",
            (Locale::Russian, SetupText::StatusBotValidated) => "бот подтверждён",
            (Locale::English, SetupText::StatusComplete) => "complete",
            (Locale::Russian, SetupText::StatusComplete) => "завершено",
            (Locale::English, SetupText::StatusCompletedWithoutFolderCapacity) => "complete without folder (folder limit reached)",
            (Locale::Russian, SetupText::StatusCompletedWithoutFolderCapacity) => "завершено без папки (достигнут лимит папок)",
            (Locale::English, SetupText::StatusCompletedWithoutFolderNameConflict) => "complete without folder (name or ownership conflict)",
            (Locale::Russian, SetupText::StatusCompletedWithoutFolderNameConflict) => "завершено без папки (конфликт имени или владельца)",
            (Locale::English, SetupText::StatusCompanionAndCommunityConfigured) => "companion workspace and community configured",
            (Locale::Russian, SetupText::StatusCompanionAndCommunityConfigured) => "companion workspace и сообщество настроены",
            (Locale::English, SetupText::StatusCompanionConfiguredCommunityPending) => "companion workspace configured; community pending",
            (Locale::Russian, SetupText::StatusCompanionConfiguredCommunityPending) => "companion workspace настроен; сообщество ожидает подключения",
            (Locale::English, SetupText::StatusUnknown) => "unknown",
            (Locale::Russian, SetupText::StatusUnknown) => "неизвестно",
            (Locale::Russian, SetupText::ProvisionFailed) => "⚠️ Восстановление companion workspace не завершено. Повторите {prefix}setup repair позже.",
        }),
{
    match (locale, key) {
        (Locale::English, SetupText::Unavailable) => "⚠️ Setup storage is unavailable.",
        (Locale::Russian, SetupText::Unavailable) => "⚠️ Хранилище настройки недоступно.",
        (Locale::English, SetupText::SavedMessagesOnly) => "⚠️ Setup is available only in Saved Messages. Start it there with the active prefix.",
        (Locale::Russian, SetupText::SavedMessagesOnly) => "⚠️ Настройка доступна только в Saved Messages. Запустите её там с активным префиксом.",
        (Locale::English, SetupText::TimedOut) => "⌛ Setup timed out. Persistent data is retained; retry setup or setup repair.",
        (Locale::Russian, SetupText::TimedOut) => "⌛ Настройка остановлена по таймауту. Постоянные данные сохранены; повторите setup или setup repair.",
        (Locale::English, SetupText::AlreadyActive) => "⚠️ Setup is already active. Send cancel to stop it.",
        (Locale::Russian, SetupText::AlreadyActive) => "⚠️ Настройка уже выполняется. Напишите cancel для отмены.",
        (Locale::English, SetupText::ExistingBot) => "ℹ️ The bot already exists. Use setup repair to restore the workspace.",
        (Locale::Russian, SetupText::ExistingBot) => "ℹ️ Бот уже создан. Используйте setup repair для восстановления workspace.",
        (Locale::English, SetupText::NoActiveSetup) => "ℹ️ No active setup to cancel.",
        (Locale::Russian, SetupText::NoActiveSetup) => "ℹ️ Нет активной настройки для отмены.",
        (Locale::English, SetupText::Cancelled) => "✅ Setup cancelled.",
        (Locale::Russian, SetupText::Cancelled) => "✅ Настройка отменена.",
        (Locale::English, SetupText::UsernamePrompt) => "🤖 Enter the bot username ending in _bot.",
        (Locale::Russian, SetupText::UsernamePrompt) => "🤖 Введите желаемое имя бота, оканчивающееся на _bot.",
        (Locale::English, SetupText::UsernameGenerationFailed) => "⚠️ Could not generate a bot username.",
        (Locale::Russian, SetupText::UsernameGenerationFailed) => "⚠️ Не удалось сгенерировать имя бота.",
        (Locale::English, SetupText::UsernameInvalid) => "⚠️ The username must contain 5–32 ASCII letters, digits, or _ and end in _bot.",
        (Locale::Russian, SetupText::UsernameInvalid) => "⚠️ Имя должно содержать 5–32 ASCII-букв, цифр или _ и оканчиваться на _bot.",
        (Locale::English, SetupText::Usage) => "⚠️ Usage: setup [auto|<username_bot>|status|repair|cancel]",
        (Locale::Russian, SetupText::Usage) => "⚠️ Использование: setup [auto|<username_bot>|status|repair|cancel]",
        (Locale::English, SetupText::Plan) => "📋 Setup plan\n\n• Create companion bot @{username} named «{display_name}».\n• Create or repair the private Lavis workspace.\n• Join your account to the official public community @lavis_userbot.\n• Add the workspace, bot, and community to the Lavis folder.\n\nSend confirm to proceed or cancel to stop.",
        (Locale::Russian, SetupText::Plan) => "📋 План настройки\n\n• Создать companion-бота @{username} с именем «{display_name}».\n• Создать или восстановить приватный Lavis workspace.\n• Присоединить ваш Telegram-аккаунт к официальному публичному сообществу @lavis_userbot.\n• Добавить workspace, бота и сообщество в папку Lavis.\n\nНапишите confirm для подтверждения или cancel для отмены.",
        (Locale::English, SetupText::ConfirmOrCancel) => "⚠️ Send confirm or cancel.",
        (Locale::Russian, SetupText::ConfirmOrCancel) => "⚠️ Напишите confirm или cancel.",
        (Locale::English, SetupText::WaitingBotFather) => "ℹ️ Setup is waiting for BotFather.",
        (Locale::Russian, SetupText::WaitingBotFather) => "ℹ️ Настройка ожидает ответ BotFather.",
        (Locale::English, SetupText::BotFatherUnavailable) => "⚠️ Could not contact BotFather.",
        (Locale::Russian, SetupText::BotFatherUnavailable) => "⚠️ Не удалось связаться с BotFather.",
        (Locale::English, SetupText::BotFatherStartFailed) => "⚠️ Could not start the BotFather conversation.",
        (Locale::Russian, SetupText::BotFatherStartFailed) => "⚠️ Не удалось начать диалог с BotFather.",
        (Locale::English, SetupText::Started) => "⏳ Setup started. Waiting for BotFather.",
        (Locale::Russian, SetupText::Started) => "⏳ Настройка начата. Ожидается ответ BotFather.",
        (Locale::English, SetupText::BotCheckUnavailable) => "⚠️ Bot verification is unavailable.",
        (Locale::Russian, SetupText::BotCheckUnavailable) => "⚠️ Проверка бота недоступна.",
        (Locale::English, SetupText::BotUsernameRejected) => "⚠️ BotFather rejected the username. Enter another username ending in _bot.",
        (Locale::Russian, SetupText::BotUsernameRejected) => "⚠️ BotFather отклонил имя. Введите другое имя, оканчивающееся на _bot.",
        (Locale::English, SetupText::BotLimitReached) => "⚠️ BotFather reported that the bot limit was reached.",
        (Locale::Russian, SetupText::BotLimitReached) => "⚠️ BotFather сообщил о достигнутом лимите ботов.",
        (Locale::English, SetupText::BotRetryLater) => "⚠️ BotFather asked you to retry later.",
        (Locale::Russian, SetupText::BotRetryLater) => "⚠️ BotFather просит повторить попытку позже.",
        (Locale::English, SetupText::BotUnexpected) => "⚠️ The BotFather conversation ended due to an unexpected response.",
        (Locale::Russian, SetupText::BotUnexpected) => "⚠️ Диалог с BotFather завершился из-за неожиданного ответа.",
        (Locale::English, SetupText::BotStorageFailed) => "⚠️ Bot data could not be saved safely. Setup stopped.",
        (Locale::Russian, SetupText::BotStorageFailed) => "⚠️ Данные бота не удалось безопасно сохранить. Настройка остановлена.",
        (Locale::English, SetupText::BotTimedOut) => "⚠️ BotFather did not respond in time. Setup stopped.",
        (Locale::Russian, SetupText::BotTimedOut) => "⚠️ BotFather не ответил вовремя. Настройка остановлена.",
        (Locale::English, SetupText::BotVerificationFailed) => "⚠️ Bot verification or storage failed. Setup stopped.",
        (Locale::Russian, SetupText::BotVerificationFailed) => "⚠️ Проверка или сохранение бота завершились ошибкой. Настройка остановлена.",
        (Locale::English, SetupText::Status) => "⚙️ Setup status: {status}\nBot: {bot}",
        (Locale::Russian, SetupText::Status) => "⚙️ Состояние настройки: {status}\nБот: {bot}",
        (Locale::English, SetupText::StatusIdle) => "⚙️ Setup status: idle",
        (Locale::Russian, SetupText::StatusIdle) => "⚙️ Состояние настройки: бездействует",
        (Locale::English, SetupText::StatusIdleValue) => "idle",
        (Locale::Russian, SetupText::StatusIdleValue) => "бездействует",
        (Locale::English, SetupText::StatusUnavailable) => "⚠️ Setup status is unavailable because local state could not be read safely.",
        (Locale::Russian, SetupText::StatusUnavailable) => "⚠️ Состояние настройки недоступно: локальные данные нельзя безопасно прочитать.",
        (Locale::English, SetupText::NotConfigured) => "not configured",
        (Locale::Russian, SetupText::NotConfigured) => "не настроен",
        (Locale::English, SetupText::RepairCheckUnavailable) => "⚠️ Saved bot verification is unavailable.",
        (Locale::Russian, SetupText::RepairCheckUnavailable) => "⚠️ Проверка сохранённого бота недоступна.",
        (Locale::English, SetupText::RepairStarted) => "⏳ Companion workspace repair started.",
        (Locale::Russian, SetupText::RepairStarted) => "⏳ Восстановление companion workspace начато.",
        (Locale::English, SetupText::RepairNoData) => "⚠️ No safe data is available for repair.",
        (Locale::Russian, SetupText::RepairNoData) => "⚠️ Нет безопасных данных для восстановления.",
        (Locale::English, SetupText::RepairDataUnsafe) => "⚠️ Saved data cannot be verified safely.",
        (Locale::Russian, SetupText::RepairDataUnsafe) => "⚠️ Сохранённые данные нельзя безопасно проверить.",
        (Locale::English, SetupText::RepairIdentityUnsafe) => "⚠️ Saved bot identity is incomplete or unsafe.",
        (Locale::Russian, SetupText::RepairIdentityUnsafe) => "⚠️ Сохранённая идентификация бота неполна или небезопасна.",
        (Locale::English, SetupText::RepairTokenUnsafe) => "⚠️ Saved token could not be verified safely. Repair was not started.",
        (Locale::Russian, SetupText::RepairTokenUnsafe) => "⚠️ Сохранённый токен не удалось безопасно проверить. Восстановление не запущено.",
        (Locale::English, SetupText::RepairTokenMismatch) => "⚠️ Saved token does not match the saved bot. Repair was not started.",
        (Locale::Russian, SetupText::RepairTokenMismatch) => "⚠️ Сохранённый токен не соответствует сохранённому боту. Восстановление не запущено.",
        (Locale::English, SetupText::RepairIdentitySaveFailed) => "⚠️ Verified bot identity could not be saved safely. Repair was not started.",
        (Locale::Russian, SetupText::RepairIdentitySaveFailed) => "⚠️ Проверенный идентификатор бота не удалось безопасно сохранить. Восстановление не запущено.",
        (Locale::English, SetupText::ProvisionCompleted) => "✅ Companion workspace and official community @lavis_userbot are configured.",
        (Locale::Russian, SetupText::ProvisionCompleted) => "✅ Companion workspace и официальное сообщество @lavis_userbot настроены.",
        (Locale::English, SetupText::ProvisionWithoutCommunity) => "⚠️ Companion workspace is ready, but joining @lavis_userbot failed. Retry {prefix}setup repair.",
        (Locale::Russian, SetupText::ProvisionWithoutCommunity) => "⚠️ Companion workspace готов, но присоединиться к @lavis_userbot не удалось. Повторите {prefix}setup repair.",
        (Locale::English, SetupText::ProvisionWithoutFolderCapacity) => "⚠️ Companion workspace is configured without a folder: the folder limit was reached. Retry {prefix}setup repair later.",
        (Locale::Russian, SetupText::ProvisionWithoutFolderCapacity) => "⚠️ Companion workspace настроен без папки: достигнут лимит папок. Повторите {prefix}setup repair позже.",
        (Locale::English, SetupText::ProvisionWithoutFolderConflict) => "⚠️ Companion workspace is configured without a folder: its name or ownership conflicts. Retry {prefix}setup repair after resolving it.",
        (Locale::Russian, SetupText::ProvisionWithoutFolderConflict) => "⚠️ Companion workspace настроен без папки: папка занята или принадлежит другой настройке. Повторите {prefix}setup repair после устранения конфликта.",
        (Locale::English, SetupText::ProvisionFailed) => "⚠️ Companion workspace repair did not finish. Retry {prefix}setup repair later.",
        (Locale::English, SetupText::StatusBotValidated) => "bot validated",
        (Locale::Russian, SetupText::StatusBotValidated) => "бот подтверждён",
        (Locale::English, SetupText::StatusComplete) => "complete",
        (Locale::Russian, SetupText::StatusComplete) => "завершено",
        (Locale::English, SetupText::StatusCompletedWithoutFolderCapacity) => "complete without folder (folder limit reached)",
        (Locale::Russian, SetupText::StatusCompletedWithoutFolderCapacity) => "завершено без папки (достигнут лимит папок)",
        (Locale::English, SetupText::StatusCompletedWithoutFolderNameConflict) => "complete without folder (name or ownership conflict)",
        (Locale::Russian, SetupText::StatusCompletedWithoutFolderNameConflict) => "завершено без папки (конфликт имени или владельца)",
        (Locale::English, SetupText::StatusCompanionAndCommunityConfigured) => "companion workspace and community configured",
        (Locale::Russian, SetupText::StatusCompanionAndCommunityConfigured) => "companion workspace и сообщество настроены",
        (Locale::English, SetupText::StatusCompanionConfiguredCommunityPending) => "companion workspace configured; community pending",
        (Locale::Russian, SetupText::StatusCompanionConfiguredCommunityPending) => "companion workspace настроен; сообщество ожидает подключения",
        (Locale::English, SetupText::StatusUnknown) => "unknown",
        (Locale::Russian, SetupText::StatusUnknown) => "неизвестно",
        (Locale::Russian, SetupText::ProvisionFailed) => "⚠️ Восстановление companion workspace не завершено. Повторите {prefix}setup repair позже.",
    }
}

} // verus!
