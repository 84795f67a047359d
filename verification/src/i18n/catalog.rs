//! What holds of every message of the catalog: both languages say it, with the same placeholders.
use super::companion::{setup_text, SetupText};
use super::modules::{lm_text, LmText};
use super::Locale;
use crate::i18n;
use vstd::prelude::*;

verus! {

/// Whether a character is a Cyrillic letter.
pub open spec fn cyrillic(c: char) -> bool {
    '\u{400}' <= c && c <= '\u{4ff}'
}

/// Whether a text holds no Cyrillic letter.
pub open spec fn without_cyrillic(text: Seq<char>) -> bool {
    forall|i: int| 0 <= i < text.len() ==> !cyrillic(#[trigger] text[i])
}

/// The names of the placeholders of `template`, read as [`i18n::interpolated`] reads them.
pub open spec fn placeholders(template: Seq<char>) -> Set<Seq<char>>
    decreases template.len(),
{
    let start = i18n::index_of(template, '{') as int;
    let after = template.skip(start + 1);
    let end = i18n::index_of(after, '}') as int;
    if start >= template.len() || end >= after.len() {
        Set::empty()
    } else {
        placeholders(after.skip(end + 1)).insert(after.take(end))
    }
}

/// Whether no placeholder begins in `from..to` of a text.
spec fn no_brace(text: Seq<char>, from: int, to: int) -> bool {
    forall|i: int| from <= i < to ==> #[trigger] text[i] != '{'
}

/// Whether no placeholder begins from `from` on.
#[verifier::opaque]
spec fn last_part(text: Seq<char>, from: int) -> bool {
    0 <= from <= text.len() && no_brace(text, from, text.len() as int)
}

/// Whether `open..=close` holds the placeholder `name`, the first from `from` on.
#[verifier::opaque]
spec fn next_part(text: Seq<char>, from: int, open: int, close: int, name: Seq<char>) -> bool {
    &&& 0 <= from <= open < close < text.len()
    &&& no_brace(text, from, open)
    &&& text[open] == '{' && text[close] == '}'
    &&& text.subrange(open + 1, close) == name
    &&& !name.contains('}')
}

proof fn lemma_last_part(text: Seq<char>, from: int)
    requires
        last_part(text, from),
    ensures
        placeholders(text.skip(from)) == Set::<Seq<char>>::empty(),
{
    reveal(last_part);
    let rest = text.skip(from);
    assert forall|i: int| 0 <= i < rest.len() implies rest[i] != '{' by {
        assert(rest[i] == text[from + i]);
    }
    super::lemma_index_of_is(rest, '{', rest.len() as int);
}

proof fn lemma_next_part(text: Seq<char>, from: int, open: int, close: int, name: Seq<char>)
    requires
        next_part(text, from, open, close, name),
    ensures
        placeholders(text.skip(from)) == placeholders(text.skip(close + 1)).insert(name),
{
    reveal(next_part);
    let rest = text.skip(from);
    assert forall|i: int| 0 <= i < open - from implies rest[i] != '{' by {
        assert(rest[i] == text[from + i]);
    }
    super::lemma_index_of_is(rest, '{', open - from);
    let after = rest.skip(open - from + 1);
    assert forall|i: int| 0 <= i < close - open - 1 implies after[i] != '}' by {
        assert(after[i] == name[i]);
        assert(name.contains(name[i]));
    }
    super::lemma_index_of_is(after, '}', close - open - 1);
    assert(after.take(close - open - 1) == name);
    assert(after.skip(close - open) == text.skip(close + 1));
}

/// Whether the two languages of a message belong together: they hold the same placeholders, both say
/// something and not the same, and the English one holds no Cyrillic letter.
pub open spec fn agree(english: Seq<char>, russian: Seq<char>) -> bool {
    &&& placeholders(english) == placeholders(russian)
    &&& english.len() > 0
    &&& russian.len() > 0
    &&& english != russian
    &&& without_cyrillic(english)
}

/// Two texts without placeholders, of which one differs from the other at `at`.
proof fn lemma_plain(english: Seq<char>, russian: Seq<char>, at: int)
    requires
        no_brace(english, 0, english.len() as int),
        no_brace(russian, 0, russian.len() as int),
        without_cyrillic(english),
        0 <= at < english.len() && at < russian.len(),
        english[at] != russian[at],
    ensures
        agree(english, russian),
{
    reveal(last_part);
    lemma_last_part(english, 0);
    lemma_last_part(russian, 0);
    assert(english.skip(0) == english);
    assert(russian.skip(0) == russian);
}

proof fn lemma_setup_plan()
    ensures
        agree(
            "📋 Setup plan\n\n• Create companion bot @{username} named «{display_name}».\n• Create or repair the private Lavis workspace.\n• Join your account to the official public community @lavis_userbot.\n• Add the workspace, bot, and community to the Lavis folder.\n\nSend confirm to proceed or cancel to stop."@,
            "📋 План настройки\n\n• Создать companion-бота @{username} с именем «{display_name}».\n• Создать или восстановить приватный Lavis workspace.\n• Присоединить ваш Telegram-аккаунт к официальному публичному сообществу @lavis_userbot.\n• Добавить workspace, бота и сообщество в папку Lavis.\n\nНапишите confirm для подтверждения или cancel для отмены."@,
        ),
{
    let english = "📋 Setup plan\n\n• Create companion bot @{username} named «{display_name}».\n• Create or repair the private Lavis workspace.\n• Join your account to the official public community @lavis_userbot.\n• Add the workspace, bot, and community to the Lavis folder.\n\nSend confirm to proceed or cancel to stop."@;
    let russian = "📋 План настройки\n\n• Создать companion-бота @{username} с именем «{display_name}».\n• Создать или восстановить приватный Lavis workspace.\n• Присоединить ваш Telegram-аккаунт к официальному публичному сообществу @lavis_userbot.\n• Добавить workspace, бота и сообщество в папку Lavis.\n\nНапишите confirm для подтверждения или cancel для отмены."@;
    reveal_strlit("📋 Setup plan\n\n• Create companion bot @{username} named «{display_name}».\n• Create or repair the private Lavis workspace.\n• Join your account to the official public community @lavis_userbot.\n• Add the workspace, bot, and community to the Lavis folder.\n\nSend confirm to proceed or cancel to stop.");
    reveal_strlit("📋 План настройки\n\n• Создать companion-бота @{username} с именем «{display_name}».\n• Создать или восстановить приватный Lavis workspace.\n• Присоединить ваш Telegram-аккаунт к официальному публичному сообществу @lavis_userbot.\n• Добавить workspace, бота и сообщество в папку Lavis.\n\nНапишите confirm для подтверждения или cancel для отмены.");
    assert(english[2] != russian[2]);
    reveal_strlit("username");
    reveal_strlit("display_name");
    assert(next_part(english, 0, 38, 47, "username"@)) by {
        reveal(next_part);
        assert(english.subrange(39, 47) == "username"@);
    }
    lemma_next_part(english, 0, 38, 47, "username"@);
    assert(next_part(english, 48, 56, 69, "display_name"@)) by {
        reveal(next_part);
        assert(english.subrange(57, 69) == "display_name"@);
    }
    lemma_next_part(english, 48, 56, 69, "display_name"@);
    assert(last_part(english, 70)) by {
        reveal(last_part);
    }
    lemma_last_part(english, 70);
    assert(english.skip(0) == english);
    assert(next_part(russian, 0, 44, 53, "username"@)) by {
        reveal(next_part);
        assert(russian.subrange(45, 53) == "username"@);
    }
    lemma_next_part(russian, 0, 44, 53, "username"@);
    assert(next_part(russian, 54, 65, 78, "display_name"@)) by {
        reveal(next_part);
        assert(russian.subrange(66, 78) == "display_name"@);
    }
    lemma_next_part(russian, 54, 65, 78, "display_name"@);
    assert(last_part(russian, 79)) by {
        reveal(last_part);
    }
    lemma_last_part(russian, 79);
    assert(russian.skip(0) == russian);
}

proof fn lemma_setup_status()
    ensures
        agree(
            "⚙️ Setup status: {status}\nBot: {bot}"@,
            "⚙️ Состояние настройки: {status}\nБот: {bot}"@,
        ),
{
    let english = "⚙️ Setup status: {status}\nBot: {bot}"@;
    let russian = "⚙️ Состояние настройки: {status}\nБот: {bot}"@;
    reveal_strlit("⚙️ Setup status: {status}\nBot: {bot}");
    reveal_strlit("⚙️ Состояние настройки: {status}\nБот: {bot}");
    assert(english[3] != russian[3]);
    reveal_strlit("status");
    reveal_strlit("bot");
    assert(next_part(english, 0, 17, 24, "status"@)) by {
        reveal(next_part);
        assert(english.subrange(18, 24) == "status"@);
    }
    lemma_next_part(english, 0, 17, 24, "status"@);
    assert(next_part(english, 25, 31, 35, "bot"@)) by {
        reveal(next_part);
        assert(english.subrange(32, 35) == "bot"@);
    }
    lemma_next_part(english, 25, 31, 35, "bot"@);
    assert(last_part(english, 36)) by {
        reveal(last_part);
    }
    lemma_last_part(english, 36);
    assert(english.skip(0) == english);
    assert(next_part(russian, 0, 24, 31, "status"@)) by {
        reveal(next_part);
        assert(russian.subrange(25, 31) == "status"@);
    }
    lemma_next_part(russian, 0, 24, 31, "status"@);
    assert(next_part(russian, 32, 38, 42, "bot"@)) by {
        reveal(next_part);
        assert(russian.subrange(39, 42) == "bot"@);
    }
    lemma_next_part(russian, 32, 38, 42, "bot"@);
    assert(last_part(russian, 43)) by {
        reveal(last_part);
    }
    lemma_last_part(russian, 43);
    assert(russian.skip(0) == russian);
}

proof fn lemma_setup_provision_without_community()
    ensures
        agree(
            "⚠️ Companion workspace is ready, but joining @lavis_userbot failed. Retry {prefix}setup repair."@,
            "⚠️ Companion workspace готов, но присоединиться к @lavis_userbot не удалось. Повторите {prefix}setup repair."@,
        ),
{
    let english = "⚠️ Companion workspace is ready, but joining @lavis_userbot failed. Retry {prefix}setup repair."@;
    let russian = "⚠️ Companion workspace готов, но присоединиться к @lavis_userbot не удалось. Повторите {prefix}setup repair."@;
    reveal_strlit("⚠️ Companion workspace is ready, but joining @lavis_userbot failed. Retry {prefix}setup repair.");
    reveal_strlit("⚠️ Companion workspace готов, но присоединиться к @lavis_userbot не удалось. Повторите {prefix}setup repair.");
    assert(english[23] != russian[23]);
    reveal_strlit("prefix");
    assert(next_part(english, 0, 74, 81, "prefix"@)) by {
        reveal(next_part);
        assert(english.subrange(75, 81) == "prefix"@);
    }
    lemma_next_part(english, 0, 74, 81, "prefix"@);
    assert(last_part(english, 82)) by {
        reveal(last_part);
    }
    lemma_last_part(english, 82);
    assert(english.skip(0) == english);
    assert(next_part(russian, 0, 87, 94, "prefix"@)) by {
        reveal(next_part);
        assert(russian.subrange(88, 94) == "prefix"@);
    }
    lemma_next_part(russian, 0, 87, 94, "prefix"@);
    assert(last_part(russian, 95)) by {
        reveal(last_part);
    }
    lemma_last_part(russian, 95);
    assert(russian.skip(0) == russian);
}

proof fn lemma_setup_provision_without_folder_capacity()
    ensures
        agree(
            "⚠️ Companion workspace is configured without a folder: the folder limit was reached. Retry {prefix}setup repair later."@,
            "⚠️ Companion workspace настроен без папки: достигнут лимит папок. Повторите {prefix}setup repair позже."@,
        ),
{
    let english = "⚠️ Companion workspace is configured without a folder: the folder limit was reached. Retry {prefix}setup repair later."@;
    let russian = "⚠️ Companion workspace настроен без папки: достигнут лимит папок. Повторите {prefix}setup repair позже."@;
    reveal_strlit("⚠️ Companion workspace is configured without a folder: the folder limit was reached. Retry {prefix}setup repair later.");
    reveal_strlit("⚠️ Companion workspace настроен без папки: достигнут лимит папок. Повторите {prefix}setup repair позже.");
    assert(english[23] != russian[23]);
    reveal_strlit("prefix");
    assert(next_part(english, 0, 91, 98, "prefix"@)) by {
        reveal(next_part);
        assert(english.subrange(92, 98) == "prefix"@);
    }
    lemma_next_part(english, 0, 91, 98, "prefix"@);
    assert(last_part(english, 99)) by {
        reveal(last_part);
    }
    lemma_last_part(english, 99);
    assert(english.skip(0) == english);
    assert(next_part(russian, 0, 76, 83, "prefix"@)) by {
        reveal(next_part);
        assert(russian.subrange(77, 83) == "prefix"@);
    }
    lemma_next_part(russian, 0, 76, 83, "prefix"@);
    assert(last_part(russian, 84)) by {
        reveal(last_part);
    }
    lemma_last_part(russian, 84);
    assert(russian.skip(0) == russian);
}

proof fn lemma_setup_provision_without_folder_conflict()
    ensures
        agree(
            "⚠️ Companion workspace is configured without a folder: its name or ownership conflicts. Retry {prefix}setup repair after resolving it."@,
            "⚠️ Companion workspace настроен без папки: папка занята или принадлежит другой настройке. Повторите {prefix}setup repair после устранения конфликта."@,
        ),
{
    let english = "⚠️ Companion workspace is configured without a folder: its name or ownership conflicts. Retry {prefix}setup repair after resolving it."@;
    let russian = "⚠️ Companion workspace настроен без папки: папка занята или принадлежит другой настройке. Повторите {prefix}setup repair после устранения конфликта."@;
    reveal_strlit("⚠️ Companion workspace is configured without a folder: its name or ownership conflicts. Retry {prefix}setup repair after resolving it.");
    reveal_strlit("⚠️ Companion workspace настроен без папки: папка занята или принадлежит другой настройке. Повторите {prefix}setup repair после устранения конфликта.");
    assert(english[23] != russian[23]);
    reveal_strlit("prefix");
    assert(next_part(english, 0, 94, 101, "prefix"@)) by {
        reveal(next_part);
        assert(english.subrange(95, 101) == "prefix"@);
    }
    lemma_next_part(english, 0, 94, 101, "prefix"@);
    assert(last_part(english, 102)) by {
        reveal(last_part);
    }
    lemma_last_part(english, 102);
    assert(english.skip(0) == english);
    assert(next_part(russian, 0, 100, 107, "prefix"@)) by {
        reveal(next_part);
        assert(russian.subrange(101, 107) == "prefix"@);
    }
    lemma_next_part(russian, 0, 100, 107, "prefix"@);
    assert(last_part(russian, 108)) by {
        reveal(last_part);
    }
    lemma_last_part(russian, 108);
    assert(russian.skip(0) == russian);
}

proof fn lemma_setup_provision_failed()
    ensures
        agree(
            "⚠️ Companion workspace repair did not finish. Retry {prefix}setup repair later."@,
            "⚠️ Восстановление companion workspace не завершено. Повторите {prefix}setup repair позже."@,
        ),
{
    let english = "⚠️ Companion workspace repair did not finish. Retry {prefix}setup repair later."@;
    let russian = "⚠️ Восстановление companion workspace не завершено. Повторите {prefix}setup repair позже."@;
    reveal_strlit("⚠️ Companion workspace repair did not finish. Retry {prefix}setup repair later.");
    reveal_strlit("⚠️ Восстановление companion workspace не завершено. Повторите {prefix}setup repair позже.");
    assert(english[3] != russian[3]);
    reveal_strlit("prefix");
    assert(next_part(english, 0, 52, 59, "prefix"@)) by {
        reveal(next_part);
        assert(english.subrange(53, 59) == "prefix"@);
    }
    lemma_next_part(english, 0, 52, 59, "prefix"@);
    assert(last_part(english, 60)) by {
        reveal(last_part);
    }
    lemma_last_part(english, 60);
    assert(english.skip(0) == english);
    assert(next_part(russian, 0, 62, 69, "prefix"@)) by {
        reveal(next_part);
        assert(russian.subrange(63, 69) == "prefix"@);
    }
    lemma_next_part(russian, 0, 62, 69, "prefix"@);
    assert(last_part(russian, 70)) by {
        reveal(last_part);
    }
    lemma_last_part(russian, 70);
    assert(russian.skip(0) == russian);
}

/// Every setup message is said in both languages: with the same placeholders, in words of their own, and
/// in English without a Cyrillic letter.
pub proof fn setup_messages_agree(key: SetupText)
    ensures
        agree(setup_text(Locale::English, key)@, setup_text(Locale::Russian, key)@),
{
    match key {
        SetupText::Unavailable => assert(agree("⚠️ Setup storage is unavailable."@, "⚠️ Хранилище настройки недоступно."@)) by {
            reveal_strlit("⚠️ Setup storage is unavailable.");
            reveal_strlit("⚠️ Хранилище настройки недоступно.");
            lemma_plain("⚠️ Setup storage is unavailable."@, "⚠️ Хранилище настройки недоступно."@, 3);
        },
        SetupText::SavedMessagesOnly => assert(agree("⚠️ Setup is available only in Saved Messages. Start it there with the active prefix."@, "⚠️ Настройка доступна только в Saved Messages. Запустите её там с активным префиксом."@)) by {
            reveal_strlit("⚠️ Setup is available only in Saved Messages. Start it there with the active prefix.");
            reveal_strlit("⚠️ Настройка доступна только в Saved Messages. Запустите её там с активным префиксом.");
            lemma_plain("⚠️ Setup is available only in Saved Messages. Start it there with the active prefix."@, "⚠️ Настройка доступна только в Saved Messages. Запустите её там с активным префиксом."@, 3);
        },
        SetupText::TimedOut => assert(agree("⌛ Setup timed out. Persistent data is retained; retry setup or setup repair."@, "⌛ Настройка остановлена по таймауту. Постоянные данные сохранены; повторите setup или setup repair."@)) by {
            reveal_strlit("⌛ Setup timed out. Persistent data is retained; retry setup or setup repair.");
            reveal_strlit("⌛ Настройка остановлена по таймауту. Постоянные данные сохранены; повторите setup или setup repair.");
            lemma_plain("⌛ Setup timed out. Persistent data is retained; retry setup or setup repair."@, "⌛ Настройка остановлена по таймауту. Постоянные данные сохранены; повторите setup или setup repair."@, 2);
        },
        SetupText::AlreadyActive => assert(agree("⚠️ Setup is already active. Send cancel to stop it."@, "⚠️ Настройка уже выполняется. Напишите cancel для отмены."@)) by {
            reveal_strlit("⚠️ Setup is already active. Send cancel to stop it.");
            reveal_strlit("⚠️ Настройка уже выполняется. Напишите cancel для отмены.");
            lemma_plain("⚠️ Setup is already active. Send cancel to stop it."@, "⚠️ Настройка уже выполняется. Напишите cancel для отмены."@, 3);
        },
        SetupText::ExistingBot => assert(agree("ℹ️ The bot already exists. Use setup repair to restore the workspace."@, "ℹ️ Бот уже создан. Используйте setup repair для восстановления workspace."@)) by {
            reveal_strlit("ℹ️ The bot already exists. Use setup repair to restore the workspace.");
            reveal_strlit("ℹ️ Бот уже создан. Используйте setup repair для восстановления workspace.");
            lemma_plain("ℹ️ The bot already exists. Use setup repair to restore the workspace."@, "ℹ️ Бот уже создан. Используйте setup repair для восстановления workspace."@, 3);
        },
        SetupText::NoActiveSetup => assert(agree("ℹ️ No active setup to cancel."@, "ℹ️ Нет активной настройки для отмены."@)) by {
            reveal_strlit("ℹ️ No active setup to cancel.");
            reveal_strlit("ℹ️ Нет активной настройки для отмены.");
            lemma_plain("ℹ️ No active setup to cancel."@, "ℹ️ Нет активной настройки для отмены."@, 3);
        },
        SetupText::Cancelled => assert(agree("✅ Setup cancelled."@, "✅ Настройка отменена."@)) by {
            reveal_strlit("✅ Setup cancelled.");
            reveal_strlit("✅ Настройка отменена.");
            lemma_plain("✅ Setup cancelled."@, "✅ Настройка отменена."@, 2);
        },
        SetupText::UsernamePrompt => assert(agree("🤖 Enter the bot username ending in _bot."@, "🤖 Введите желаемое имя бота, оканчивающееся на _bot."@)) by {
            reveal_strlit("🤖 Enter the bot username ending in _bot.");
            reveal_strlit("🤖 Введите желаемое имя бота, оканчивающееся на _bot.");
            lemma_plain("🤖 Enter the bot username ending in _bot."@, "🤖 Введите желаемое имя бота, оканчивающееся на _bot."@, 2);
        },
        SetupText::UsernameGenerationFailed => assert(agree("⚠️ Could not generate a bot username."@, "⚠️ Не удалось сгенерировать имя бота."@)) by {
            reveal_strlit("⚠️ Could not generate a bot username.");
            reveal_strlit("⚠️ Не удалось сгенерировать имя бота.");
            lemma_plain("⚠️ Could not generate a bot username."@, "⚠️ Не удалось сгенерировать имя бота."@, 3);
        },
        SetupText::UsernameInvalid => assert(agree("⚠️ The username must contain 5–32 ASCII letters, digits, or _ and end in _bot."@, "⚠️ Имя должно содержать 5–32 ASCII-букв, цифр или _ и оканчиваться на _bot."@)) by {
            reveal_strlit("⚠️ The username must contain 5–32 ASCII letters, digits, or _ and end in _bot.");
            reveal_strlit("⚠️ Имя должно содержать 5–32 ASCII-букв, цифр или _ и оканчиваться на _bot.");
            lemma_plain("⚠️ The username must contain 5–32 ASCII letters, digits, or _ and end in _bot."@, "⚠️ Имя должно содержать 5–32 ASCII-букв, цифр или _ и оканчиваться на _bot."@, 3);
        },
        SetupText::Usage => assert(agree("⚠️ Usage: setup [auto|<username_bot>|status|repair|cancel]"@, "⚠️ Использование: setup [auto|<username_bot>|status|repair|cancel]"@)) by {
            reveal_strlit("⚠️ Usage: setup [auto|<username_bot>|status|repair|cancel]");
            reveal_strlit("⚠️ Использование: setup [auto|<username_bot>|status|repair|cancel]");
            lemma_plain("⚠️ Usage: setup [auto|<username_bot>|status|repair|cancel]"@, "⚠️ Использование: setup [auto|<username_bot>|status|repair|cancel]"@, 3);
        },
        SetupText::Plan => lemma_setup_plan(),
        SetupText::ConfirmOrCancel => assert(agree("⚠️ Send confirm or cancel."@, "⚠️ Напишите confirm или cancel."@)) by {
            reveal_strlit("⚠️ Send confirm or cancel.");
            reveal_strlit("⚠️ Напишите confirm или cancel.");
            lemma_plain("⚠️ Send confirm or cancel."@, "⚠️ Напишите confirm или cancel."@, 3);
        },
        SetupText::WaitingBotFather => assert(agree("ℹ️ Setup is waiting for BotFather."@, "ℹ️ Настройка ожидает ответ BotFather."@)) by {
            reveal_strlit("ℹ️ Setup is waiting for BotFather.");
            reveal_strlit("ℹ️ Настройка ожидает ответ BotFather.");
            lemma_plain("ℹ️ Setup is waiting for BotFather."@, "ℹ️ Настройка ожидает ответ BotFather."@, 3);
        },
        SetupText::BotFatherUnavailable => assert(agree("⚠️ Could not contact BotFather."@, "⚠️ Не удалось связаться с BotFather."@)) by {
            reveal_strlit("⚠️ Could not contact BotFather.");
            reveal_strlit("⚠️ Не удалось связаться с BotFather.");
            lemma_plain("⚠️ Could not contact BotFather."@, "⚠️ Не удалось связаться с BotFather."@, 3);
        },
        SetupText::BotFatherStartFailed => assert(agree("⚠️ Could not start the BotFather conversation."@, "⚠️ Не удалось начать диалог с BotFather."@)) by {
            reveal_strlit("⚠️ Could not start the BotFather conversation.");
            reveal_strlit("⚠️ Не удалось начать диалог с BotFather.");
            lemma_plain("⚠️ Could not start the BotFather conversation."@, "⚠️ Не удалось начать диалог с BotFather."@, 3);
        },
        SetupText::Started => assert(agree("⏳ Setup started. Waiting for BotFather."@, "⏳ Настройка начата. Ожидается ответ BotFather."@)) by {
            reveal_strlit("⏳ Setup started. Waiting for BotFather.");
            reveal_strlit("⏳ Настройка начата. Ожидается ответ BotFather.");
            lemma_plain("⏳ Setup started. Waiting for BotFather."@, "⏳ Настройка начата. Ожидается ответ BotFather."@, 2);
        },
        SetupText::BotCheckUnavailable => assert(agree("⚠️ Bot verification is unavailable."@, "⚠️ Проверка бота недоступна."@)) by {
            reveal_strlit("⚠️ Bot verification is unavailable.");
            reveal_strlit("⚠️ Проверка бота недоступна.");
            lemma_plain("⚠️ Bot verification is unavailable."@, "⚠️ Проверка бота недоступна."@, 3);
        },
        SetupText::BotUsernameRejected => assert(agree("⚠️ BotFather rejected the username. Enter another username ending in _bot."@, "⚠️ BotFather отклонил имя. Введите другое имя, оканчивающееся на _bot."@)) by {
            reveal_strlit("⚠️ BotFather rejected the username. Enter another username ending in _bot.");
            reveal_strlit("⚠️ BotFather отклонил имя. Введите другое имя, оканчивающееся на _bot.");
            lemma_plain("⚠️ BotFather rejected the username. Enter another username ending in _bot."@, "⚠️ BotFather отклонил имя. Введите другое имя, оканчивающееся на _bot."@, 13);
        },
        SetupText::BotLimitReached => assert(agree("⚠️ BotFather reported that the bot limit was reached."@, "⚠️ BotFather сообщил о достигнутом лимите ботов."@)) by {
            reveal_strlit("⚠️ BotFather reported that the bot limit was reached.");
            reveal_strlit("⚠️ BotFather сообщил о достигнутом лимите ботов.");
            lemma_plain("⚠️ BotFather reported that the bot limit was reached."@, "⚠️ BotFather сообщил о достигнутом лимите ботов."@, 13);
        },
        SetupText::BotRetryLater => assert(agree("⚠️ BotFather asked you to retry later."@, "⚠️ BotFather просит повторить попытку позже."@)) by {
            reveal_strlit("⚠️ BotFather asked you to retry later.");
            reveal_strlit("⚠️ BotFather просит повторить попытку позже.");
            lemma_plain("⚠️ BotFather asked you to retry later."@, "⚠️ BotFather просит повторить попытку позже."@, 13);
        },
        SetupText::BotUnexpected => assert(agree("⚠️ The BotFather conversation ended due to an unexpected response."@, "⚠️ Диалог с BotFather завершился из-за неожиданного ответа."@)) by {
            reveal_strlit("⚠️ The BotFather conversation ended due to an unexpected response.");
            reveal_strlit("⚠️ Диалог с BotFather завершился из-за неожиданного ответа.");
            lemma_plain("⚠️ The BotFather conversation ended due to an unexpected response."@, "⚠️ Диалог с BotFather завершился из-за неожиданного ответа."@, 3);
        },
        SetupText::BotStorageFailed => assert(agree("⚠️ Bot data could not be saved safely. Setup stopped."@, "⚠️ Данные бота не удалось безопасно сохранить. Настройка остановлена."@)) by {
            reveal_strlit("⚠️ Bot data could not be saved safely. Setup stopped.");
            reveal_strlit("⚠️ Данные бота не удалось безопасно сохранить. Настройка остановлена.");
            lemma_plain("⚠️ Bot data could not be saved safely. Setup stopped."@, "⚠️ Данные бота не удалось безопасно сохранить. Настройка остановлена."@, 3);
        },
        SetupText::BotTimedOut => assert(agree("⚠️ BotFather did not respond in time. Setup stopped."@, "⚠️ BotFather не ответил вовремя. Настройка остановлена."@)) by {
            reveal_strlit("⚠️ BotFather did not respond in time. Setup stopped.");
            reveal_strlit("⚠️ BotFather не ответил вовремя. Настройка остановлена.");
            lemma_plain("⚠️ BotFather did not respond in time. Setup stopped."@, "⚠️ BotFather не ответил вовремя. Настройка остановлена."@, 13);
        },
        SetupText::BotVerificationFailed => assert(agree("⚠️ Bot verification or storage failed. Setup stopped."@, "⚠️ Проверка или сохранение бота завершились ошибкой. Настройка остановлена."@)) by {
            reveal_strlit("⚠️ Bot verification or storage failed. Setup stopped.");
            reveal_strlit("⚠️ Проверка или сохранение бота завершились ошибкой. Настройка остановлена.");
            lemma_plain("⚠️ Bot verification or storage failed. Setup stopped."@, "⚠️ Проверка или сохранение бота завершились ошибкой. Настройка остановлена."@, 3);
        },
        SetupText::Status => lemma_setup_status(),
        SetupText::StatusIdle => assert(agree("⚙️ Setup status: idle"@, "⚙️ Состояние настройки: бездействует"@)) by {
            reveal_strlit("⚙️ Setup status: idle");
            reveal_strlit("⚙️ Состояние настройки: бездействует");
            lemma_plain("⚙️ Setup status: idle"@, "⚙️ Состояние настройки: бездействует"@, 3);
        },
        SetupText::StatusIdleValue => assert(agree("idle"@, "бездействует"@)) by {
            reveal_strlit("idle");
            reveal_strlit("бездействует");
            lemma_plain("idle"@, "бездействует"@, 0);
        },
        SetupText::StatusUnavailable => assert(agree("⚠️ Setup status is unavailable because local state could not be read safely."@, "⚠️ Состояние настройки недоступно: локальные данные нельзя безопасно прочитать."@)) by {
            reveal_strlit("⚠️ Setup status is unavailable because local state could not be read safely.");
            reveal_strlit("⚠️ Состояние настройки недоступно: локальные данные нельзя безопасно прочитать.");
            lemma_plain("⚠️ Setup status is unavailable because local state could not be read safely."@, "⚠️ Состояние настройки недоступно: локальные данные нельзя безопасно прочитать."@, 3);
        },
        SetupText::NotConfigured => assert(agree("not configured"@, "не настроен"@)) by {
            reveal_strlit("not configured");
            reveal_strlit("не настроен");
            lemma_plain("not configured"@, "не настроен"@, 0);
        },
        SetupText::RepairCheckUnavailable => assert(agree("⚠️ Saved bot verification is unavailable."@, "⚠️ Проверка сохранённого бота недоступна."@)) by {
            reveal_strlit("⚠️ Saved bot verification is unavailable.");
            reveal_strlit("⚠️ Проверка сохранённого бота недоступна.");
            lemma_plain("⚠️ Saved bot verification is unavailable."@, "⚠️ Проверка сохранённого бота недоступна."@, 3);
        },
        SetupText::RepairStarted => assert(agree("⏳ Companion workspace repair started."@, "⏳ Восстановление companion workspace начато."@)) by {
            reveal_strlit("⏳ Companion workspace repair started.");
            reveal_strlit("⏳ Восстановление companion workspace начато.");
            lemma_plain("⏳ Companion workspace repair started."@, "⏳ Восстановление companion workspace начато."@, 2);
        },
        SetupText::RepairNoData => assert(agree("⚠️ No safe data is available for repair."@, "⚠️ Нет безопасных данных для восстановления."@)) by {
            reveal_strlit("⚠️ No safe data is available for repair.");
            reveal_strlit("⚠️ Нет безопасных данных для восстановления.");
            lemma_plain("⚠️ No safe data is available for repair."@, "⚠️ Нет безопасных данных для восстановления."@, 3);
        },
        SetupText::RepairDataUnsafe => assert(agree("⚠️ Saved data cannot be verified safely."@, "⚠️ Сохранённые данные нельзя безопасно проверить."@)) by {
            reveal_strlit("⚠️ Saved data cannot be verified safely.");
            reveal_strlit("⚠️ Сохранённые данные нельзя безопасно проверить.");
            lemma_plain("⚠️ Saved data cannot be verified safely."@, "⚠️ Сохранённые данные нельзя безопасно проверить."@, 3);
        },
        SetupText::RepairIdentityUnsafe => assert(agree("⚠️ Saved bot identity is incomplete or unsafe."@, "⚠️ Сохранённая идентификация бота неполна или небезопасна."@)) by {
            reveal_strlit("⚠️ Saved bot identity is incomplete or unsafe.");
            reveal_strlit("⚠️ Сохранённая идентификация бота неполна или небезопасна.");
            lemma_plain("⚠️ Saved bot identity is incomplete or unsafe."@, "⚠️ Сохранённая идентификация бота неполна или небезопасна."@, 3);
        },
        SetupText::RepairTokenUnsafe => assert(agree("⚠️ Saved token could not be verified safely. Repair was not started."@, "⚠️ Сохранённый токен не удалось безопасно проверить. Восстановление не запущено."@)) by {
            reveal_strlit("⚠️ Saved token could not be verified safely. Repair was not started.");
            reveal_strlit("⚠️ Сохранённый токен не удалось безопасно проверить. Восстановление не запущено.");
            lemma_plain("⚠️ Saved token could not be verified safely. Repair was not started."@, "⚠️ Сохранённый токен не удалось безопасно проверить. Восстановление не запущено."@, 3);
        },
        SetupText::RepairTokenMismatch => assert(agree("⚠️ Saved token does not match the saved bot. Repair was not started."@, "⚠️ Сохранённый токен не соответствует сохранённому боту. Восстановление не запущено."@)) by {
            reveal_strlit("⚠️ Saved token does not match the saved bot. Repair was not started.");
            reveal_strlit("⚠️ Сохранённый токен не соответствует сохранённому боту. Восстановление не запущено.");
            lemma_plain("⚠️ Saved token does not match the saved bot. Repair was not started."@, "⚠️ Сохранённый токен не соответствует сохранённому боту. Восстановление не запущено."@, 3);
        },
        SetupText::RepairIdentitySaveFailed => assert(agree("⚠️ Verified bot identity could not be saved safely. Repair was not started."@, "⚠️ Проверенный идентификатор бота не удалось безопасно сохранить. Восстановление не запущено."@)) by {
            reveal_strlit("⚠️ Verified bot identity could not be saved safely. Repair was not started.");
            reveal_strlit("⚠️ Проверенный идентификатор бота не удалось безопасно сохранить. Восстановление не запущено.");
            lemma_plain("⚠️ Verified bot identity could not be saved safely. Repair was not started."@, "⚠️ Проверенный идентификатор бота не удалось безопасно сохранить. Восстановление не запущено."@, 3);
        },
        SetupText::ProvisionCompleted => assert(agree("✅ Companion workspace and official community @lavis_userbot are configured."@, "✅ Companion workspace и официальное сообщество @lavis_userbot настроены."@)) by {
            reveal_strlit("✅ Companion workspace and official community @lavis_userbot are configured.");
            reveal_strlit("✅ Companion workspace и официальное сообщество @lavis_userbot настроены.");
            lemma_plain("✅ Companion workspace and official community @lavis_userbot are configured."@, "✅ Companion workspace и официальное сообщество @lavis_userbot настроены."@, 22);
        },
        SetupText::ProvisionWithoutCommunity => lemma_setup_provision_without_community(),
        SetupText::ProvisionWithoutFolderCapacity => lemma_setup_provision_without_folder_capacity(),
        SetupText::ProvisionWithoutFolderConflict => lemma_setup_provision_without_folder_conflict(),
        SetupText::ProvisionFailed => lemma_setup_provision_failed(),
        SetupText::StatusBotValidated => assert(agree("bot validated"@, "бот подтверждён"@)) by {
            reveal_strlit("bot validated");
            reveal_strlit("бот подтверждён");
            lemma_plain("bot validated"@, "бот подтверждён"@, 0);
        },
        SetupText::StatusComplete => assert(agree("complete"@, "завершено"@)) by {
            reveal_strlit("complete");
            reveal_strlit("завершено");
            lemma_plain("complete"@, "завершено"@, 0);
        },
        SetupText::StatusCompletedWithoutFolderCapacity => assert(agree("complete without folder (folder limit reached)"@, "завершено без папки (достигнут лимит папок)"@)) by {
            reveal_strlit("complete without folder (folder limit reached)");
            reveal_strlit("завершено без папки (достигнут лимит папок)");
            lemma_plain("complete without folder (folder limit reached)"@, "завершено без папки (достигнут лимит папок)"@, 0);
        },
        SetupText::StatusCompletedWithoutFolderNameConflict => assert(agree("complete without folder (name or ownership conflict)"@, "завершено без папки (конфликт имени или владельца)"@)) by {
            reveal_strlit("complete without folder (name or ownership conflict)");
            reveal_strlit("завершено без папки (конфликт имени или владельца)");
            lemma_plain("complete without folder (name or ownership conflict)"@, "завершено без папки (конфликт имени или владельца)"@, 0);
        },
        SetupText::StatusCompanionAndCommunityConfigured => assert(agree("companion workspace and community configured"@, "companion workspace и сообщество настроены"@)) by {
            reveal_strlit("companion workspace and community configured");
            reveal_strlit("companion workspace и сообщество настроены");
            lemma_plain("companion workspace and community configured"@, "companion workspace и сообщество настроены"@, 20);
        },
        SetupText::StatusCompanionConfiguredCommunityPending => assert(agree("companion workspace configured; community pending"@, "companion workspace настроен; сообщество ожидает подключения"@)) by {
            reveal_strlit("companion workspace configured; community pending");
            reveal_strlit("companion workspace настроен; сообщество ожидает подключения");
            lemma_plain("companion workspace configured; community pending"@, "companion workspace настроен; сообщество ожидает подключения"@, 20);
        },
        SetupText::StatusUnknown => assert(agree("unknown"@, "неизвестно"@)) by {
            reveal_strlit("unknown");
            reveal_strlit("неизвестно");
            lemma_plain("unknown"@, "неизвестно"@, 0);
        },
    }
}

#[verifier::rlimit(40)]
proof fn lemma_lm_usage_english()
    ensures
        placeholders(
            "⚠️ Usage:\n{prefix}lm\n{prefix}lm list\n{prefix}lm info <id>\n{prefix}lm logs <id>\n{prefix}lm doctor [<id>]\n{prefix}lm install\n{prefix}lm confirm <ApprovalId>\n{prefix}lm cancel <ApprovalId>\n{prefix}lm enable <id>\n{prefix}lm disable <id>"@,
        ) == Set::<Seq<char>>::empty().insert("prefix"@).insert("prefix"@).insert("prefix"@).insert("prefix"@).insert("prefix"@).insert("prefix"@).insert("prefix"@).insert("prefix"@).insert("prefix"@).insert("prefix"@),
{
    let english = "⚠️ Usage:\n{prefix}lm\n{prefix}lm list\n{prefix}lm info <id>\n{prefix}lm logs <id>\n{prefix}lm doctor [<id>]\n{prefix}lm install\n{prefix}lm confirm <ApprovalId>\n{prefix}lm cancel <ApprovalId>\n{prefix}lm enable <id>\n{prefix}lm disable <id>"@;
    reveal_strlit("⚠️ Usage:\n{prefix}lm\n{prefix}lm list\n{prefix}lm info <id>\n{prefix}lm logs <id>\n{prefix}lm doctor [<id>]\n{prefix}lm install\n{prefix}lm confirm <ApprovalId>\n{prefix}lm cancel <ApprovalId>\n{prefix}lm enable <id>\n{prefix}lm disable <id>");
    reveal_strlit("prefix");
    assert(next_part(english, 0, 10, 17, "prefix"@)) by {
        reveal(next_part);
        assert(english.subrange(11, 17) == "prefix"@);
    }
    lemma_next_part(english, 0, 10, 17, "prefix"@);
    assert(next_part(english, 18, 21, 28, "prefix"@)) by {
        reveal(next_part);
        assert(english.subrange(22, 28) == "prefix"@);
    }
    lemma_next_part(english, 18, 21, 28, "prefix"@);
    assert(next_part(english, 29, 37, 44, "prefix"@)) by {
        reveal(next_part);
        assert(english.subrange(38, 44) == "prefix"@);
    }
    lemma_next_part(english, 29, 37, 44, "prefix"@);
    assert(next_part(english, 45, 58, 65, "prefix"@)) by {
        reveal(next_part);
        assert(english.subrange(59, 65) == "prefix"@);
    }
    lemma_next_part(english, 45, 58, 65, "prefix"@);
    assert(next_part(english, 66, 79, 86, "prefix"@)) by {
        reveal(next_part);
        assert(english.subrange(80, 86) == "prefix"@);
    }
    lemma_next_part(english, 66, 79, 86, "prefix"@);
    assert(next_part(english, 87, 104, 111, "prefix"@)) by {
        reveal(next_part);
        assert(english.subrange(105, 111) == "prefix"@);
    }
    lemma_next_part(english, 87, 104, 111, "prefix"@);
    assert(next_part(english, 112, 123, 130, "prefix"@)) by {
        reveal(next_part);
        assert(english.subrange(124, 130) == "prefix"@);
    }
    lemma_next_part(english, 112, 123, 130, "prefix"@);
    assert(next_part(english, 131, 155, 162, "prefix"@)) by {
        reveal(next_part);
        assert(english.subrange(156, 162) == "prefix"@);
    }
    lemma_next_part(english, 131, 155, 162, "prefix"@);
    assert(next_part(english, 163, 186, 193, "prefix"@)) by {
        reveal(next_part);
        assert(english.subrange(187, 193) == "prefix"@);
    }
    lemma_next_part(english, 163, 186, 193, "prefix"@);
    assert(next_part(english, 194, 209, 216, "prefix"@)) by {
        reveal(next_part);
        assert(english.subrange(210, 216) == "prefix"@);
    }
    lemma_next_part(english, 194, 209, 216, "prefix"@);
    assert(last_part(english, 217)) by {
        reveal(last_part);
    }
    lemma_last_part(english, 217);
    assert(english.skip(0) == english);
}

#[verifier::rlimit(40)]
proof fn lemma_lm_usage_russian()
    ensures
        placeholders(
            "⚠️ Использование:\n{prefix}lm\n{prefix}lm list\n{prefix}lm info <id>\n{prefix}lm logs <id>\n{prefix}lm doctor [<id>]\n{prefix}lm install\n{prefix}lm confirm <ApprovalId>\n{prefix}lm cancel <ApprovalId>\n{prefix}lm enable <id>\n{prefix}lm disable <id>"@,
        ) == Set::<Seq<char>>::empty().insert("prefix"@).insert("prefix"@).insert("prefix"@).insert("prefix"@).insert("prefix"@).insert("prefix"@).insert("prefix"@).insert("prefix"@).insert("prefix"@).insert("prefix"@),
{
    let russian = "⚠️ Использование:\n{prefix}lm\n{prefix}lm list\n{prefix}lm info <id>\n{prefix}lm logs <id>\n{prefix}lm doctor [<id>]\n{prefix}lm install\n{prefix}lm confirm <ApprovalId>\n{prefix}lm cancel <ApprovalId>\n{prefix}lm enable <id>\n{prefix}lm disable <id>"@;
    reveal_strlit("⚠️ Использование:\n{prefix}lm\n{prefix}lm list\n{prefix}lm info <id>\n{prefix}lm logs <id>\n{prefix}lm doctor [<id>]\n{prefix}lm install\n{prefix}lm confirm <ApprovalId>\n{prefix}lm cancel <ApprovalId>\n{prefix}lm enable <id>\n{prefix}lm disable <id>");
    reveal_strlit("prefix");
    assert(next_part(russian, 0, 18, 25, "prefix"@)) by {
        reveal(next_part);
        assert(russian.subrange(19, 25) == "prefix"@);
    }
    lemma_next_part(russian, 0, 18, 25, "prefix"@);
    assert(next_part(russian, 26, 29, 36, "prefix"@)) by {
        reveal(next_part);
        assert(russian.subrange(30, 36) == "prefix"@);
    }
    lemma_next_part(russian, 26, 29, 36, "prefix"@);
    assert(next_part(russian, 37, 45, 52, "prefix"@)) by {
        reveal(next_part);
        assert(russian.subrange(46, 52) == "prefix"@);
    }
    lemma_next_part(russian, 37, 45, 52, "prefix"@);
    assert(next_part(russian, 53, 66, 73, "prefix"@)) by {
        reveal(next_part);
        assert(russian.subrange(67, 73) == "prefix"@);
    }
    lemma_next_part(russian, 53, 66, 73, "prefix"@);
    assert(next_part(russian, 74, 87, 94, "prefix"@)) by {
        reveal(next_part);
        assert(russian.subrange(88, 94) == "prefix"@);
    }
    lemma_next_part(russian, 74, 87, 94, "prefix"@);
    assert(next_part(russian, 95, 112, 119, "prefix"@)) by {
        reveal(next_part);
        assert(russian.subrange(113, 119) == "prefix"@);
    }
    lemma_next_part(russian, 95, 112, 119, "prefix"@);
    assert(next_part(russian, 120, 131, 138, "prefix"@)) by {
        reveal(next_part);
        assert(russian.subrange(132, 138) == "prefix"@);
    }
    lemma_next_part(russian, 120, 131, 138, "prefix"@);
    assert(next_part(russian, 139, 163, 170, "prefix"@)) by {
        reveal(next_part);
        assert(russian.subrange(164, 170) == "prefix"@);
    }
    lemma_next_part(russian, 139, 163, 170, "prefix"@);
    assert(next_part(russian, 171, 194, 201, "prefix"@)) by {
        reveal(next_part);
        assert(russian.subrange(195, 201) == "prefix"@);
    }
    lemma_next_part(russian, 171, 194, 201, "prefix"@);
    assert(next_part(russian, 202, 217, 224, "prefix"@)) by {
        reveal(next_part);
        assert(russian.subrange(218, 224) == "prefix"@);
    }
    lemma_next_part(russian, 202, 217, 224, "prefix"@);
    assert(last_part(russian, 225)) by {
        reveal(last_part);
    }
    lemma_last_part(russian, 225);
    assert(russian.skip(0) == russian);
}

proof fn lemma_lm_usage()
    ensures
        agree(
            "⚠️ Usage:\n{prefix}lm\n{prefix}lm list\n{prefix}lm info <id>\n{prefix}lm logs <id>\n{prefix}lm doctor [<id>]\n{prefix}lm install\n{prefix}lm confirm <ApprovalId>\n{prefix}lm cancel <ApprovalId>\n{prefix}lm enable <id>\n{prefix}lm disable <id>"@,
            "⚠️ Использование:\n{prefix}lm\n{prefix}lm list\n{prefix}lm info <id>\n{prefix}lm logs <id>\n{prefix}lm doctor [<id>]\n{prefix}lm install\n{prefix}lm confirm <ApprovalId>\n{prefix}lm cancel <ApprovalId>\n{prefix}lm enable <id>\n{prefix}lm disable <id>"@,
        ),
{
    let english = "⚠️ Usage:\n{prefix}lm\n{prefix}lm list\n{prefix}lm info <id>\n{prefix}lm logs <id>\n{prefix}lm doctor [<id>]\n{prefix}lm install\n{prefix}lm confirm <ApprovalId>\n{prefix}lm cancel <ApprovalId>\n{prefix}lm enable <id>\n{prefix}lm disable <id>"@;
    let russian = "⚠️ Использование:\n{prefix}lm\n{prefix}lm list\n{prefix}lm info <id>\n{prefix}lm logs <id>\n{prefix}lm doctor [<id>]\n{prefix}lm install\n{prefix}lm confirm <ApprovalId>\n{prefix}lm cancel <ApprovalId>\n{prefix}lm enable <id>\n{prefix}lm disable <id>"@;
    reveal_strlit("⚠️ Usage:\n{prefix}lm\n{prefix}lm list\n{prefix}lm info <id>\n{prefix}lm logs <id>\n{prefix}lm doctor [<id>]\n{prefix}lm install\n{prefix}lm confirm <ApprovalId>\n{prefix}lm cancel <ApprovalId>\n{prefix}lm enable <id>\n{prefix}lm disable <id>");
    reveal_strlit("⚠️ Использование:\n{prefix}lm\n{prefix}lm list\n{prefix}lm info <id>\n{prefix}lm logs <id>\n{prefix}lm doctor [<id>]\n{prefix}lm install\n{prefix}lm confirm <ApprovalId>\n{prefix}lm cancel <ApprovalId>\n{prefix}lm enable <id>\n{prefix}lm disable <id>");
    assert(english[3] != russian[3]);
    lemma_lm_usage_english();
    lemma_lm_usage_russian();
}

proof fn lemma_lm_empty()
    ensures
        agree(
            "📦 No external modules are installed.\n\nAttach a .lmod document to a message, then use:\n{prefix}lm install"@,
            "📦 Внешние модули не установлены.\n\nПрикрепите .lmod к сообщению, затем используйте:\n{prefix}lm install"@,
        ),
{
    let english = "📦 No external modules are installed.\n\nAttach a .lmod document to a message, then use:\n{prefix}lm install"@;
    let russian = "📦 Внешние модули не установлены.\n\nПрикрепите .lmod к сообщению, затем используйте:\n{prefix}lm install"@;
    reveal_strlit("📦 No external modules are installed.\n\nAttach a .lmod document to a message, then use:\n{prefix}lm install");
    reveal_strlit("📦 Внешние модули не установлены.\n\nПрикрепите .lmod к сообщению, затем используйте:\n{prefix}lm install");
    assert(english[2] != russian[2]);
    reveal_strlit("prefix");
    assert(next_part(english, 0, 86, 93, "prefix"@)) by {
        reveal(next_part);
        assert(english.subrange(87, 93) == "prefix"@);
    }
    lemma_next_part(english, 0, 86, 93, "prefix"@);
    assert(last_part(english, 94)) by {
        reveal(last_part);
    }
    lemma_last_part(english, 94);
    assert(english.skip(0) == english);
    assert(next_part(russian, 0, 83, 90, "prefix"@)) by {
        reveal(next_part);
        assert(russian.subrange(84, 90) == "prefix"@);
    }
    lemma_next_part(russian, 0, 83, 90, "prefix"@);
    assert(last_part(russian, 91)) by {
        reveal(last_part);
    }
    lemma_last_part(russian, 91);
    assert(russian.skip(0) == russian);
}

proof fn lemma_lm_no_runtime_error()
    ensures
        agree(
            "ℹ️ Module {id} has no retained runtime error."@,
            "ℹ️ Для модуля {id} нет сохранённой runtime-ошибки."@,
        ),
{
    let english = "ℹ️ Module {id} has no retained runtime error."@;
    let russian = "ℹ️ Для модуля {id} нет сохранённой runtime-ошибки."@;
    reveal_strlit("ℹ️ Module {id} has no retained runtime error.");
    reveal_strlit("ℹ️ Для модуля {id} нет сохранённой runtime-ошибки.");
    assert(english[3] != russian[3]);
    reveal_strlit("id");
    assert(next_part(english, 0, 10, 13, "id"@)) by {
        reveal(next_part);
        assert(english.subrange(11, 13) == "id"@);
    }
    lemma_next_part(english, 0, 10, 13, "id"@);
    assert(last_part(english, 14)) by {
        reveal(last_part);
    }
    lemma_last_part(english, 14);
    assert(english.skip(0) == english);
    assert(next_part(russian, 0, 14, 17, "id"@)) by {
        reveal(next_part);
        assert(russian.subrange(15, 17) == "id"@);
    }
    lemma_next_part(russian, 0, 14, 17, "id"@);
    assert(last_part(russian, 18)) by {
        reveal(last_part);
    }
    lemma_last_part(russian, 18);
    assert(russian.skip(0) == russian);
}

proof fn lemma_lm_last_module_error()
    ensures
        agree(
            "📋 Last module error: {id}\n\n{detail}"@,
            "📋 Последняя ошибка модуля {id}\n\n{detail}"@,
        ),
{
    let english = "📋 Last module error: {id}\n\n{detail}"@;
    let russian = "📋 Последняя ошибка модуля {id}\n\n{detail}"@;
    reveal_strlit("📋 Last module error: {id}\n\n{detail}");
    reveal_strlit("📋 Последняя ошибка модуля {id}\n\n{detail}");
    assert(english[2] != russian[2]);
    reveal_strlit("id");
    reveal_strlit("detail");
    assert(next_part(english, 0, 21, 24, "id"@)) by {
        reveal(next_part);
        assert(english.subrange(22, 24) == "id"@);
    }
    lemma_next_part(english, 0, 21, 24, "id"@);
    assert(next_part(english, 25, 27, 34, "detail"@)) by {
        reveal(next_part);
        assert(english.subrange(28, 34) == "detail"@);
    }
    lemma_next_part(english, 25, 27, 34, "detail"@);
    assert(last_part(english, 35)) by {
        reveal(last_part);
    }
    lemma_last_part(english, 35);
    assert(english.skip(0) == english);
    assert(next_part(russian, 0, 26, 29, "id"@)) by {
        reveal(next_part);
        assert(russian.subrange(27, 29) == "id"@);
    }
    lemma_next_part(russian, 0, 26, 29, "id"@);
    assert(next_part(russian, 30, 32, 39, "detail"@)) by {
        reveal(next_part);
        assert(russian.subrange(33, 39) == "detail"@);
    }
    lemma_next_part(russian, 30, 32, 39, "detail"@);
    assert(last_part(russian, 40)) by {
        reveal(last_part);
    }
    lemma_last_part(russian, 40);
    assert(russian.skip(0) == russian);
}

proof fn lemma_lm_doctor_module_heading()
    ensures
        agree(
            "🩺 Module diagnostics: {id}"@,
            "🩺 Диагностика модуля {id}"@,
        ),
{
    let english = "🩺 Module diagnostics: {id}"@;
    let russian = "🩺 Диагностика модуля {id}"@;
    reveal_strlit("🩺 Module diagnostics: {id}");
    reveal_strlit("🩺 Диагностика модуля {id}");
    assert(english[2] != russian[2]);
    reveal_strlit("id");
    assert(next_part(english, 0, 22, 25, "id"@)) by {
        reveal(next_part);
        assert(english.subrange(23, 25) == "id"@);
    }
    lemma_next_part(english, 0, 22, 25, "id"@);
    assert(last_part(english, 26)) by {
        reveal(last_part);
    }
    lemma_last_part(english, 26);
    assert(english.skip(0) == english);
    assert(next_part(russian, 0, 21, 24, "id"@)) by {
        reveal(next_part);
        assert(russian.subrange(22, 24) == "id"@);
    }
    lemma_next_part(russian, 0, 21, 24, "id"@);
    assert(last_part(russian, 25)) by {
        reveal(last_part);
    }
    lemma_last_part(russian, 25);
    assert(russian.skip(0) == russian);
}

proof fn lemma_lm_not_found()
    ensures
        agree(
            "ℹ️ Module {id} was not found."@,
            "ℹ️ Модуль {id} не найден."@,
        ),
{
    let english = "ℹ️ Module {id} was not found."@;
    let russian = "ℹ️ Модуль {id} не найден."@;
    reveal_strlit("ℹ️ Module {id} was not found.");
    reveal_strlit("ℹ️ Модуль {id} не найден.");
    assert(english[3] != russian[3]);
    reveal_strlit("id");
    assert(next_part(english, 0, 10, 13, "id"@)) by {
        reveal(next_part);
        assert(english.subrange(11, 13) == "id"@);
    }
    lemma_next_part(english, 0, 10, 13, "id"@);
    assert(last_part(english, 14)) by {
        reveal(last_part);
    }
    lemma_last_part(english, 14);
    assert(english.skip(0) == english);
    assert(next_part(russian, 0, 10, 13, "id"@)) by {
        reveal(next_part);
        assert(russian.subrange(11, 13) == "id"@);
    }
    lemma_next_part(russian, 0, 10, 13, "id"@);
    assert(last_part(russian, 14)) by {
        reveal(last_part);
    }
    lemma_last_part(russian, 14);
    assert(russian.skip(0) == russian);
}

proof fn lemma_lm_already_registered()
    ensures
        agree(
            "⚠️ Module «{id}» is already registered; installation was not started."@,
            "⚠️ Модуль «{id}» уже зарегистрирован; установка не начата."@,
        ),
{
    let english = "⚠️ Module «{id}» is already registered; installation was not started."@;
    let russian = "⚠️ Модуль «{id}» уже зарегистрирован; установка не начата."@;
    reveal_strlit("⚠️ Module «{id}» is already registered; installation was not started.");
    reveal_strlit("⚠️ Модуль «{id}» уже зарегистрирован; установка не начата.");
    assert(english[3] != russian[3]);
    reveal_strlit("id");
    assert(next_part(english, 0, 11, 14, "id"@)) by {
        reveal(next_part);
        assert(english.subrange(12, 14) == "id"@);
    }
    lemma_next_part(english, 0, 11, 14, "id"@);
    assert(last_part(english, 15)) by {
        reveal(last_part);
    }
    lemma_last_part(english, 15);
    assert(english.skip(0) == english);
    assert(next_part(russian, 0, 11, 14, "id"@)) by {
        reveal(next_part);
        assert(russian.subrange(12, 14) == "id"@);
    }
    lemma_next_part(russian, 0, 11, 14, "id"@);
    assert(last_part(russian, 15)) by {
        reveal(last_part);
    }
    lemma_last_part(russian, 15);
    assert(russian.skip(0) == russian);
}

proof fn lemma_lm_registration_conflict()
    ensures
        agree(
            "⚠️ Module «{id}» was installed but not registered because its descriptor conflicts."@,
            "⚠️ Модуль «{id}» установлен, но не зарегистрирован из-за конфликтующего описания."@,
        ),
{
    let english = "⚠️ Module «{id}» was installed but not registered because its descriptor conflicts."@;
    let russian = "⚠️ Модуль «{id}» установлен, но не зарегистрирован из-за конфликтующего описания."@;
    reveal_strlit("⚠️ Module «{id}» was installed but not registered because its descriptor conflicts.");
    reveal_strlit("⚠️ Модуль «{id}» установлен, но не зарегистрирован из-за конфликтующего описания.");
    assert(english[3] != russian[3]);
    reveal_strlit("id");
    assert(next_part(english, 0, 11, 14, "id"@)) by {
        reveal(next_part);
        assert(english.subrange(12, 14) == "id"@);
    }
    lemma_next_part(english, 0, 11, 14, "id"@);
    assert(last_part(english, 15)) by {
        reveal(last_part);
    }
    lemma_last_part(english, 15);
    assert(english.skip(0) == english);
    assert(next_part(russian, 0, 11, 14, "id"@)) by {
        reveal(next_part);
        assert(russian.subrange(12, 14) == "id"@);
    }
    lemma_next_part(russian, 0, 11, 14, "id"@);
    assert(last_part(russian, 15)) by {
        reveal(last_part);
    }
    lemma_last_part(russian, 15);
    assert(russian.skip(0) == russian);
}

proof fn lemma_lm_installed_disabled()
    ensures
        agree(
            "✅ Module «{id}» was installed and is disabled."@,
            "✅ Модуль «{id}» установлен и выключен."@,
        ),
{
    let english = "✅ Module «{id}» was installed and is disabled."@;
    let russian = "✅ Модуль «{id}» установлен и выключен."@;
    reveal_strlit("✅ Module «{id}» was installed and is disabled.");
    reveal_strlit("✅ Модуль «{id}» установлен и выключен.");
    assert(english[2] != russian[2]);
    reveal_strlit("id");
    assert(next_part(english, 0, 10, 13, "id"@)) by {
        reveal(next_part);
        assert(english.subrange(11, 13) == "id"@);
    }
    lemma_next_part(english, 0, 10, 13, "id"@);
    assert(last_part(english, 14)) by {
        reveal(last_part);
    }
    lemma_last_part(english, 14);
    assert(english.skip(0) == english);
    assert(next_part(russian, 0, 10, 13, "id"@)) by {
        reveal(next_part);
        assert(russian.subrange(11, 13) == "id"@);
    }
    lemma_next_part(russian, 0, 10, 13, "id"@);
    assert(last_part(russian, 14)) by {
        reveal(last_part);
    }
    lemma_last_part(russian, 14);
    assert(russian.skip(0) == russian);
}

#[verifier::rlimit(40)]
proof fn lemma_lm_install_plan_english()
    ensures
        placeholders(
            "📋 Installation plan\n\nSource: {source}\nModule: {module} v{version}\nProtocol: {protocol}\nEntrypoint: {entrypoint}\nDefault command: {default_command}\nSHA-256: {sha256}\nFingerprint: {fingerprint}\nArchive: {archive_bytes} bytes, files: {file_count}, compressed: {compressed_bytes} bytes, expanded: {expanded_bytes} bytes\nCapabilities: {capabilities}\nSubscriptions: {subscriptions}\nTelegram V6 methods: {methods}\nActions: {actions}\nWarnings: {warnings}\n\nApprovalId: {approval_id}\nConfirm: {prefix}lm confirm {approval_id}\nCancel: {prefix}lm cancel {approval_id}\nExpires in: 10 minutes."@,
        ) == Set::<Seq<char>>::empty().insert("approval_id"@).insert("prefix"@).insert("approval_id"@).insert("prefix"@).insert("approval_id"@).insert("warnings"@).insert("actions"@).insert("methods"@).insert("subscriptions"@).insert("capabilities"@).insert("expanded_bytes"@).insert("compressed_bytes"@).insert("file_count"@).insert("archive_bytes"@).insert("fingerprint"@).insert("sha256"@).insert("default_command"@).insert("entrypoint"@).insert("protocol"@).insert("version"@).insert("module"@).insert("source"@),
{
    let english = "📋 Installation plan\n\nSource: {source}\nModule: {module} v{version}\nProtocol: {protocol}\nEntrypoint: {entrypoint}\nDefault command: {default_command}\nSHA-256: {sha256}\nFingerprint: {fingerprint}\nArchive: {archive_bytes} bytes, files: {file_count}, compressed: {compressed_bytes} bytes, expanded: {expanded_bytes} bytes\nCapabilities: {capabilities}\nSubscriptions: {subscriptions}\nTelegram V6 methods: {methods}\nActions: {actions}\nWarnings: {warnings}\n\nApprovalId: {approval_id}\nConfirm: {prefix}lm confirm {approval_id}\nCancel: {prefix}lm cancel {approval_id}\nExpires in: 10 minutes."@;
    reveal_strlit("📋 Installation plan\n\nSource: {source}\nModule: {module} v{version}\nProtocol: {protocol}\nEntrypoint: {entrypoint}\nDefault command: {default_command}\nSHA-256: {sha256}\nFingerprint: {fingerprint}\nArchive: {archive_bytes} bytes, files: {file_count}, compressed: {compressed_bytes} bytes, expanded: {expanded_bytes} bytes\nCapabilities: {capabilities}\nSubscriptions: {subscriptions}\nTelegram V6 methods: {methods}\nActions: {actions}\nWarnings: {warnings}\n\nApprovalId: {approval_id}\nConfirm: {prefix}lm confirm {approval_id}\nCancel: {prefix}lm cancel {approval_id}\nExpires in: 10 minutes.");
    reveal_strlit("source");
    reveal_strlit("module");
    reveal_strlit("version");
    reveal_strlit("protocol");
    reveal_strlit("entrypoint");
    reveal_strlit("default_command");
    reveal_strlit("sha256");
    reveal_strlit("fingerprint");
    reveal_strlit("archive_bytes");
    reveal_strlit("file_count");
    reveal_strlit("compressed_bytes");
    reveal_strlit("expanded_bytes");
    reveal_strlit("capabilities");
    reveal_strlit("subscriptions");
    reveal_strlit("methods");
    reveal_strlit("actions");
    reveal_strlit("warnings");
    reveal_strlit("approval_id");
    reveal_strlit("prefix");
    assert(next_part(english, 0, 29, 36, "source"@)) by {
        reveal(next_part);
        assert(english.subrange(30, 36) == "source"@);
    }
    lemma_next_part(english, 0, 29, 36, "source"@);
    assert(next_part(english, 37, 46, 53, "module"@)) by {
        reveal(next_part);
        assert(english.subrange(47, 53) == "module"@);
    }
    lemma_next_part(english, 37, 46, 53, "module"@);
    assert(next_part(english, 54, 56, 64, "version"@)) by {
        reveal(next_part);
        assert(english.subrange(57, 64) == "version"@);
    }
    lemma_next_part(english, 54, 56, 64, "version"@);
    assert(next_part(english, 65, 76, 85, "protocol"@)) by {
        reveal(next_part);
        assert(english.subrange(77, 85) == "protocol"@);
    }
    lemma_next_part(english, 65, 76, 85, "protocol"@);
    assert(next_part(english, 86, 99, 110, "entrypoint"@)) by {
        reveal(next_part);
        assert(english.subrange(100, 110) == "entrypoint"@);
    }
    lemma_next_part(english, 86, 99, 110, "entrypoint"@);
    assert(next_part(english, 111, 129, 145, "default_command"@)) by {
        reveal(next_part);
        assert(english.subrange(130, 145) == "default_command"@);
    }
    lemma_next_part(english, 111, 129, 145, "default_command"@);
    assert(next_part(english, 146, 156, 163, "sha256"@)) by {
        reveal(next_part);
        assert(english.subrange(157, 163) == "sha256"@);
    }
    lemma_next_part(english, 146, 156, 163, "sha256"@);
    assert(next_part(english, 164, 178, 190, "fingerprint"@)) by {
        reveal(next_part);
        assert(english.subrange(179, 190) == "fingerprint"@);
    }
    lemma_next_part(english, 164, 178, 190, "fingerprint"@);
    assert(next_part(english, 191, 201, 215, "archive_bytes"@)) by {
        reveal(next_part);
        assert(english.subrange(202, 215) == "archive_bytes"@);
    }
    lemma_next_part(english, 191, 201, 215, "archive_bytes"@);
    assert(next_part(english, 216, 231, 242, "file_count"@)) by {
        reveal(next_part);
        assert(english.subrange(232, 242) == "file_count"@);
    }
    lemma_next_part(english, 216, 231, 242, "file_count"@);
    assert(next_part(english, 243, 257, 274, "compressed_bytes"@)) by {
        reveal(next_part);
        assert(english.subrange(258, 274) == "compressed_bytes"@);
    }
    lemma_next_part(english, 243, 257, 274, "compressed_bytes"@);
    assert(next_part(english, 275, 293, 308, "expanded_bytes"@)) by {
        reveal(next_part);
        assert(english.subrange(294, 308) == "expanded_bytes"@);
    }
    lemma_next_part(english, 275, 293, 308, "expanded_bytes"@);
    assert(next_part(english, 309, 330, 343, "capabilities"@)) by {
        reveal(next_part);
        assert(english.subrange(331, 343) == "capabilities"@);
    }
    lemma_next_part(english, 309, 330, 343, "capabilities"@);
    assert(next_part(english, 344, 360, 374, "subscriptions"@)) by {
        reveal(next_part);
        assert(english.subrange(361, 374) == "subscriptions"@);
    }
    lemma_next_part(english, 344, 360, 374, "subscriptions"@);
    assert(next_part(english, 375, 397, 405, "methods"@)) by {
        reveal(next_part);
        assert(english.subrange(398, 405) == "methods"@);
    }
    lemma_next_part(english, 375, 397, 405, "methods"@);
    assert(next_part(english, 406, 416, 424, "actions"@)) by {
        reveal(next_part);
        assert(english.subrange(417, 424) == "actions"@);
    }
    lemma_next_part(english, 406, 416, 424, "actions"@);
    assert(next_part(english, 425, 436, 445, "warnings"@)) by {
        reveal(next_part);
        assert(english.subrange(437, 445) == "warnings"@);
    }
    lemma_next_part(english, 425, 436, 445, "warnings"@);
    assert(next_part(english, 446, 460, 472, "approval_id"@)) by {
        reveal(next_part);
        assert(english.subrange(461, 472) == "approval_id"@);
    }
    lemma_next_part(english, 446, 460, 472, "approval_id"@);
    assert(next_part(english, 473, 483, 490, "prefix"@)) by {
        reveal(next_part);
        assert(english.subrange(484, 490) == "prefix"@);
    }
    lemma_next_part(english, 473, 483, 490, "prefix"@);
    assert(next_part(english, 491, 502, 514, "approval_id"@)) by {
        reveal(next_part);
        assert(english.subrange(503, 514) == "approval_id"@);
    }
    lemma_next_part(english, 491, 502, 514, "approval_id"@);
    assert(next_part(english, 515, 524, 531, "prefix"@)) by {
        reveal(next_part);
        assert(english.subrange(525, 531) == "prefix"@);
    }
    lemma_next_part(english, 515, 524, 531, "prefix"@);
    assert(next_part(english, 532, 542, 554, "approval_id"@)) by {
        reveal(next_part);
        assert(english.subrange(543, 554) == "approval_id"@);
    }
    lemma_next_part(english, 532, 542, 554, "approval_id"@);
    assert(last_part(english, 555)) by {
        reveal(last_part);
    }
    lemma_last_part(english, 555);
    assert(english.skip(0) == english);
}

#[verifier::rlimit(40)]
proof fn lemma_lm_install_plan_russian()
    ensures
        placeholders(
            "📋 План установки\n\nИсточник: {source}\nМодуль: {module} v{version}\nПротокол: {protocol}\nТочка входа: {entrypoint}\nКоманда по умолчанию: {default_command}\nSHA-256: {sha256}\nОтпечаток: {fingerprint}\nАрхив: {archive_bytes} Байт, файлов: {file_count}, сжато: {compressed_bytes} Байт, распаковано: {expanded_bytes} Байт\nВозможности: {capabilities}\nПодписки: {subscriptions}\nМетоды Telegram V6: {methods}\nДействия: {actions}\nПредупреждения: {warnings}\n\nApprovalId: {approval_id}\nПодтвердите: {prefix}lm confirm {approval_id}\nОтменить: {prefix}lm cancel {approval_id}\nСрок действия: 10 минут."@,
        ) == Set::<Seq<char>>::empty().insert("approval_id"@).insert("prefix"@).insert("approval_id"@).insert("prefix"@).insert("approval_id"@).insert("warnings"@).insert("actions"@).insert("methods"@).insert("subscriptions"@).insert("capabilities"@).insert("expanded_bytes"@).insert("compressed_bytes"@).insert("file_count"@).insert("archive_bytes"@).insert("fingerprint"@).insert("sha256"@).insert("default_command"@).insert("entrypoint"@).insert("protocol"@).insert("version"@).insert("module"@).insert("source"@),
{
    let russian = "📋 План установки\n\nИсточник: {source}\nМодуль: {module} v{version}\nПротокол: {protocol}\nТочка входа: {entrypoint}\nКоманда по умолчанию: {default_command}\nSHA-256: {sha256}\nОтпечаток: {fingerprint}\nАрхив: {archive_bytes} Байт, файлов: {file_count}, сжато: {compressed_bytes} Байт, распаковано: {expanded_bytes} Байт\nВозможности: {capabilities}\nПодписки: {subscriptions}\nМетоды Telegram V6: {methods}\nДействия: {actions}\nПредупреждения: {warnings}\n\nApprovalId: {approval_id}\nПодтвердите: {prefix}lm confirm {approval_id}\nОтменить: {prefix}lm cancel {approval_id}\nСрок действия: 10 минут."@;
    reveal_strlit("📋 План установки\n\nИсточник: {source}\nМодуль: {module} v{version}\nПротокол: {protocol}\nТочка входа: {entrypoint}\nКоманда по умолчанию: {default_command}\nSHA-256: {sha256}\nОтпечаток: {fingerprint}\nАрхив: {archive_bytes} Байт, файлов: {file_count}, сжато: {compressed_bytes} Байт, распаковано: {expanded_bytes} Байт\nВозможности: {capabilities}\nПодписки: {subscriptions}\nМетоды Telegram V6: {methods}\nДействия: {actions}\nПредупреждения: {warnings}\n\nApprovalId: {approval_id}\nПодтвердите: {prefix}lm confirm {approval_id}\nОтменить: {prefix}lm cancel {approval_id}\nСрок действия: 10 минут.");
    reveal_strlit("source");
    reveal_strlit("module");
    reveal_strlit("version");
    reveal_strlit("protocol");
    reveal_strlit("entrypoint");
    reveal_strlit("default_command");
    reveal_strlit("sha256");
    reveal_strlit("fingerprint");
    reveal_strlit("archive_bytes");
    reveal_strlit("file_count");
    reveal_strlit("compressed_bytes");
    reveal_strlit("expanded_bytes");
    reveal_strlit("capabilities");
    reveal_strlit("subscriptions");
    reveal_strlit("methods");
    reveal_strlit("actions");
    reveal_strlit("warnings");
    reveal_strlit("approval_id");
    reveal_strlit("prefix");
    assert(next_part(russian, 0, 28, 35, "source"@)) by {
        reveal(next_part);
        assert(russian.subrange(29, 35) == "source"@);
    }
    lemma_next_part(russian, 0, 28, 35, "source"@);
    assert(next_part(russian, 36, 45, 52, "module"@)) by {
        reveal(next_part);
        assert(russian.subrange(46, 52) == "module"@);
    }
    lemma_next_part(russian, 36, 45, 52, "module"@);
    assert(next_part(russian, 53, 55, 63, "version"@)) by {
        reveal(next_part);
        assert(russian.subrange(56, 63) == "version"@);
    }
    lemma_next_part(russian, 53, 55, 63, "version"@);
    assert(next_part(russian, 64, 75, 84, "protocol"@)) by {
        reveal(next_part);
        assert(russian.subrange(76, 84) == "protocol"@);
    }
    lemma_next_part(russian, 64, 75, 84, "protocol"@);
    assert(next_part(russian, 85, 99, 110, "entrypoint"@)) by {
        reveal(next_part);
        assert(russian.subrange(100, 110) == "entrypoint"@);
    }
    lemma_next_part(russian, 85, 99, 110, "entrypoint"@);
    assert(next_part(russian, 111, 134, 150, "default_command"@)) by {
        reveal(next_part);
        assert(russian.subrange(135, 150) == "default_command"@);
    }
    lemma_next_part(russian, 111, 134, 150, "default_command"@);
    assert(next_part(russian, 151, 161, 168, "sha256"@)) by {
        reveal(next_part);
        assert(russian.subrange(162, 168) == "sha256"@);
    }
    lemma_next_part(russian, 151, 161, 168, "sha256"@);
    assert(next_part(russian, 169, 181, 193, "fingerprint"@)) by {
        reveal(next_part);
        assert(russian.subrange(182, 193) == "fingerprint"@);
    }
    lemma_next_part(russian, 169, 181, 193, "fingerprint"@);
    assert(next_part(russian, 194, 202, 216, "archive_bytes"@)) by {
        reveal(next_part);
        assert(russian.subrange(203, 216) == "archive_bytes"@);
    }
    lemma_next_part(russian, 194, 202, 216, "archive_bytes"@);
    assert(next_part(russian, 217, 232, 243, "file_count"@)) by {
        reveal(next_part);
        assert(russian.subrange(233, 243) == "file_count"@);
    }
    lemma_next_part(russian, 217, 232, 243, "file_count"@);
    assert(next_part(russian, 244, 253, 270, "compressed_bytes"@)) by {
        reveal(next_part);
        assert(russian.subrange(254, 270) == "compressed_bytes"@);
    }
    lemma_next_part(russian, 244, 253, 270, "compressed_bytes"@);
    assert(next_part(russian, 271, 291, 306, "expanded_bytes"@)) by {
        reveal(next_part);
        assert(russian.subrange(292, 306) == "expanded_bytes"@);
    }
    lemma_next_part(russian, 271, 291, 306, "expanded_bytes"@);
    assert(next_part(russian, 307, 326, 339, "capabilities"@)) by {
        reveal(next_part);
        assert(russian.subrange(327, 339) == "capabilities"@);
    }
    lemma_next_part(russian, 307, 326, 339, "capabilities"@);
    assert(next_part(russian, 340, 351, 365, "subscriptions"@)) by {
        reveal(next_part);
        assert(russian.subrange(352, 365) == "subscriptions"@);
    }
    lemma_next_part(russian, 340, 351, 365, "subscriptions"@);
    assert(next_part(russian, 366, 387, 395, "methods"@)) by {
        reveal(next_part);
        assert(russian.subrange(388, 395) == "methods"@);
    }
    lemma_next_part(russian, 366, 387, 395, "methods"@);
    assert(next_part(russian, 396, 407, 415, "actions"@)) by {
        reveal(next_part);
        assert(russian.subrange(408, 415) == "actions"@);
    }
    lemma_next_part(russian, 396, 407, 415, "actions"@);
    assert(next_part(russian, 416, 433, 442, "warnings"@)) by {
        reveal(next_part);
        assert(russian.subrange(434, 442) == "warnings"@);
    }
    lemma_next_part(russian, 416, 433, 442, "warnings"@);
    assert(next_part(russian, 443, 457, 469, "approval_id"@)) by {
        reveal(next_part);
        assert(russian.subrange(458, 469) == "approval_id"@);
    }
    lemma_next_part(russian, 443, 457, 469, "approval_id"@);
    assert(next_part(russian, 470, 484, 491, "prefix"@)) by {
        reveal(next_part);
        assert(russian.subrange(485, 491) == "prefix"@);
    }
    lemma_next_part(russian, 470, 484, 491, "prefix"@);
    assert(next_part(russian, 492, 503, 515, "approval_id"@)) by {
        reveal(next_part);
        assert(russian.subrange(504, 515) == "approval_id"@);
    }
    lemma_next_part(russian, 492, 503, 515, "approval_id"@);
    assert(next_part(russian, 516, 527, 534, "prefix"@)) by {
        reveal(next_part);
        assert(russian.subrange(528, 534) == "prefix"@);
    }
    lemma_next_part(russian, 516, 527, 534, "prefix"@);
    assert(next_part(russian, 535, 545, 557, "approval_id"@)) by {
        reveal(next_part);
        assert(russian.subrange(546, 557) == "approval_id"@);
    }
    lemma_next_part(russian, 535, 545, 557, "approval_id"@);
    assert(last_part(russian, 558)) by {
        reveal(last_part);
    }
    lemma_last_part(russian, 558);
    assert(russian.skip(0) == russian);
}

proof fn lemma_lm_install_plan()
    ensures
        agree(
            "📋 Installation plan\n\nSource: {source}\nModule: {module} v{version}\nProtocol: {protocol}\nEntrypoint: {entrypoint}\nDefault command: {default_command}\nSHA-256: {sha256}\nFingerprint: {fingerprint}\nArchive: {archive_bytes} bytes, files: {file_count}, compressed: {compressed_bytes} bytes, expanded: {expanded_bytes} bytes\nCapabilities: {capabilities}\nSubscriptions: {subscriptions}\nTelegram V6 methods: {methods}\nActions: {actions}\nWarnings: {warnings}\n\nApprovalId: {approval_id}\nConfirm: {prefix}lm confirm {approval_id}\nCancel: {prefix}lm cancel {approval_id}\nExpires in: 10 minutes."@,
            "📋 План установки\n\nИсточник: {source}\nМодуль: {module} v{version}\nПротокол: {protocol}\nТочка входа: {entrypoint}\nКоманда по умолчанию: {default_command}\nSHA-256: {sha256}\nОтпечаток: {fingerprint}\nАрхив: {archive_bytes} Байт, файлов: {file_count}, сжато: {compressed_bytes} Байт, распаковано: {expanded_bytes} Байт\nВозможности: {capabilities}\nПодписки: {subscriptions}\nМетоды Telegram V6: {methods}\nДействия: {actions}\nПредупреждения: {warnings}\n\nApprovalId: {approval_id}\nПодтвердите: {prefix}lm confirm {approval_id}\nОтменить: {prefix}lm cancel {approval_id}\nСрок действия: 10 минут."@,
        ),
{
    let english = "📋 Installation plan\n\nSource: {source}\nModule: {module} v{version}\nProtocol: {protocol}\nEntrypoint: {entrypoint}\nDefault command: {default_command}\nSHA-256: {sha256}\nFingerprint: {fingerprint}\nArchive: {archive_bytes} bytes, files: {file_count}, compressed: {compressed_bytes} bytes, expanded: {expanded_bytes} bytes\nCapabilities: {capabilities}\nSubscriptions: {subscriptions}\nTelegram V6 methods: {methods}\nActions: {actions}\nWarnings: {warnings}\n\nApprovalId: {approval_id}\nConfirm: {prefix}lm confirm {approval_id}\nCancel: {prefix}lm cancel {approval_id}\nExpires in: 10 minutes."@;
    let russian = "📋 План установки\n\nИсточник: {source}\nМодуль: {module} v{version}\nПротокол: {protocol}\nТочка входа: {entrypoint}\nКоманда по умолчанию: {default_command}\nSHA-256: {sha256}\nОтпечаток: {fingerprint}\nАрхив: {archive_bytes} Байт, файлов: {file_count}, сжато: {compressed_bytes} Байт, распаковано: {expanded_bytes} Байт\nВозможности: {capabilities}\nПодписки: {subscriptions}\nМетоды Telegram V6: {methods}\nДействия: {actions}\nПредупреждения: {warnings}\n\nApprovalId: {approval_id}\nПодтвердите: {prefix}lm confirm {approval_id}\nОтменить: {prefix}lm cancel {approval_id}\nСрок действия: 10 минут."@;
    reveal_strlit("📋 Installation plan\n\nSource: {source}\nModule: {module} v{version}\nProtocol: {protocol}\nEntrypoint: {entrypoint}\nDefault command: {default_command}\nSHA-256: {sha256}\nFingerprint: {fingerprint}\nArchive: {archive_bytes} bytes, files: {file_count}, compressed: {compressed_bytes} bytes, expanded: {expanded_bytes} bytes\nCapabilities: {capabilities}\nSubscriptions: {subscriptions}\nTelegram V6 methods: {methods}\nActions: {actions}\nWarnings: {warnings}\n\nApprovalId: {approval_id}\nConfirm: {prefix}lm confirm {approval_id}\nCancel: {prefix}lm cancel {approval_id}\nExpires in: 10 minutes.");
    reveal_strlit("📋 План установки\n\nИсточник: {source}\nМодуль: {module} v{version}\nПротокол: {protocol}\nТочка входа: {entrypoint}\nКоманда по умолчанию: {default_command}\nSHA-256: {sha256}\nОтпечаток: {fingerprint}\nАрхив: {archive_bytes} Байт, файлов: {file_count}, сжато: {compressed_bytes} Байт, распаковано: {expanded_bytes} Байт\nВозможности: {capabilities}\nПодписки: {subscriptions}\nМетоды Telegram V6: {methods}\nДействия: {actions}\nПредупреждения: {warnings}\n\nApprovalId: {approval_id}\nПодтвердите: {prefix}lm confirm {approval_id}\nОтменить: {prefix}lm cancel {approval_id}\nСрок действия: 10 минут.");
    assert(english[2] != russian[2]);
    lemma_lm_install_plan_english();
    lemma_lm_install_plan_russian();
}

proof fn lemma_lm_state_changed()
    ensures
        agree(
            "✅ Module «{id}» is now {detail}.\n\nRun {prefix}reboot to apply the change."@,
            "✅ Модуль «{id}» {detail}.\n\nДля применения изменений выполните:\n{prefix}reboot"@,
        ),
{
    let english = "✅ Module «{id}» is now {detail}.\n\nRun {prefix}reboot to apply the change."@;
    let russian = "✅ Модуль «{id}» {detail}.\n\nДля применения изменений выполните:\n{prefix}reboot"@;
    reveal_strlit("✅ Module «{id}» is now {detail}.\n\nRun {prefix}reboot to apply the change.");
    reveal_strlit("✅ Модуль «{id}» {detail}.\n\nДля применения изменений выполните:\n{prefix}reboot");
    assert(english[2] != russian[2]);
    reveal_strlit("id");
    reveal_strlit("detail");
    reveal_strlit("prefix");
    assert(next_part(english, 0, 10, 13, "id"@)) by {
        reveal(next_part);
        assert(english.subrange(11, 13) == "id"@);
    }
    lemma_next_part(english, 0, 10, 13, "id"@);
    assert(next_part(english, 14, 23, 30, "detail"@)) by {
        reveal(next_part);
        assert(english.subrange(24, 30) == "detail"@);
    }
    lemma_next_part(english, 14, 23, 30, "detail"@);
    assert(next_part(english, 31, 38, 45, "prefix"@)) by {
        reveal(next_part);
        assert(english.subrange(39, 45) == "prefix"@);
    }
    lemma_next_part(english, 31, 38, 45, "prefix"@);
    assert(last_part(english, 46)) by {
        reveal(last_part);
    }
    lemma_last_part(english, 46);
    assert(english.skip(0) == english);
    assert(next_part(russian, 0, 10, 13, "id"@)) by {
        reveal(next_part);
        assert(russian.subrange(11, 13) == "id"@);
    }
    lemma_next_part(russian, 0, 10, 13, "id"@);
    assert(next_part(russian, 14, 16, 23, "detail"@)) by {
        reveal(next_part);
        assert(russian.subrange(17, 23) == "detail"@);
    }
    lemma_next_part(russian, 14, 16, 23, "detail"@);
    assert(next_part(russian, 24, 63, 70, "prefix"@)) by {
        reveal(next_part);
        assert(russian.subrange(64, 70) == "prefix"@);
    }
    lemma_next_part(russian, 24, 63, 70, "prefix"@);
    assert(last_part(russian, 71)) by {
        reveal(last_part);
    }
    lemma_last_part(russian, 71);
    assert(russian.skip(0) == russian);
}

proof fn lemma_lm_state_unchanged()
    ensures
        agree(
            "ℹ️ Module «{id}» is already {detail}."@,
            "ℹ️ Модуль «{id}» уже {detail}."@,
        ),
{
    let english = "ℹ️ Module «{id}» is already {detail}."@;
    let russian = "ℹ️ Модуль «{id}» уже {detail}."@;
    reveal_strlit("ℹ️ Module «{id}» is already {detail}.");
    reveal_strlit("ℹ️ Модуль «{id}» уже {detail}.");
    assert(english[3] != russian[3]);
    reveal_strlit("id");
    reveal_strlit("detail");
    assert(next_part(english, 0, 11, 14, "id"@)) by {
        reveal(next_part);
        assert(english.subrange(12, 14) == "id"@);
    }
    lemma_next_part(english, 0, 11, 14, "id"@);
    assert(next_part(english, 15, 28, 35, "detail"@)) by {
        reveal(next_part);
        assert(english.subrange(29, 35) == "detail"@);
    }
    lemma_next_part(english, 15, 28, 35, "detail"@);
    assert(last_part(english, 36)) by {
        reveal(last_part);
    }
    lemma_last_part(english, 36);
    assert(english.skip(0) == english);
    assert(next_part(russian, 0, 11, 14, "id"@)) by {
        reveal(next_part);
        assert(russian.subrange(12, 14) == "id"@);
    }
    lemma_next_part(russian, 0, 11, 14, "id"@);
    assert(next_part(russian, 15, 21, 28, "detail"@)) by {
        reveal(next_part);
        assert(russian.subrange(22, 28) == "detail"@);
    }
    lemma_next_part(russian, 15, 21, 28, "detail"@);
    assert(last_part(russian, 29)) by {
        reveal(last_part);
    }
    lemma_last_part(russian, 29);
    assert(russian.skip(0) == russian);
}

/// Every module-management message is said in both languages: with the same placeholders, in words of
/// their own, and in English without a Cyrillic letter.
pub proof fn lm_messages_agree(key: LmText)
    ensures
        agree(lm_text(Locale::English, key)@, lm_text(Locale::Russian, key)@),
{
    match key {
        LmText::Usage => lemma_lm_usage(),
        LmText::Unavailable => assert(agree("⚠️ External module management is unavailable."@, "⚠️ Управление внешними модулями недоступно."@)) by {
            reveal_strlit("⚠️ External module management is unavailable.");
            reveal_strlit("⚠️ Управление внешними модулями недоступно.");
            lemma_plain("⚠️ External module management is unavailable."@, "⚠️ Управление внешними модулями недоступно."@, 3);
        },
        LmText::StateUnavailable => assert(agree("⚠️ External module state is unavailable."@, "⚠️ Состояние внешних модулей недоступно."@)) by {
            reveal_strlit("⚠️ External module state is unavailable.");
            reveal_strlit("⚠️ Состояние внешних модулей недоступно.");
            lemma_plain("⚠️ External module state is unavailable."@, "⚠️ Состояние внешних модулей недоступно."@, 3);
        },
        LmText::ListUnavailable => assert(agree("⚠️ Could not read the external module list."@, "⚠️ Не удалось прочитать список внешних модулей."@)) by {
            reveal_strlit("⚠️ Could not read the external module list.");
            reveal_strlit("⚠️ Не удалось прочитать список внешних модулей.");
            lemma_plain("⚠️ Could not read the external module list."@, "⚠️ Не удалось прочитать список внешних модулей."@, 3);
        },
        LmText::Empty => lemma_lm_empty(),
        LmText::ListHeading => assert(agree("📦 External modules"@, "📦 Внешние модули"@)) by {
            reveal_strlit("📦 External modules");
            reveal_strlit("📦 Внешние модули");
            lemma_plain("📦 External modules"@, "📦 Внешние модули"@, 2);
        },
        LmText::RuntimeUnavailable => assert(agree("⚠️ External module runtime is unavailable."@, "⚠️ Runtime внешних модулей недоступен."@)) by {
            reveal_strlit("⚠️ External module runtime is unavailable.");
            reveal_strlit("⚠️ Runtime внешних модулей недоступен.");
            lemma_plain("⚠️ External module runtime is unavailable."@, "⚠️ Runtime внешних модулей недоступен."@, 3);
        },
        LmText::NoRuntimeError => lemma_lm_no_runtime_error(),
        LmText::LastModuleError => lemma_lm_last_module_error(),
        LmText::DoctorHeading => assert(agree("🩺 External module diagnostics"@, "🩺 Диагностика внешних модулей"@)) by {
            reveal_strlit("🩺 External module diagnostics");
            reveal_strlit("🩺 Диагностика внешних модулей");
            lemma_plain("🩺 External module diagnostics"@, "🩺 Диагностика внешних модулей"@, 2);
        },
        LmText::DoctorModuleHeading => lemma_lm_doctor_module_heading(),
        LmText::DoctorEmpty => assert(agree("No external modules are installed."@, "Внешние модули не установлены."@)) by {
            reveal_strlit("No external modules are installed.");
            reveal_strlit("Внешние модули не установлены.");
            lemma_plain("No external modules are installed."@, "Внешние модули не установлены."@, 0);
        },
        LmText::NotFound => lemma_lm_not_found(),
        LmText::InvalidManifest => assert(agree("⚠️ The installed module manifest is invalid."@, "⚠️ Манифест установленного модуля некорректен."@)) by {
            reveal_strlit("⚠️ The installed module manifest is invalid.");
            reveal_strlit("⚠️ Манифест установленного модуля некорректен.");
            lemma_plain("⚠️ The installed module manifest is invalid."@, "⚠️ Манифест установленного модуля некорректен."@, 3);
        },
        LmText::NotInstalled => assert(agree("⚠️ Module is not installed."@, "⚠️ Модуль не установлен."@)) by {
            reveal_strlit("⚠️ Module is not installed.");
            reveal_strlit("⚠️ Модуль не установлен.");
            lemma_plain("⚠️ Module is not installed."@, "⚠️ Модуль не установлен."@, 3);
        },
        LmText::NotInstalledOrUnavailable => assert(agree("⚠️ Module is not installed or unavailable."@, "⚠️ Модуль не установлен или недоступен."@)) by {
            reveal_strlit("⚠️ Module is not installed or unavailable.");
            reveal_strlit("⚠️ Модуль не установлен или недоступен.");
            lemma_plain("⚠️ Module is not installed or unavailable."@, "⚠️ Модуль не установлен или недоступен."@, 3);
        },
        LmText::Declarative => assert(agree("⚠️ This module is managed declaratively by NixOS. Change services.lavis.extensions and run nh os switch."@, "⚠️ Модуль управляется декларативно через NixOS. Измените services.lavis.extensions и выполните nh os switch."@)) by {
            reveal_strlit("⚠️ This module is managed declaratively by NixOS. Change services.lavis.extensions and run nh os switch.");
            reveal_strlit("⚠️ Модуль управляется декларативно через NixOS. Измените services.lavis.extensions и выполните nh os switch.");
            lemma_plain("⚠️ This module is managed declaratively by NixOS. Change services.lavis.extensions and run nh os switch."@, "⚠️ Модуль управляется декларативно через NixOS. Измените services.lavis.extensions и выполните nh os switch."@, 3);
        },
        LmText::StateChangeFailed => assert(agree("⚠️ Could not change module state."@, "⚠️ Не удалось изменить состояние модуля."@)) by {
            reveal_strlit("⚠️ Could not change module state.");
            reveal_strlit("⚠️ Не удалось изменить состояние модуля.");
            lemma_plain("⚠️ Could not change module state."@, "⚠️ Не удалось изменить состояние модуля."@, 3);
        },
        LmText::InstallUnavailable => assert(agree("⚠️ External module installation is unavailable."@, "⚠️ Установка внешних модулей недоступна."@)) by {
            reveal_strlit("⚠️ External module installation is unavailable.");
            reveal_strlit("⚠️ Установка внешних модулей недоступна.");
            lemma_plain("⚠️ External module installation is unavailable."@, "⚠️ Установка внешних модулей недоступна."@, 3);
        },
        LmText::AttachPackage => assert(agree("⚠️ Attach a .lmod document to a new self-authored message in Saved Messages."@, "⚠️ Прикрепите документ .lmod к новому собственному сообщению в Saved Messages."@)) by {
            reveal_strlit("⚠️ Attach a .lmod document to a new self-authored message in Saved Messages.");
            reveal_strlit("⚠️ Прикрепите документ .lmod к новому собственному сообщению в Saved Messages.");
            lemma_plain("⚠️ Attach a .lmod document to a new self-authored message in Saved Messages."@, "⚠️ Прикрепите документ .lmod к новому собственному сообщению в Saved Messages."@, 3);
        },
        LmText::UnsafePackage => assert(agree("⚠️ The .lmod package did not pass safe inspection."@, "⚠️ Пакет .lmod не прошёл безопасную проверку."@)) by {
            reveal_strlit("⚠️ The .lmod package did not pass safe inspection.");
            reveal_strlit("⚠️ Пакет .lmod не прошёл безопасную проверку.");
            lemma_plain("⚠️ The .lmod package did not pass safe inspection."@, "⚠️ Пакет .lmod не прошёл безопасную проверку."@, 3);
        },
        LmText::PlanUnavailable => assert(agree("⚠️ The installation plan is unavailable."@, "⚠️ План установки недоступен."@)) by {
            reveal_strlit("⚠️ The installation plan is unavailable.");
            reveal_strlit("⚠️ План установки недоступен.");
            lemma_plain("⚠️ The installation plan is unavailable."@, "⚠️ План установки недоступен."@, 3);
        },
        LmText::ApprovalInvalid => assert(agree("⚠️ ApprovalId is invalid or expired."@, "⚠️ ApprovalId недействителен или истёк."@)) by {
            reveal_strlit("⚠️ ApprovalId is invalid or expired.");
            reveal_strlit("⚠️ ApprovalId недействителен или истёк.");
            lemma_plain("⚠️ ApprovalId is invalid or expired."@, "⚠️ ApprovalId недействителен или истёк."@, 14);
        },
        LmText::AlreadyRegistered => lemma_lm_already_registered(),
        LmText::VerifiedPackageUnavailable => assert(agree("⚠️ The verified package is unavailable."@, "⚠️ Проверенный пакет недоступен."@)) by {
            reveal_strlit("⚠️ The verified package is unavailable.");
            reveal_strlit("⚠️ Проверенный пакет недоступен.");
            lemma_plain("⚠️ The verified package is unavailable."@, "⚠️ Проверенный пакет недоступен."@, 3);
        },
        LmText::InstallRollbackFailed => assert(agree("⚠️ Installation did not finish: target rollback failed; inspect the module directory manually."@, "⚠️ Установка не завершена: откат цели не удался; проверьте каталог модулей вручную."@)) by {
            reveal_strlit("⚠️ Installation did not finish: target rollback failed; inspect the module directory manually.");
            reveal_strlit("⚠️ Установка не завершена: откат цели не удался; проверьте каталог модулей вручную.");
            lemma_plain("⚠️ Installation did not finish: target rollback failed; inspect the module directory manually."@, "⚠️ Установка не завершена: откат цели не удался; проверьте каталог модулей вручную."@, 3);
        },
        LmText::InstallValidationFailed => assert(agree("⚠️ Installation was not completed: final validation failed and the target was removed."@, "⚠️ Установка не выполнена: финальная проверка не пройдена, цель удалена."@)) by {
            reveal_strlit("⚠️ Installation was not completed: final validation failed and the target was removed.");
            reveal_strlit("⚠️ Установка не выполнена: финальная проверка не пройдена, цель удалена.");
            lemma_plain("⚠️ Installation was not completed: final validation failed and the target was removed."@, "⚠️ Установка не выполнена: финальная проверка не пройдена, цель удалена."@, 3);
        },
        LmText::InstallFailed => assert(agree("⚠️ Installation was not completed."@, "⚠️ Установка не выполнена."@)) by {
            reveal_strlit("⚠️ Installation was not completed.");
            reveal_strlit("⚠️ Установка не выполнена.");
            lemma_plain("⚠️ Installation was not completed."@, "⚠️ Установка не выполнена."@, 3);
        },
        LmText::RegistrationConflict => lemma_lm_registration_conflict(),
        LmText::InstalledDisabled => lemma_lm_installed_disabled(),
        LmText::Cancelled => assert(agree("✅ Installation plan cancelled."@, "✅ План установки отменён."@)) by {
            reveal_strlit("✅ Installation plan cancelled.");
            reveal_strlit("✅ План установки отменён.");
            lemma_plain("✅ Installation plan cancelled."@, "✅ План установки отменён."@, 2);
        },
        LmText::SavedMessagesOnly => assert(agree("⚠️ This module operation is available only from a new self-authored message in Saved Messages."@, "⚠️ Эта операция с модулями доступна только из нового собственного сообщения в Saved Messages."@)) by {
            reveal_strlit("⚠️ This module operation is available only from a new self-authored message in Saved Messages.");
            reveal_strlit("⚠️ Эта операция с модулями доступна только из нового собственного сообщения в Saved Messages.");
            lemma_plain("⚠️ This module operation is available only from a new self-authored message in Saved Messages."@, "⚠️ Эта операция с модулями доступна только из нового собственного сообщения в Saved Messages."@, 3);
        },
        LmText::InstallPlan => lemma_lm_install_plan(),
        LmText::StateChanged => lemma_lm_state_changed(),
        LmText::StateUnchanged => lemma_lm_state_unchanged(),
    }
}

} // verus!
