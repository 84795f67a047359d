# lavis

The verified core of a personal Telegram companion: a userbot that answers its owner's commands,
forwards its own warnings, sets up a companion bot and runs external modules.

`src/` is a Verus library. Everything in it is proved against its contracts:

- `i18n` — the message catalog in English and Russian, and its placeholders.
- `response`, `utf16`, `text` — messages that fit Telegram's limits, with well-placed entities.
- `reboot_receipt` — the receipt that lets a restarted process confirm its restart.
- `message_provenance` — bounded ledgers of the edits and messages that the process made itself.
- `log_forwarder` — lines for the logs topic, and the worker that delivers them.
- `onboarding`, `info`, `modules`, `peer` — the tutorial, the instance summary, the built-in modules.
- `runtime` — the state of the running companion: commands, aliases, privileged requests, the setup of
  the companion bot, external modules and the relation to upstream.

The library takes no input and gives no output. `app/` is ordinary Rust around it: files, the network,
the clock, Telegram. It performs what the library asks for and reports what came of it.

`tests/` runs the library with the outside crates that it calls.
