//! What the library promises, stated apart from how it is computed: relations between what goes in and
//! what comes out, over all inputs.
pub mod aliases;
pub mod builtin;
pub mod commands;
pub mod external;
pub mod installation;
pub mod instance;
pub mod ledgers;
pub mod logs;
pub mod messages;
pub mod modules;
pub mod owner;
pub mod receipts;
pub mod reports;
pub mod settings;
pub mod setup;
pub mod text;
pub mod upstream;
