//! Verified core of a personal Telegram companion.
pub mod i18n;
pub mod info;
pub mod laws;
pub mod log_forwarder;
pub mod message_provenance;
pub mod modules;
pub mod onboarding;
pub mod peer;
pub mod reboot_receipt;
pub mod response;
pub mod runtime;
pub mod text;
pub mod utf16;
