//! Per-account mailbox watching: configuration, the lifecycle state machine of
//! one account's worker, and the supervisor that holds one worker per account.
//!
//! The library decides; the embedding program acts. Each worker names the next
//! action to perform (connect, log in, wait, run a command, sleep, ...) and is
//! then told how it went, so every transition is a verified function of the
//! worker and one event.
pub mod conf;
mod errors;
pub mod worker;
pub mod cycle;
pub mod supervisor;

pub use conf::{Account, Conf, LogConfig, LogLevel, Settings};
pub use errors::MissingConfigError;

