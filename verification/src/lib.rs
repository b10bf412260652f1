//! Core of a minimal chat-bot service: configuration validation, command
//! parsing, dispatch to handlers, and an error taxonomy with a deterministic
//! mapping to process exit codes.
//!
//! The transport client that talks to the messaging platform, environment
//! access and logging sinks are external collaborators; this library holds
//! every decision the service makes and states each one as a contract.

pub mod commands;
pub mod config;
pub mod error;
pub mod handler;

pub use commands::Command;
pub use config::BotConfig;
pub use error::{BotError, BotResult};
pub use handler::{handle_command, HandlerAction, InboundMessage, Reply, UserInfo};
