//! Usage telemetry and context estimation for a command-line status line.
//!
//! Given the decoded tail of a conversation transcript and the facts that the
//! caller gathered from the file system and the ledger, the library estimates
//! how much of a model's context window is in use, classifies the compaction
//! state, keeps the session, day, month and all-time aggregates, and lays out
//! the status line. Every function is pure: reading files, the environment
//! and the clock is the caller's part.

pub mod common;
pub mod config;
pub mod context_learning;
pub mod display;
pub mod error;
pub mod models;
pub mod retry;
pub mod stats;
pub mod string_map;
pub mod text;
pub mod theme;
pub mod utils;
