//! Coordination core for fanning multi-turn analysis conversations out over a
//! pool of rate-limited completion endpoints: file selection, the per-task
//! conversation state machine, the retry/backoff policy and the bounded
//! scheduler, each with a machine-checked contract.

pub mod config;
pub mod conversation;
pub mod debate;
pub mod llm;
pub mod persist;
pub mod questions;
pub mod retry;
pub mod scheduler;
pub mod selector;
pub mod text;
pub mod work;
