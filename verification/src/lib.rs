//! Logic of the twitch-1337 chat bot: runtime settings, chat history,
//! memory prompts, tool permissions and command decisions.
use vstd::prelude::*;

pub mod ai_command;
pub mod aviation;
pub mod clock;
pub mod commands;
pub mod config;
pub mod content;
pub mod history;
pub mod llm;
pub mod memory;
pub mod reactions;
pub mod settings;
pub mod text;
pub mod web;

verus! {
}
