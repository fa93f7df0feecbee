//! Context and prompt shaping for the stakpak agent CLI and TUI, verified.
//!
//! - `watch_prompt`: the prompt and the structured caller context of a
//!   schedule-driven (autopilot) run.
//! - `agent_context`: the context blocks the CLI adds to the user's prompt.
//! - `server_context`: server session context files from remote skills.
//! - `rulebook`: rule book descriptors and their text form.
//! - `caller_context`: structured caller context and its limits.
//! - `warden`: the warden configuration and its default container mounts.
//! - `ask_user_popup`: what the ask-user popup shows, as styled lines.
//! - `styled_text`: colors, styles, spans and lines of popup text.
//! - `text`: truncation, trimming, line splitting, joining, decimals.
use vstd::prelude::*;

pub mod agent_context;
pub mod ask_user_popup;
pub mod caller_context;
pub mod rulebook;
pub mod server_context;
pub mod styled_text;
pub mod text;
pub mod warden;
pub mod watch_prompt;


verus! {

} // verus!
