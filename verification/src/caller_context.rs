//! Structured caller-provided context that is injected into server session
//! runs, and the limits that apply to it.
use vstd::prelude::*;

verus! {

/// The most context items one caller may provide.
pub const MAX_CALLER_CONTEXT_ITEMS: usize = 32;

/// The most characters in one context item's name.
pub const MAX_CALLER_CONTEXT_NAME_CHARS: usize = 256;

/// The most characters in one context item's content.
pub const MAX_CALLER_CONTEXT_CONTENT_CHARS: usize = 50_000;

/// Structured caller-provided context injected into server session runs.
#[derive(Debug, Clone, PartialEq, Eq)]
pub struct CallerContextInput {
    pub name: String,
    pub content: String,
    pub priority: Option<String>,
}

} // verus!
