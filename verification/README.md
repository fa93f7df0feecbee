# stakpak

Context and prompt shaping for the stakpak agent, written in Verus.

- `src/` is the verified library: schedule prompts and caller context, prompt
  enrichment with local context, rule books, AGENTS.md and APPS.md, remote
  skill context files, the warden's default mounts, and everything the
  ask-user popup shows (height, tab bar, question and review content, help
  line) as styled lines. Each public function's contract states its result
  exactly over `Seq<char>` views; the laws are `pub proof fn`s beside them.
- `app/` holds what Verus does not check: serde forms of the configuration
  and context types, asynchronous context loading, the process environment,
  and drawing the popup with ratatui.
- `tests/` runs the library on concrete values.
