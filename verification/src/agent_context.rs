//! The context the CLI injects into the user's prompt: local machine
//! details, rule books, AGENTS.md and APPS.md.
use crate::rulebook::{rulebook_text, ListRuleBook};
use crate::text::{
    contains_text, has_char, join, join_strings, lemma_contains_end, lemma_contains_in_extension,
    lemma_lines_first_line, lines_of, split_lines, strip_cr, views,
};
use vstd::prelude::*;

verus! {

/// An AGENTS.md file found for the project.
#[derive(Debug, Clone)]
pub struct AgentsMdInfo {
    pub content: String,
    pub path: String,
}

/// An APPS.md file found for the project.
#[derive(Debug, Clone)]
pub struct AppsMdInfo {
    pub content: String,
    pub path: String,
}

/// The text of an AGENTS.md file as it goes into the context: a heading, its
/// path, then its content. This layout is this library's own definition.
pub open spec fn agents_md_text(info: AgentsMdInfo) -> Seq<char> {
    "# AGENTS.md\n\nPath: "@ + info.path@ + "\n\n"@ + info.content@
}

/// The text of an APPS.md file as it goes into the context: a heading, its
/// path, then its content. This layout is this library's own definition.
pub open spec fn apps_md_text(info: AppsMdInfo) -> Seq<char> {
    "# APPS.md\n\nPath: "@ + info.path@ + "\n\n"@ + info.content@
}

/// Formats an AGENTS.md file for the context.
pub fn format_agents_md_for_context(info: &AgentsMdInfo) -> (res: String)
    ensures
        res@ == agents_md_text(*info),
{
    "# AGENTS.md\n\nPath: ".to_string().concat(info.path.as_str()).concat("\n\n").concat(
        info.content.as_str(),
    )
}

/// Formats an APPS.md file for the context.
pub fn format_apps_md_for_context(info: &AppsMdInfo) -> (res: String)
    ensures
        res@ == apps_md_text(*info),
{
    "# APPS.md\n\nPath: ".to_string().concat(info.path.as_str()).concat("\n\n").concat(
        info.content.as_str(),
    )
}

/// The lines after the first of a rule book entry, each on a new line
/// indented by four spaces.
pub open spec fn indented_rest(lines: Seq<Seq<char>>) -> Seq<char>
    decreases lines.len(),
{
    if lines.len() == 0 {
        seq![]
    } else {
        indented_rest(lines.drop_last()) + "\n    "@ + lines.last()
    }
}

/// One rule book as a list entry: its first line after `"  - "`, the others
/// indented below it; nothing when its text has no line.
pub open spec fn rulebook_entry(text: Seq<char>) -> Seq<char> {
    let lines = split_lines(text);
    if lines.len() == 0 {
        seq![]
    } else {
        "  - "@ + lines[0] + indented_rest(lines.drop_first())
    }
}

/// The entries of a list of rule books.
pub open spec fn rulebook_entries(rulebooks: Seq<ListRuleBook>) -> Seq<Seq<char>> {
    rulebooks.map_values(|rb: ListRuleBook| rulebook_entry(rulebook_text(rb)))
}

/// The rule books block: a heading, then one entry per rule book, one per line.
pub open spec fn rulebooks_block(rulebooks: Seq<ListRuleBook>) -> Seq<char> {
    "# My Rule Books:\n\n"@ + join(rulebook_entries(rulebooks), "\n"@)
}

/// Formats one rule book's text as a list entry.
fn format_rulebook_entry(text: &str) -> (res: String)
    ensures
        res@ == rulebook_entry(text@),
{
    let lines = lines_of(text);
    let ghost ls = views(lines@);
    let mut res = String::new();
    if lines.len() > 0 {
        res.append("  - ");
        res.append(lines[0].as_str());
        let mut i: usize = 1;
        while i < lines.len()
            invariant
                ls == views(lines@),
                ls == split_lines(text@),
                1 <= i <= lines.len(),
                res@ == "  - "@ + ls[0] + indented_rest(ls.subrange(1, i as int)),
            decreases lines.len() - i,
        {
            assert(ls.subrange(1, i + 1).drop_last() =~= ls.subrange(1, i as int));
            res.append("\n    ");
            res.append(lines[i].as_str());
            i = i + 1;
        }
        assert(ls.subrange(1, lines.len() as int) =~= ls.drop_first());
    }
    res
}

/// Formats rule books as a heading followed by one entry per rule book.
pub fn format_rulebooks(rulebooks: &[ListRuleBook]) -> (res: String)
    ensures
        res@ == rulebooks_block(rulebooks@),
{
    let mut entries: Vec<String> = Vec::new();
    let mut i: usize = 0;
    while i < rulebooks.len()
        invariant
            i <= rulebooks.len(),
            views(entries@) == rulebook_entries(rulebooks@.take(i as int)),
        decreases rulebooks.len() - i,
    {
        let text = rulebooks[i].to_text();
        let entry = format_rulebook_entry(text.as_str());
        let ghost before = views(entries@);
        entries.push(entry);
        assert(views(entries@) =~= before.push(entry@));
        assert(rulebooks@.take(i + 1) =~= rulebooks@.take(i as int).push(rulebooks@[i as int]));
        assert(rulebook_entries(rulebooks@.take(i + 1)) =~= rulebook_entries(
            rulebooks@.take(i as int),
        ).push(rulebook_entry(rulebook_text(rulebooks@[i as int]))));
        i = i + 1;
    }
    assert(rulebooks@.take(rulebooks.len() as int) =~= rulebooks@);
    let body = join_strings(&entries, "\n");
    "# My Rule Books:\n\n".to_string().concat(body.as_str())
}

/// The context the CLI injects into user prompts.
#[derive(Debug, Clone)]
pub struct AgentContext {
    /// Pre-formatted local context, snapshotted once at construction.
    pub local_context_formatted: Option<String>,
    pub rulebooks: Option<Vec<ListRuleBook>>,
    pub agents_md: Option<AgentsMdInfo>,
    pub apps_md: Option<AppsMdInfo>,
}

/// `text` with the block `body` appended, framed by `<tag>` and `</tag>`
/// lines.
pub open spec fn with_block(text: Seq<char>, tag: Seq<char>, body: Seq<char>) -> Seq<char> {
    text + "\n<"@ + tag + ">\n"@ + body + "\n</"@ + tag + ">"@
}

/// `text` with the local context block, when there is a local context.
pub open spec fn with_local_context(ctx: AgentContext, text: Seq<char>) -> Seq<char> {
    match ctx.local_context_formatted {
        Some(l) => with_block(text, "local_context"@, l@),
        None => text,
    }
}

/// `text` with the rule books block, when there is a non-empty list of them.
pub open spec fn with_rulebooks(ctx: AgentContext, text: Seq<char>) -> Seq<char> {
    match ctx.rulebooks {
        Some(rbs) => if rbs.len() > 0 {
            with_block(text, "rulebooks"@, rulebooks_block(rbs@))
        } else {
            text
        },
        None => text,
    }
}

/// `text` with the AGENTS.md block, when there is one.
pub open spec fn with_agents_md(ctx: AgentContext, text: Seq<char>) -> Seq<char> {
    match ctx.agents_md {
        Some(a) => with_block(text, "agents_md"@, agents_md_text(a)),
        None => text,
    }
}

/// `text` with the APPS.md block, when there is one.
pub open spec fn with_apps_md(ctx: AgentContext, text: Seq<char>) -> Seq<char> {
    match ctx.apps_md {
        Some(a) => with_block(text, "apps_md"@, apps_md_text(a)),
        None => text,
    }
}

/// The prompt sent for `user_input`: unchanged unless it is the first message
/// or context is forced; then followed by the local context and rule book
/// blocks, and on the first message also by the AGENTS.md and APPS.md blocks.
pub open spec fn enriched_prompt(
    ctx: AgentContext,
    user_input: Seq<char>,
    is_first_message: bool,
    force_context: bool,
) -> Seq<char> {
    if !is_first_message && !force_context {
        user_input
    } else {
        let base = with_rulebooks(ctx, with_local_context(ctx, user_input));
        if is_first_message {
            with_apps_md(ctx, with_agents_md(ctx, base))
        } else {
            base
        }
    }
}

/// Appends a framed block to `text`.
fn append_block(text: String, tag: &str, body: &str) -> (res: String)
    ensures
        res@ == with_block(text@, tag@, body@),
{
    text.concat("\n<").concat(tag).concat(">\n").concat(body).concat("\n</").concat(tag).concat(
        ">",
    )
}

impl AgentContext {
    /// Builds the context from its parts; `local_context_formatted` is the
    /// local context already formatted for display, if that succeeded.
    pub fn from_parts(
        local_context_formatted: Option<String>,
        rulebooks: Option<Vec<ListRuleBook>>,
        agents_md: Option<AgentsMdInfo>,
        apps_md: Option<AppsMdInfo>,
    ) -> (res: Self)
        ensures
            res == (AgentContext { local_context_formatted, rulebooks, agents_md, apps_md }),
    {
        AgentContext { local_context_formatted, rulebooks, agents_md, apps_md }
    }

    /// Replaces the rule books.
    pub fn update_rulebooks(&mut self, rulebooks: Option<Vec<ListRuleBook>>)
        ensures
            final(self).rulebooks == rulebooks,
            final(self).local_context_formatted == old(self).local_context_formatted,
            final(self).agents_md == old(self).agents_md,
            final(self).apps_md == old(self).apps_md,
    {
        self.rulebooks = rulebooks;
    }

    /// The prompt to send for `user_input`, with the context blocks that
    /// apply to this message.
    pub fn enrich_prompt(&self, user_input: &str, is_first_message: bool, force_context: bool) -> (res:
        String)
        ensures
            res@ == enriched_prompt(*self, user_input@, is_first_message, force_context),
    {
        if !is_first_message && !force_context {
            return user_input.to_string();
        }
        let mut result = user_input.to_string();
        if let Some(formatted) = &self.local_context_formatted {
            result = append_block(result, "local_context", formatted.as_str());
        }
        if let Some(rulebooks) = &self.rulebooks {
            if rulebooks.len() > 0 {
                let rulebooks_text = format_rulebooks(rulebooks.as_slice());
                result = append_block(result, "rulebooks", rulebooks_text.as_str());
            }
        }
        if is_first_message {
            if let Some(agents_md) = &self.agents_md {
                let agents_text = format_agents_md_for_context(agents_md);
                result = append_block(result, "agents_md", agents_text.as_str());
            }
            if let Some(apps_md) = &self.apps_md {
                let apps_text = format_apps_md_for_context(apps_md);
                result = append_block(result, "apps_md", apps_text.as_str());
            }
        }
        result
    }
}

/// The context with its AGENTS.md and APPS.md left out.
pub open spec fn without_project_docs(ctx: AgentContext) -> AgentContext {
    AgentContext { agents_md: None, apps_md: None, ..ctx }
}

/// Whether the context has nothing to inject: no local context, no rule
/// books (or an empty list of them), no AGENTS.md and no APPS.md.
pub open spec fn has_nothing_to_inject(ctx: AgentContext) -> bool {
    &&& ctx.local_context_formatted is None
    &&& match ctx.rulebooks {
        Some(rbs) => rbs.len() == 0,
        None => true,
    }
    &&& ctx.agents_md is None
    &&& ctx.apps_md is None
}

/// Appending a block keeps the text before it.
proof fn lemma_with_block_extends(text: Seq<char>, tag: Seq<char>, body: Seq<char>)
    ensures
        text.is_prefix_of(with_block(text, tag, body)),
{
    assert(with_block(text, tag, body).take(text.len() as int) =~= text);
}

/// A prefix of a prefix is a prefix.
proof fn lemma_prefix_trans(a: Seq<char>, b: Seq<char>, c: Seq<char>)
    requires
        a.is_prefix_of(b),
        b.is_prefix_of(c),
    ensures
        a.is_prefix_of(c),
{
    assert(c.take(a.len() as int) =~= b.take(a.len() as int));
}

/// The enriched prompt always begins with the user's input, whatever the
/// context and flags.
pub proof fn lemma_enriched_prompt_starts_with_input(
    ctx: AgentContext,
    user_input: Seq<char>,
    is_first_message: bool,
    force_context: bool,
)
    ensures
        user_input.is_prefix_of(enriched_prompt(ctx, user_input, is_first_message, force_context)),
{
    let l = with_local_context(ctx, user_input);
    let b = with_rulebooks(ctx, l);
    let a = with_agents_md(ctx, b);
    let p = with_apps_md(ctx, a);
    assert(user_input.is_prefix_of(user_input)) by {
        assert(user_input.take(user_input.len() as int) =~= user_input);
    }
    assert(user_input.is_prefix_of(l)) by {
        if let Some(x) = ctx.local_context_formatted {
            lemma_with_block_extends(user_input, "local_context"@, x@);
        }
    }
    assert(user_input.is_prefix_of(b)) by {
        if let Some(rbs) = ctx.rulebooks {
            if rbs.len() > 0 {
                lemma_with_block_extends(l, "rulebooks"@, rulebooks_block(rbs@));
                lemma_prefix_trans(user_input, l, b);
            }
        }
    }
    assert(user_input.is_prefix_of(a)) by {
        if let Some(x) = ctx.agents_md {
            lemma_with_block_extends(b, "agents_md"@, agents_md_text(x));
            lemma_prefix_trans(user_input, b, a);
        }
    }
    assert(user_input.is_prefix_of(p)) by {
        if let Some(x) = ctx.apps_md {
            lemma_with_block_extends(a, "apps_md"@, apps_md_text(x));
            lemma_prefix_trans(user_input, a, p);
        }
    }
}

/// Forcing context on a follow-up message injects the local context and the
/// rule books only: the same as the first message of a context without
/// AGENTS.md and APPS.md.
pub proof fn lemma_forced_context_omits_project_docs(ctx: AgentContext, user_input: Seq<char>)
    ensures
        enriched_prompt(ctx, user_input, false, true) == enriched_prompt(
            without_project_docs(ctx),
            user_input,
            true,
            false,
        ),
{
}

/// A follow-up message without forced context is sent unchanged.
pub proof fn lemma_follow_up_unchanged(ctx: AgentContext, user_input: Seq<char>)
    ensures
        enriched_prompt(ctx, user_input, false, false) == user_input,
{
}

/// With nothing to inject, every message is sent unchanged.
pub proof fn lemma_nothing_to_inject_unchanged(
    ctx: AgentContext,
    user_input: Seq<char>,
    is_first_message: bool,
    force_context: bool,
)
    requires
        has_nothing_to_inject(ctx),
    ensures
        enriched_prompt(ctx, user_input, is_first_message, force_context) == user_input,
{
}

/// The block for `body` framed by `<tag>` and `</tag>` lines.
pub open spec fn tagged_block(tag: Seq<char>, body: Seq<char>) -> Seq<char> {
    "\n<"@ + tag + ">\n"@ + body + "\n</"@ + tag + ">"@
}

/// Appending a block leaves the text before it and the block itself in the
/// result.
proof fn lemma_with_block_holds(text: Seq<char>, tag: Seq<char>, body: Seq<char>)
    ensures
        text.is_prefix_of(with_block(text, tag, body)),
        contains_text(with_block(text, tag, body), tagged_block(tag, body)),
{
    lemma_with_block_extends(text, tag, body);
    assert(with_block(text, tag, body) =~= text + tagged_block(tag, body));
    lemma_contains_end(text, tagged_block(tag, body));
}

/// Each step of enrichment keeps what came before it.
proof fn lemma_enrichment_steps_extend(ctx: AgentContext, text: Seq<char>)
    ensures
        text.is_prefix_of(with_local_context(ctx, text)),
        text.is_prefix_of(with_rulebooks(ctx, text)),
        text.is_prefix_of(with_agents_md(ctx, text)),
        text.is_prefix_of(with_apps_md(ctx, text)),
{
    assert(text.take(text.len() as int) =~= text);
    match ctx.local_context_formatted {
        Some(l) => lemma_with_block_extends(text, "local_context"@, l@),
        None => {},
    }
    match ctx.rulebooks {
        Some(rbs) => if rbs.len() > 0 {
            lemma_with_block_extends(text, "rulebooks"@, rulebooks_block(rbs@));
        },
        None => {},
    }
    match ctx.agents_md {
        Some(a) => lemma_with_block_extends(text, "agents_md"@, agents_md_text(a)),
        None => {},
    }
    match ctx.apps_md {
        Some(a) => lemma_with_block_extends(text, "apps_md"@, apps_md_text(a)),
        None => {},
    }
}

/// Every context block that applies to a message is in its enriched prompt:
/// the local context and a non-empty list of rule books on a first message
/// or when context is forced; AGENTS.md and APPS.md on a first message,
/// each whether or not the other is present.
pub proof fn lemma_enriched_prompt_includes_blocks(
    ctx: AgentContext,
    user_input: Seq<char>,
    is_first_message: bool,
    force_context: bool,
)
    ensures
        is_first_message || force_context ==> (ctx.local_context_formatted matches Some(l)
            ==> contains_text(
            enriched_prompt(ctx, user_input, is_first_message, force_context),
            tagged_block("local_context"@, l@),
        )),
        is_first_message || force_context ==> (ctx.rulebooks matches Some(rbs) ==> (rbs.len() > 0
            ==> contains_text(
            enriched_prompt(ctx, user_input, is_first_message, force_context),
            tagged_block("rulebooks"@, rulebooks_block(rbs@)),
        ))),
        is_first_message ==> (ctx.agents_md matches Some(a) ==> contains_text(
            enriched_prompt(ctx, user_input, is_first_message, force_context),
            tagged_block("agents_md"@, agents_md_text(a)),
        )),
        is_first_message ==> (ctx.apps_md matches Some(a) ==> contains_text(
            enriched_prompt(ctx, user_input, is_first_message, force_context),
            tagged_block("apps_md"@, apps_md_text(a)),
        )),
{
    let r = enriched_prompt(ctx, user_input, is_first_message, force_context);
    let l1 = with_local_context(ctx, user_input);
    let l2 = with_rulebooks(ctx, l1);
    let l3 = with_agents_md(ctx, l2);
    let l4 = with_apps_md(ctx, l3);
    lemma_enrichment_steps_extend(ctx, l1);
    lemma_enrichment_steps_extend(ctx, l2);
    lemma_enrichment_steps_extend(ctx, l3);
    if is_first_message || force_context {
        if is_first_message {
            assert(r == l4);
            lemma_prefix_trans(l2, l3, l4);
        } else {
            assert(r == l2);
            assert(l2.take(l2.len() as int) =~= l2);
        }
        assert(l2.is_prefix_of(r));
        lemma_prefix_trans(l1, l2, r);
        if let Some(l) = ctx.local_context_formatted {
            lemma_with_block_holds(user_input, "local_context"@, l@);
            lemma_contains_in_extension(l1, r, tagged_block("local_context"@, l@));
        }
        if let Some(rbs) = ctx.rulebooks {
            if rbs.len() > 0 {
                lemma_with_block_holds(l1, "rulebooks"@, rulebooks_block(rbs@));
                lemma_contains_in_extension(l2, r, tagged_block("rulebooks"@, rulebooks_block(rbs@)));
            }
        }
        if is_first_message {
            if let Some(a) = ctx.agents_md {
                lemma_with_block_holds(l2, "agents_md"@, agents_md_text(a));
                lemma_contains_in_extension(l3, r, tagged_block("agents_md"@, agents_md_text(a)));
            }
            if let Some(a) = ctx.apps_md {
                lemma_with_block_holds(l3, "apps_md"@, apps_md_text(a));
                assert(l4.take(l4.len() as int) =~= l4);
                lemma_contains_in_extension(l4, r, tagged_block("apps_md"@, apps_md_text(a)));
            }
        }
    }
}

/// The block for `body` when `present`, nothing otherwise.
pub open spec fn block_if(present: bool, tag: Seq<char>, body: Seq<char>) -> Seq<char> {
    if present {
        tagged_block(tag, body)
    } else {
        Seq::<char>::empty()
    }
}

/// The enriched prompt is the user's input followed by the blocks that
/// apply, in this order: local context, rule books (when the list is not
/// empty), then, on a first message only, AGENTS.md and APPS.md.
pub proof fn lemma_enriched_prompt_layout(
    ctx: AgentContext,
    user_input: Seq<char>,
    is_first_message: bool,
    force_context: bool,
)
    requires
        is_first_message || force_context,
    ensures
        enriched_prompt(ctx, user_input, is_first_message, force_context) == user_input + block_if(
            ctx.local_context_formatted is Some,
            "local_context"@,
            ctx.local_context_formatted->0@,
        ) + block_if(
            ctx.rulebooks is Some && ctx.rulebooks->0.len() > 0,
            "rulebooks"@,
            rulebooks_block(ctx.rulebooks->0@),
        ) + block_if(
            is_first_message && ctx.agents_md is Some,
            "agents_md"@,
            agents_md_text(ctx.agents_md->0),
        ) + block_if(
            is_first_message && ctx.apps_md is Some,
            "apps_md"@,
            apps_md_text(ctx.apps_md->0),
        ),
{
    let b1 = block_if(
        ctx.local_context_formatted is Some,
        "local_context"@,
        ctx.local_context_formatted->0@,
    );
    let b2 = block_if(
        ctx.rulebooks is Some && ctx.rulebooks->0.len() > 0,
        "rulebooks"@,
        rulebooks_block(ctx.rulebooks->0@),
    );
    let b3 = block_if(
        is_first_message && ctx.agents_md is Some,
        "agents_md"@,
        agents_md_text(ctx.agents_md->0),
    );
    let b4 = block_if(
        is_first_message && ctx.apps_md is Some,
        "apps_md"@,
        apps_md_text(ctx.apps_md->0),
    );
    lemma_block_step(user_input, ctx.local_context_formatted is Some, "local_context"@, ctx.local_context_formatted->0@);
    let l1 = with_local_context(ctx, user_input);
    assert(l1 == user_input + b1);
    lemma_block_step(l1, ctx.rulebooks is Some && ctx.rulebooks->0.len() > 0, "rulebooks"@, rulebooks_block(ctx.rulebooks->0@));
    let l2 = with_rulebooks(ctx, l1);
    assert(l2 == user_input + b1 + b2);
    if is_first_message {
        lemma_block_step(l2, ctx.agents_md is Some, "agents_md"@, agents_md_text(ctx.agents_md->0));
        let l3 = with_agents_md(ctx, l2);
        assert(l3 == user_input + b1 + b2 + b3);
        lemma_block_step(l3, ctx.apps_md is Some, "apps_md"@, apps_md_text(ctx.apps_md->0));
    } else {
        lemma_block_step(l2, false, "agents_md"@, Seq::<char>::empty());
        lemma_block_step(l2 + b3, false, "apps_md"@, Seq::<char>::empty());
    }
}

/// Appending a block that may be absent.
proof fn lemma_block_step(text: Seq<char>, present: bool, tag: Seq<char>, body: Seq<char>)
    ensures
        present ==> with_block(text, tag, body) == text + block_if(present, tag, body),
        !present ==> text == text + block_if(present, tag, body),
{
    if present {
        assert(with_block(text, tag, body) =~= text + tagged_block(tag, body));
    } else {
        assert(text =~= text + Seq::<char>::empty());
    }
}

/// The rule books block opens with its heading and holds every rule book's
/// entry.
pub proof fn lemma_rulebooks_block_lists_all(rulebooks: Seq<ListRuleBook>, i: int)
    requires
        0 <= i < rulebooks.len(),
    ensures
        ("# My Rule Books:\n\n"@).is_prefix_of(rulebooks_block(rulebooks)),
        contains_text(rulebooks_block(rulebooks), rulebook_entry(rulebook_text(rulebooks[i]))),
{
    let heading = "# My Rule Books:\n\n"@;
    let body = join(rulebook_entries(rulebooks), "\n"@);
    assert(rulebooks_block(rulebooks).take(heading.len() as int) =~= heading);
    crate::text::lemma_join_contains(rulebook_entries(rulebooks), "\n"@, i);
    let w = choose|w: int|
        0 <= w <= body.len() - rulebook_entries(rulebooks)[i].len() && #[trigger] body.subrange(
            w,
            w + rulebook_entries(rulebooks)[i].len(),
        ) == rulebook_entries(rulebooks)[i];
    let t = rulebook_entries(rulebooks)[i];
    let full = rulebooks_block(rulebooks);
    let at = heading.len() + w;
    assert(full.subrange(at, at + t.len()) =~= body.subrange(w, w + t.len()));
}

/// A rule book whose URI holds no line break or carriage return is listed
/// as an entry that opens with `  - `, `URI: ` and its URI.
pub proof fn lemma_rulebook_entry_opens_with_uri(rb: ListRuleBook)
    requires
        !has_char(rb.uri@, '\n'),
        !has_char(rb.uri@, '\r'),
    ensures
        ("  - "@ + ("URI: "@ + rb.uri@)).is_prefix_of(rulebook_entry(rulebook_text(rb))),
{
    reveal_strlit("URI: ");
    reveal_strlit("\nDescription: ");
    reveal_strlit("  - ");
    let text = rulebook_text(rb);
    let first = "URI: "@ + rb.uri@;
    let n = first.len() as int;
    assert(text.take(n) =~= first);
    assert(text[n] == "\nDescription: "@[0]);
    assert forall|k: int| 0 <= k < n implies text[k] != '\n' by {
        assert(text[k] == first[k]);
        if k >= 5 {
            assert(first[k] == rb.uri@[k - 5]);
        }
    }
    lemma_lines_first_line(text, n, seq![]);
    crate::text::lemma_lines_from_nonempty(text, seq![]);
    assert(Seq::<char>::empty() + text =~= text);
    assert(Seq::<char>::empty() + text.take(n) =~= first);
    assert(strip_cr(first) == first) by {
        if first.last() == '\r' {
            assert(rb.uri@[rb.uri@.len() - 1] == '\r');
        }
    }
    let entry = rulebook_entry(text);
    let head = "  - "@ + first;
    assert(entry.take(head.len() as int) =~= head);
}

/// The AGENTS.md and APPS.md blocks each name the file's path and end with
/// its content, unchanged.
pub proof fn lemma_project_doc_texts(agents: AgentsMdInfo, apps: AppsMdInfo)
    ensures
        contains_text(agents_md_text(agents), agents.path@),
        agents_md_text(agents).skip(agents_md_text(agents).len() - agents.content@.len())
            == agents.content@,
        contains_text(apps_md_text(apps), apps.path@),
        apps_md_text(apps).skip(apps_md_text(apps).len() - apps.content@.len()) == apps.content@,
{
    let a = agents_md_text(agents);
    let ah = "# AGENTS.md\n\nPath: "@ + agents.path@;
    assert(a =~= ah + ("\n\n"@ + agents.content@));
    lemma_contains_end("# AGENTS.md\n\nPath: "@, agents.path@);
    assert(a.take(ah.len() as int) =~= ah);
    lemma_contains_in_extension(ah, a, agents.path@);
    assert(a.skip(a.len() - agents.content@.len()) =~= agents.content@);
    let p = apps_md_text(apps);
    let ph = "# APPS.md\n\nPath: "@ + apps.path@;
    assert(p =~= ph + ("\n\n"@ + apps.content@));
    lemma_contains_end("# APPS.md\n\nPath: "@, apps.path@);
    assert(p.take(ph.len() as int) =~= ph);
    lemma_contains_in_extension(ph, p, apps.path@);
    assert(p.skip(p.len() - apps.content@.len()) =~= apps.content@);
}

} // verus!
