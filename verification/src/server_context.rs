//! Server-side session context built from remote skill descriptors.
use crate::rulebook::{tags_text, ListRuleBook};
use crate::text::{
    contains_text, join, join_strings, lemma_contains_end, lemma_contains_in_extension, views,
};
use vstd::prelude::*;

verus! {

/// How strongly a context file is kept when the context budget is tight.
#[derive(Debug, Clone, Copy, PartialEq, Eq)]
pub enum ContextPriority {
    Critical,
    High,
    Normal,
    Low,
}

/// A typed context file for server sessions.
#[derive(Debug, Clone)]
pub struct ContextFile {
    pub name: String,
    pub path: String,
    pub content: String,
    pub priority: ContextPriority,
}

impl ContextFile {
    /// A context file from its parts.
    pub fn new(name: String, path: String, content: String, priority: ContextPriority) -> (res:
        Self)
        ensures
            res == (ContextFile { name, path, content, priority }),
    {
        ContextFile { name, path, content, priority }
    }
}

/// The content of the context file for a remote skill.
pub open spec fn remote_skill_content(rb: ListRuleBook) -> Seq<char> {
    "<remote_skill>\nURI: "@ + rb.uri@ + "\nDescription: "@ + rb.description@ + "\nTags: "@
        + tags_text(rb) + "\n</remote_skill>"@
}

/// Whether `file` is the context file for the remote skill `rb`.
pub open spec fn is_remote_skill_file(file: ContextFile, rb: ListRuleBook) -> bool {
    &&& file.name@ == "remote_skill:"@ + rb.uri@
    &&& file.path@ == "stakpak://"@ + rb.uri@
    &&& file.content@ == remote_skill_content(rb)
    &&& file.priority == ContextPriority::High
}

/// The context file for one remote skill.
fn remote_skill_file(entry: &ListRuleBook) -> (res: ContextFile)
    ensures
        is_remote_skill_file(res, *entry),
{
    let tags = join_strings(&entry.tags, ", ");
    ContextFile::new(
        "remote_skill:".to_string().concat(entry.uri.as_str()),
        "stakpak://".to_string().concat(entry.uri.as_str()),
        "<remote_skill>\nURI: ".to_string().concat(entry.uri.as_str()).concat(
            "\nDescription: ",
        ).concat(entry.description.as_str()).concat("\nTags: ").concat(tags.as_str()).concat(
            "\n</remote_skill>",
        ),
        ContextPriority::High,
    )
}

/// Converts remote skill descriptors into context files, one per descriptor,
/// in the same order, each with high priority.
pub fn map_remote_skills_to_context_files(entries: &[ListRuleBook]) -> (res: Vec<ContextFile>)
    ensures
        res.len() == entries.len(),
        forall|i: int| 0 <= i < entries.len() ==> is_remote_skill_file(#[trigger] res[i], entries[i]),
        forall|i: int| 0 <= i < entries.len() ==> (#[trigger] res[i]).priority == ContextPriority::High,
{
    let mut res: Vec<ContextFile> = Vec::new();
    let mut i: usize = 0;
    while i < entries.len()
        invariant
            i <= entries.len(),
            res.len() == i,
            forall|k: int| 0 <= k < i ==> is_remote_skill_file(#[trigger] res[k], entries[k]),
        decreases entries.len() - i,
    {
        res.push(remote_skill_file(&entries[i]));
        i = i + 1;
    }
    res
}

/// Every context file made for a remote skill has high priority, whatever
/// the skill's visibility; it is named after the skill's URI, points at
/// `stakpak://` followed by that URI, and its content opens with the
/// `<remote_skill>` tag, holds the skill's description, and ends with its
/// tags separated by `, ` and the closing tag.
pub proof fn lemma_remote_skill_file_facts(file: ContextFile, rb: ListRuleBook)
    requires
        is_remote_skill_file(file, rb),
    ensures
        file.priority == ContextPriority::High,
        file.name@ == "remote_skill:"@ + rb.uri@,
        file.path@ == "stakpak://"@ + rb.uri@,
        ("<remote_skill>\nURI: "@).is_prefix_of(file.content@),
        contains_text(file.content@, "\nDescription: "@ + rb.description@),
        file.content@.skip(
            file.content@.len() - ("\nTags: "@ + join(views(rb.tags@), ", "@) + "\n</remote_skill>"@).len(),
        ) == "\nTags: "@ + join(views(rb.tags@), ", "@) + "\n</remote_skill>"@,
{
    let c = file.content@;
    let opening = "<remote_skill>\nURI: "@;
    let head = opening + rb.uri@;
    let desc = "\nDescription: "@ + rb.description@;
    let rest = "\nTags: "@ + tags_text(rb) + "\n</remote_skill>"@;
    assert(c =~= (head + desc) + rest);
    assert(c.take(opening.len() as int) =~= opening);
    lemma_contains_end(head, desc);
    assert(c.take((head + desc).len() as int) =~= head + desc);
    lemma_contains_in_extension(head + desc, c, desc);
    assert(c.skip(c.len() - rest.len()) =~= rest);
}

} // verus!
