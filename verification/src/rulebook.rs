//! Rule book descriptors as the API lists them, and their text form.
use crate::text::{contains_text, join, join_strings, lemma_contains_end, lemma_contains_in_extension, views};
use vstd::prelude::*;

verus! {

/// Who can see a rule book.
#[derive(Debug, Clone, Copy, PartialEq, Eq)]
pub enum RuleBookVisibility {
    Public,
    Private,
}

/// A rule book (remote skill) descriptor.
#[derive(Debug, Clone)]
pub struct ListRuleBook {
    pub id: String,
    pub uri: String,
    pub description: String,
    pub visibility: RuleBookVisibility,
    pub tags: Vec<String>,
    pub created_at: Option<String>,
    pub updated_at: Option<String>,
}

/// The tags of a rule book, separated by `", "`.
pub open spec fn tags_text(rb: ListRuleBook) -> Seq<char> {
    join(views(rb.tags@), ", "@)
}

/// The text form of a rule book: its URI, description and tags, one per
/// line. This layout is this library's own definition of the text form.
pub open spec fn rulebook_text(rb: ListRuleBook) -> Seq<char> {
    "URI: "@ + rb.uri@ + "\nDescription: "@ + rb.description@ + "\nTags: "@ + tags_text(rb)
        + "\n"@
}

impl ListRuleBook {
    /// The text form of this rule book.
    pub fn to_text(&self) -> (res: String)
        ensures
            res@ == rulebook_text(*self),
    {
        let tags = join_strings(&self.tags, ", ");
        "URI: ".to_string().concat(self.uri.as_str()).concat("\nDescription: ").concat(
            self.description.as_str(),
        ).concat("\nTags: ").concat(tags.as_str()).concat("\n")
    }
}

/// A rule book's text names its URI first, holds its description, and ends
/// with its tags separated by `, ` and a line break.
pub proof fn lemma_rulebook_text_parts(rb: ListRuleBook)
    ensures
        ("URI: "@ + rb.uri@).is_prefix_of(rulebook_text(rb)),
        contains_text(rulebook_text(rb), "\nDescription: "@ + rb.description@),
        rulebook_text(rb).skip(
            rulebook_text(rb).len() - ("\nTags: "@ + join(views(rb.tags@), ", "@) + "\n"@).len(),
        ) == "\nTags: "@ + join(views(rb.tags@), ", "@) + "\n"@,
{
    let t = rulebook_text(rb);
    let head = "URI: "@ + rb.uri@;
    let desc = "\nDescription: "@ + rb.description@;
    let rest = "\nTags: "@ + join(views(rb.tags@), ", "@) + "\n"@;
    assert(t =~= (head + desc) + rest);
    assert(t.take(head.len() as int) =~= head);
    lemma_contains_end(head, desc);
    assert(t.take((head + desc).len() as int) =~= head + desc);
    lemma_contains_in_extension(head + desc, t, desc);
    assert(t.skip(t.len() - rest.len()) =~= rest);
}

} // verus!
