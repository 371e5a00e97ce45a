//! A prompt as a document: as plain markdown, or in the layout of a skill.

use crate::text::{join, joined};
use crate::types::prompt::{variable_views, Prompt, PromptVariable, PromptView, VariableView};
use vstd::prelude::*;
use vstd::string::StringExecFns;

verus! {

/// The name of the format that lays a prompt out as a skill. Every other name
/// stands for plain markdown.
pub const SKILL_FORMAT: &'static str = "skill";

/// `before`, the text, and `after`, where there is a text; else nothing.
pub open spec fn wrapped(before: Seq<char>, text: Option<Seq<char>>, after: Seq<char>) -> Seq<char> {
    match text {
        Some(t) => before + t + after,
        None => Seq::empty(),
    }
}

/// The tags with a comma and a space between each two, between `before` and
/// `after`; nothing where there are no tags.
pub open spec fn tags_part(before: Seq<char>, tags: Seq<Seq<char>>, after: Seq<char>) -> Seq<char> {
    if tags.len() == 0 {
        Seq::empty()
    } else {
        before + joined(tags, ", "@) + after
    }
}

/// The line of a variable in a skill: its name between double braces, then
/// its description and its default, where it has them.
pub open spec fn variable_line(v: VariableView) -> Seq<char> {
    "- `{{"@ + v.name + "}}`"@ + wrapped(": "@, v.description, Seq::empty()) + wrapped(
        " (default: "@,
        v.default,
        ")"@,
    ) + "\n"@
}

/// The lines of the variables, in their order.
pub open spec fn variable_lines(variables: Seq<VariableView>) -> Seq<char>
    decreases variables.len(),
{
    if variables.len() == 0 {
        Seq::empty()
    } else {
        variable_lines(variables.drop_last()) + variable_line(variables.last())
    }
}

/// The section of a skill on its variables; nothing where there are none.
pub open spec fn variables_part(variables: Seq<VariableView>) -> Seq<char> {
    if variables.len() == 0 {
        Seq::empty()
    } else {
        "## Variables\n\n"@ + variable_lines(variables) + "\n"@
    }
}

/// A prompt as plain markdown: the title as heading; the description, the
/// category and the tags, where it has them; a rule; the content.
pub open spec fn markdown_text(p: PromptView) -> Seq<char> {
    "# "@ + p.title + "\n\n"@ + wrapped(Seq::empty(), p.description, "\n\n"@) + wrapped(
        "**Category**: "@,
        p.category,
        "\n\n"@,
    ) + tags_part("**Tags**: "@, p.tags, "\n\n"@) + "---\n\n"@ + p.content + "\n"@
}

/// A prompt as a skill: the title as heading; the description as a quote,
/// where it has one; its id, category and tags as a list; its variables,
/// where it has them; the content in a fence.
pub open spec fn skill_text(p: PromptView) -> Seq<char> {
    "# "@ + p.title + "\n\n"@ + wrapped("> "@, p.description, "\n\n"@) + "## Metadata\n\n"@
        + "- **ID**: "@ + p.id + "\n"@ + wrapped("- **Category**: "@, p.category, "\n"@)
        + tags_part("- **Tags**: "@, p.tags, "\n"@) + "\n"@ + variables_part(p.variables)
        + "## Prompt\n\n"@ + "```\n"@ + p.content + "\n```\n"@
}

/// A prompt in the format of the name `format`.
pub open spec fn formatted(p: PromptView, format: Seq<char>) -> Seq<char> {
    if format == SKILL_FORMAT@ {
        skill_text(p)
    } else {
        markdown_text(p)
    }
}

fn wrap(before: &str, text: &Option<String>, after: &str) -> (out: String)
    ensures
        out@ == wrapped(before@, crate::text::opt_text(*text), after@),
{
    match text {
        Some(t) => {
            let mut out = before.to_string();
            out.append(t.as_str());
            out.append(after);
            out
        },
        None => String::new(),
    }
}

fn tags_between(before: &str, tags: &Vec<String>, after: &str) -> (out: String)
    ensures
        out@ == tags_part(before@, crate::text::texts(tags@), after@),
{
    if tags.len() == 0 {
        String::new()
    } else {
        let mut out = before.to_string();
        let all = join(tags, ", ");
        out.append(all.as_str());
        out.append(after);
        out
    }
}

fn line_of(v: &PromptVariable) -> (out: String)
    ensures
        out@ == variable_line(v@),
{
    let mut out = "- `{{".to_string();
    out.append(v.name.as_str());
    out.append("}}`");
    let description = wrap(": ", &v.description, "");
    proof {
        reveal_strlit("");
        assert(""@ =~= Seq::<char>::empty());
        if v.description is Some {
            assert(": "@ + v.description.unwrap()@ + ""@ =~= ": "@ + v.description.unwrap()@
                + Seq::<char>::empty());
        }
    }
    out.append(description.as_str());
    let default = wrap(" (default: ", &v.default, ")");
    out.append(default.as_str());
    out.append("\n");
    out
}

fn variables_section(variables: &Vec<PromptVariable>) -> (out: String)
    ensures
        out@ == variables_part(variable_views(variables@)),
{
    if variables.len() == 0 {
        return String::new();
    }
    let ghost views = variable_views(variables@);
    let mut out = "## Variables\n\n".to_string();
    let mut i: usize = 0;
    assert(views.take(0) =~= Seq::empty());
    assert(out@ =~= "## Variables\n\n"@ + variable_lines(views.take(0)));
    while i < variables.len()
        invariant
            i <= variables.len(),
            views == variable_views(variables@),
            out@ == "## Variables\n\n"@ + variable_lines(views.take(i as int)),
        decreases variables.len() - i,
    {
        let ghost next = views.take(i + 1);
        assert(next.drop_last() =~= views.take(i as int));
        assert(next.last() == variables@[i as int]@);
        let line = line_of(&variables[i]);
        out.append(line.as_str());
        assert(out@ =~= "## Variables\n\n"@ + variable_lines(next));
        i += 1;
    }
    assert(views.take(variables.len() as int) =~= views);
    out.append("\n");
    out
}

/// `prompt` as a document in the format `format`: as a skill for the name
/// `skill`, as plain markdown for every other name.
pub fn format_prompt(prompt: &Prompt, format: &str) -> (out: String)
    ensures
        out@ == formatted(prompt@, format@),
{
    let mut out = "# ".to_string();
    out.append(prompt.title.as_str());
    out.append("\n\n");
    if *format == *SKILL_FORMAT {
        let description = wrap("> ", &prompt.description, "\n\n");
        out.append(description.as_str());
        out.append("## Metadata\n\n");
        out.append("- **ID**: ");
        out.append(prompt.id.as_str());
        out.append("\n");
        let category = wrap("- **Category**: ", &prompt.category, "\n");
        out.append(category.as_str());
        let tags = tags_between("- **Tags**: ", &prompt.tags, "\n");
        out.append(tags.as_str());
        out.append("\n");
        let variables = variables_section(&prompt.variables);
        out.append(variables.as_str());
        out.append("## Prompt\n\n");
        out.append("```\n");
        out.append(prompt.content.as_str());
        out.append("\n```\n");
        out
    } else {
        let description = wrap("", &prompt.description, "\n\n");
        proof {
            reveal_strlit("");
            assert(""@ =~= Seq::<char>::empty());
        }
        out.append(description.as_str());
        let category = wrap("**Category**: ", &prompt.category, "\n\n");
        out.append(category.as_str());
        let tags = tags_between("**Tags**: ", &prompt.tags, "\n\n");
        out.append(tags.as_str());
        out.append("---\n\n");
        out.append(prompt.content.as_str());
        out.append("\n");
        out
    }
}

/// Why an export is not made.
#[derive(Debug, Clone, Copy, PartialEq, Eq, Structural)]
pub enum ExportRefusal {
    /// The format is neither `md` nor `skill`.
    InvalidFormat,
}

/// Whether `format` names a format of export: `md` or `skill`.
pub fn check_format(format: &str) -> (out: Result<(), ExportRefusal>)
    ensures
        out is Ok <==> (format@ == "md"@ || format@ == SKILL_FORMAT@),
{
    if *format == *"md" || *format == *SKILL_FORMAT {
        Ok(())
    } else {
        Err(ExportRefusal::InvalidFormat)
    }
}

/// Whether an export of the prompts named by `ids` is one of all prompts: it
/// is where no id is given, and where the one word `all` is.
pub fn exports_all(ids: &Vec<String>) -> (all: bool)
    ensures
        all == (ids@.len() == 0 || (ids@.len() == 1 && ids@[0]@ == "all"@)),
{
    ids.len() == 0 || (ids.len() == 1 && *ids[0].as_str() == *"all")
}

} // verus!
