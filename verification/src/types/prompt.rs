//! Prompts: template documents with named placeholders.

use crate::text::{
    ascii_fold, clone_opt, clone_texts, join, joined, lines, opt_text, text_lines, texts,
};
use vstd::prelude::*;

verus! {

/// The closed set of kinds a template variable can have.
#[derive(Debug, Clone, Copy, PartialEq, Eq, Structural)]
pub enum VariableType {
    Text,
    Multiline,
    File,
    Path,
    Select,
}

impl Default for VariableType {
    fn default() -> (kind: Self)
        ensures
            kind == VariableType::Text,
    {
        VariableType::Text
    }
}

/// A named placeholder of a prompt.
#[derive(Debug)]
pub struct PromptVariable {
    pub name: String,
    pub var_type: VariableType,
    pub required: bool,
    pub description: Option<String>,
    pub default: Option<String>,
}

/// What a variable holds, as plain values.
pub struct VariableView {
    pub name: Seq<char>,
    pub var_type: VariableType,
    pub required: bool,
    pub description: Option<Seq<char>>,
    pub default: Option<Seq<char>>,
}

impl View for PromptVariable {
    type V = VariableView;

    open spec fn view(&self) -> VariableView {
        VariableView {
            name: self.name@,
            var_type: self.var_type,
            required: self.required,
            description: opt_text(self.description),
            default: opt_text(self.default),
        }
    }
}

impl Clone for PromptVariable {
    fn clone(&self) -> (copy: Self)
        ensures
            copy@ == self@,
    {
        PromptVariable {
            name: self.name.clone(),
            var_type: self.var_type,
            required: self.required,
            description: clone_opt(&self.description),
            default: clone_opt(&self.default),
        }
    }
}

/// The views of a sequence of variables.
pub open spec fn variable_views(v: Seq<PromptVariable>) -> Seq<VariableView> {
    v.map_values(|x: PromptVariable| x@)
}

/// A copy of a list of variables.
pub fn clone_variables(v: &Vec<PromptVariable>) -> (out: Vec<PromptVariable>)
    ensures
        variable_views(out@) == variable_views(v@),
{
    let mut out: Vec<PromptVariable> = Vec::new();
    let mut i: usize = 0;
    while i < v.len()
        invariant
            i <= v.len(),
            variable_views(out@) == variable_views(v@.take(i as int)),
        decreases v.len() - i,
    {
        let ghost before = out@;
        out.push(v[i].clone());
        assert(variable_views(out@) =~= variable_views(before).push(v@[i as int]@));
        assert(variable_views(v@.take(i + 1)) =~= variable_views(v@.take(i as int)).push(
            v@[i as int]@,
        ));
        i += 1;
    }
    assert(v@.take(v.len() as int) =~= v@);
    out
}

/// A template document. `id` is its key in every store.
#[derive(Debug)]
pub struct Prompt {
    pub id: String,
    pub title: String,
    pub content: String,
    pub description: Option<String>,
    pub category: Option<String>,
    pub tags: Vec<String>,
    pub variables: Vec<PromptVariable>,
    pub featured: bool,
    pub version: Option<String>,
    pub author: Option<String>,
    pub saved_at: Option<String>,
    pub is_local: bool,
}

/// What a prompt holds, as plain values.
pub struct PromptView {
    pub id: Seq<char>,
    pub title: Seq<char>,
    pub content: Seq<char>,
    pub description: Option<Seq<char>>,
    pub category: Option<Seq<char>>,
    pub tags: Seq<Seq<char>>,
    pub variables: Seq<VariableView>,
    pub featured: bool,
    pub version: Option<Seq<char>>,
    pub author: Option<Seq<char>>,
    pub saved_at: Option<Seq<char>>,
    pub is_local: bool,
}

impl View for Prompt {
    type V = PromptView;

    open spec fn view(&self) -> PromptView {
        PromptView {
            id: self.id@,
            title: self.title@,
            content: self.content@,
            description: opt_text(self.description),
            category: opt_text(self.category),
            tags: texts(self.tags@),
            variables: variable_views(self.variables@),
            featured: self.featured,
            version: opt_text(self.version),
            author: opt_text(self.author),
            saved_at: opt_text(self.saved_at),
            is_local: self.is_local,
        }
    }
}

impl Clone for Prompt {
    fn clone(&self) -> (copy: Self)
        ensures
            copy@ == self@,
    {
        Prompt {
            id: self.id.clone(),
            title: self.title.clone(),
            content: self.content.clone(),
            description: clone_opt(&self.description),
            category: clone_opt(&self.category),
            tags: clone_texts(&self.tags),
            variables: clone_variables(&self.variables),
            featured: self.featured,
            version: clone_opt(&self.version),
            author: clone_opt(&self.author),
            saved_at: clone_opt(&self.saved_at),
            is_local: self.is_local,
        }
    }
}

/// The views of a sequence of prompts.
pub open spec fn prompt_views(v: Seq<Prompt>) -> Seq<PromptView> {
    v.map_values(|p: Prompt| p@)
}

/// Whether the prompt's category is `category`, letter case of ASCII aside.
pub open spec fn in_category(p: PromptView, category: Seq<char>) -> bool {
    p.category matches Some(c) && ascii_fold(c) == ascii_fold(category)
}

/// Whether one of the prompt's tags is `tag`, letter case of ASCII aside.
pub open spec fn tagged(p: PromptView, tag: Seq<char>) -> bool {
    exists|i: int| 0 <= i < p.tags.len() && ascii_fold(#[trigger] p.tags[i]) == ascii_fold(tag)
}

/// Whether no text stands twice in `items`.
pub open spec fn all_distinct(items: Seq<Seq<char>>) -> bool {
    forall|i: int, j: int| 0 <= i < j < items.len() ==> items[i] != items[j]
}

/// Whether a prompt is fit for the store: it has an id, a title and a
/// content, and no tag twice.
pub open spec fn well_formed(p: PromptView) -> bool {
    &&& p.id.len() > 0
    &&& p.title.len() > 0
    &&& p.content.len() > 0
    &&& all_distinct(p.tags)
}

/// The first `count` lines of `content`, or all of them where there are no
/// more.
pub open spec fn first_lines(content: Seq<char>, count: int) -> Seq<Seq<char>> {
    let all = text_lines(content);
    if count < all.len() {
        all.take(count)
    } else {
        all
    }
}

impl Prompt {
    /// A prompt with the three required fields; every other field is empty,
    /// absent or false.
    pub fn new(id: &str, title: &str, content: &str) -> (p: Prompt)
        ensures
            p@ == (PromptView {
                id: id@,
                title: title@,
                content: content@,
                description: None,
                category: None,
                tags: Seq::empty(),
                variables: Seq::empty(),
                featured: false,
                version: None,
                author: None,
                saved_at: None,
                is_local: false,
            }),
    {
        let p = Prompt {
            id: id.to_string(),
            title: title.to_string(),
            content: content.to_string(),
            description: None,
            category: None,
            tags: Vec::new(),
            variables: Vec::new(),
            featured: false,
            version: None,
            author: None,
            saved_at: None,
            is_local: false,
        };
        assert(p@.tags =~= Seq::empty());
        assert(p@.variables =~= Seq::empty());
        p
    }

    /// Whether the prompt is fit for the store: it has an id, a title and a
    /// content, and no tag twice.
    pub fn is_well_formed(&self) -> (fit: bool)
        ensures
            fit == well_formed(self@),
    {
        if self.id.as_str().unicode_len() == 0 || self.title.as_str().unicode_len() == 0
            || self.content.as_str().unicode_len() == 0 {
            return false;
        }
        let ghost tags = texts(self.tags@);
        let mut j: usize = 0;
        while j < self.tags.len()
            invariant
                j <= self.tags.len(),
                tags == texts(self.tags@),
                forall|a: int, b: int| 0 <= a < b < j ==> tags[a] != tags[b],
            decreases self.tags.len() - j,
        {
            let mut i: usize = 0;
            while i < j
                invariant
                    i <= j < self.tags.len(),
                    tags == texts(self.tags@),
                    forall|a: int| 0 <= a < i ==> tags[a] != tags[j as int],
                decreases j - i,
            {
                assert(tags[i as int] == self.tags@[i as int]@ && tags[j as int]
                    == self.tags@[j as int]@);
                if self.tags[i] == self.tags[j] {
                    return false;
                }
                i += 1;
            }
            j += 1;
        }
        true
    }

    /// The first `lines` lines of the content, with a line feed between each
    /// two; the whole content, line by line, where it has no more lines.
    pub fn preview(&self, lines: usize) -> (out: String)
        ensures
            out@ == joined(first_lines(self@.content, lines as int), "\n"@),
    {
        let all = crate::text::lines(self.content.as_str());
        let mut kept: Vec<String> = Vec::new();
        let mut i: usize = 0;
        while i < all.len() && i < lines
            invariant
                i <= all.len(),
                i <= lines,
                texts(kept@) == texts(all@).take(i as int),
            decreases all.len() - i,
        {
            let ghost before = kept@;
            kept.push(all[i].clone());
            assert(texts(kept@) =~= texts(before).push(all@[i as int]@));
            assert(texts(all@).take(i + 1) =~= texts(all@).take(i as int).push(all@[i as int]@));
            i += 1;
        }
        proof {
            if i == all.len() {
                assert(texts(all@).take(i as int) =~= texts(all@));
            }
            assert(texts(kept@) == first_lines(self@.content, lines as int));
        }
        join(&kept, "\n")
    }

    /// Whether the prompt's category is `category`, letter case of ASCII aside.
    /// A prompt without a category matches none.
    pub fn matches_category(&self, category: &str) -> (hit: bool)
        ensures
            hit == in_category(self@, category@),
    {
        match &self.category {
            Some(c) => c.as_str().eq_ignore_ascii_case(category),
            None => false,
        }
    }

    /// Whether one of the prompt's tags is `tag`, letter case of ASCII aside.
    pub fn has_tag(&self, tag: &str) -> (hit: bool)
        ensures
            hit == tagged(self@, tag@),
    {
        let mut i: usize = 0;
        while i < self.tags.len()
            invariant
                i <= self.tags.len(),
                forall|j: int| 0 <= j < i ==> ascii_fold(#[trigger] self@.tags[j]) != ascii_fold(tag@),
            decreases self.tags.len() - i,
        {
            if self.tags[i].as_str().eq_ignore_ascii_case(tag) {
                assert(ascii_fold(self@.tags[i as int]) == ascii_fold(tag@));
                return true;
            }
            i += 1;
        }
        false
    }
}

/// The fields of a prompt that a listing shows.
#[derive(Debug)]
pub struct PromptSummary {
    pub id: String,
    pub title: String,
    pub description: Option<String>,
    pub category: Option<String>,
    pub tags: Vec<String>,
    pub featured: bool,
}

impl PromptSummary {
    /// The summary of `p`: its id, title, description, category, tags and
    /// featured flag, unchanged.
    pub fn from_prompt(p: &Prompt) -> (s: PromptSummary)
        ensures
            s.id@ == p@.id,
            s.title@ == p@.title,
            opt_text(s.description) == p@.description,
            opt_text(s.category) == p@.category,
            texts(s.tags@) == p@.tags,
            s.featured == p@.featured,
    {
        PromptSummary {
            id: p.id.clone(),
            title: p.title.clone(),
            description: clone_opt(&p.description),
            category: clone_opt(&p.category),
            tags: clone_texts(&p.tags),
            featured: p.featured,
        }
    }
}

} // verus!
