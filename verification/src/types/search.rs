//! Search results, and the weights of the fields that are searched.
//!
//! Scores and weights are whole numbers here. A score is the rank that the
//! store's search engine computes, in billionths and negated: the higher, the
//! better the match.

use crate::types::prompt::Prompt;
use vstd::prelude::*;

verus! {

/// A field of a prompt in which a search term can match.
#[derive(Debug, Clone, Copy, PartialEq, Eq, Structural)]
pub enum SearchField {
    Id,
    Title,
    Description,
    Category,
    Tag,
    Content,
}

/// What a match in a field is worth.
pub open spec fn field_score(field: SearchField) -> nat {
    match field {
        SearchField::Title => 10,
        SearchField::Id => 8,
        SearchField::Description => 5,
        SearchField::Category => 3,
        SearchField::Tag => 2,
        SearchField::Content => 1,
    }
}

impl SearchField {
    /// What a match in this field is worth: 10 in the title, 8 in the id,
    /// 5 in the description, 3 in the category, 2 in a tag, 1 in the
    /// content.
    pub fn base_score(&self) -> (score: u32)
        ensures
            score == field_score(*self),
    {
        match self {
            SearchField::Title => 10,
            SearchField::Id => 8,
            SearchField::Description => 5,
            SearchField::Category => 3,
            SearchField::Tag => 2,
            SearchField::Content => 1,
        }
    }

    /// What a match at the start of this field is worth on top: 5 in the
    /// title, nothing elsewhere.
    pub fn prefix_bonus(&self) -> (bonus: u32)
        ensures
            bonus == if *self == SearchField::Title {
                5nat
            } else {
                0nat
            },
    {
        match self {
            SearchField::Title => 5,
            _ => 0,
        }
    }
}

/// Where a search term matched.
#[derive(Debug)]
pub struct SearchMatch {
    pub field: SearchField,
    pub term: String,
}

/// A prompt that a search found, with its score.
#[derive(Debug)]
pub struct SearchResult {
    pub prompt: Prompt,
    pub score: i64,
    pub matches: Option<Vec<SearchMatch>>,
}

impl SearchResult {
    /// A result without a record of where the terms matched.
    pub fn new(prompt: Prompt, score: i64) -> (result: SearchResult)
        ensures
            result.prompt == prompt,
            result.score == score,
            result.matches is None,
    {
        SearchResult { prompt, score, matches: None }
    }

    /// The result with `matches` as the record of where the terms matched.
    pub fn with_matches(self, matches: Vec<SearchMatch>) -> (result: SearchResult)
        ensures
            result.prompt == self.prompt,
            result.score == self.score,
            result.matches == Some(matches),
    {
        SearchResult { prompt: self.prompt, score: self.score, matches: Some(matches) }
    }
}

/// The weights of the fields in the ranking.
#[derive(Debug, Clone, Copy, PartialEq, Eq, Structural)]
pub struct Bm25Weights {
    pub id: u32,
    pub title: u32,
    pub description: u32,
    pub tags: u32,
    pub content: u32,
}

impl Default for Bm25Weights {
    /// The weights that the store searches with: 5 for the id, 3 for the
    /// title, 2 for the description, 2 for the tags, 1 for the content.
    fn default() -> (weights: Self)
        ensures
            weights == (Bm25Weights { id: 5, title: 3, description: 2, tags: 2, content: 1 }),
    {
        Bm25Weights { id: 5, title: 3, description: 2, tags: 2, content: 1 }
    }
}

/// How to search.
#[derive(Debug, Clone, Copy, PartialEq, Eq, Structural)]
pub struct SearchOptions {
    pub limit: usize,
    pub weights: Bm25Weights,
    pub include_local: bool,
    pub include_personal: bool,
}

impl SearchOptions {
    /// A search for at most `limit` prompts, with the default weights, among
    /// the registry's prompts only.
    pub fn new(limit: usize) -> (options: SearchOptions)
        ensures
            options == (SearchOptions {
                limit,
                weights: Bm25Weights { id: 5, title: 3, description: 2, tags: 2, content: 1 },
                include_local: false,
                include_personal: false,
            }),
    {
        SearchOptions {
            limit,
            weights: Bm25Weights::default(),
            include_local: false,
            include_personal: false,
        }
    }
}

} // verus!
