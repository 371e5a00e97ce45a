//! Bundles: named groups of prompts.

use crate::text::{clone_opt, opt_text};
use vstd::prelude::*;

verus! {

/// A group of related prompts.
#[derive(Debug)]
pub struct Bundle {
    pub id: String,
    pub title: String,
    pub description: Option<String>,
    pub version: Option<String>,
    pub prompt_count: usize,
    pub featured: bool,
    pub author: Option<String>,
    /// The ids of the prompts in the bundle.
    pub prompts: Vec<String>,
}

impl Bundle {
    /// A bundle with an id and a title, and nothing else: no prompts, no
    /// description, version or author, not featured.
    pub fn new(id: &str, title: &str) -> (b: Bundle)
        ensures
            b.id@ == id@,
            b.title@ == title@,
            b.description is None,
            b.version is None,
            b.prompt_count == 0,
            !b.featured,
            b.author is None,
            b.prompts@.len() == 0,
    {
        Bundle {
            id: id.to_string(),
            title: title.to_string(),
            description: None,
            version: None,
            prompt_count: 0,
            featured: false,
            author: None,
            prompts: Vec::new(),
        }
    }
}

/// What a listing shows of a bundle.
#[derive(Debug)]
pub struct BundleSummary {
    pub id: String,
    pub title: String,
    pub description: Option<String>,
    pub version: Option<String>,
    pub prompt_count: usize,
    pub featured: bool,
    pub author: Option<String>,
}

impl BundleSummary {
    /// The summary of `b`: every field of the bundle but its prompts,
    /// unchanged.
    pub fn from_bundle(b: &Bundle) -> (s: BundleSummary)
        ensures
            s.id@ == b.id@,
            s.title@ == b.title@,
            opt_text(s.description) == opt_text(b.description),
            opt_text(s.version) == opt_text(b.version),
            s.prompt_count == b.prompt_count,
            s.featured == b.featured,
            opt_text(s.author) == opt_text(b.author),
    {
        BundleSummary {
            id: b.id.clone(),
            title: b.title.clone(),
            description: clone_opt(&b.description),
            version: clone_opt(&b.version),
            prompt_count: b.prompt_count,
            featured: b.featured,
            author: clone_opt(&b.author),
        }
    }
}

} // verus!
