//! A set of prompts with the record of where and when it was fetched.

use crate::tally::{count_views, is_tally, lemma_tally_distinct, rank, strictly_ranked, tally};
use crate::text::texts;
use crate::types::prompt::{in_category, prompt_views, tagged, Prompt, PromptView};
use vstd::prelude::*;

verus! {

/// The record kept beside a set of prompts.
#[derive(Debug)]
pub struct RegistryMeta {
    pub version: String,
    pub etag: Option<String>,
    pub fetched_at: String,
    pub prompt_count: usize,
}

impl RegistryMeta {
    /// The record of `prompt_count` prompts fetched at `fetched_at`: version
    /// 1.0.0 and no freshness token.
    pub fn new(prompt_count: usize, fetched_at: String) -> (meta: RegistryMeta)
        ensures
            meta.version@ == "1.0.0"@,
            meta.etag is None,
            meta.fetched_at == fetched_at,
            meta.prompt_count == prompt_count,
    {
        RegistryMeta { version: "1.0.0".to_string(), etag: None, fetched_at, prompt_count }
    }
}

/// Where a set of prompts came from.
#[derive(Debug, Clone, Copy, PartialEq, Eq, Structural)]
pub enum RegistrySource {
    Remote,
    Cache,
    Bundled,
    Local,
}

/// Prompts and their record.
#[derive(Debug)]
pub struct Registry {
    pub prompts: Vec<Prompt>,
    pub meta: RegistryMeta,
}

/// A set of prompts, where it came from, and whether it is past its time.
#[derive(Debug)]
pub struct RegistryLoadResult {
    pub registry: Registry,
    pub source: RegistrySource,
    pub stale: bool,
}

/// The views of a sequence of borrowed prompts.
pub open spec fn borrowed_views(v: Seq<&Prompt>) -> Seq<PromptView> {
    v.map_values(|p: &Prompt| p@)
}

/// The categories of those prompts that have one, in the prompts' order.
pub open spec fn category_names(prompts: Seq<PromptView>) -> Seq<Seq<char>>
    decreases prompts.len(),
{
    if prompts.len() == 0 {
        Seq::empty()
    } else {
        match prompts.last().category {
            Some(c) => category_names(prompts.drop_last()).push(c),
            None => category_names(prompts.drop_last()),
        }
    }
}

/// The tags of all prompts, in the prompts' order, those of one prompt in
/// their own order.
pub open spec fn tag_names(prompts: Seq<PromptView>) -> Seq<Seq<char>>
    decreases prompts.len(),
{
    if prompts.len() == 0 {
        Seq::empty()
    } else {
        tag_names(prompts.drop_last()) + prompts.last().tags
    }
}

impl Registry {
    /// The registry of `prompts`, recorded as fetched at `fetched_at`.
    pub fn new(prompts: Vec<Prompt>, fetched_at: String) -> (registry: Registry)
        ensures
            registry.prompts == prompts,
            registry.meta.version@ == "1.0.0"@,
            registry.meta.etag is None,
            registry.meta.fetched_at == fetched_at,
            registry.meta.prompt_count == prompts.len(),
    {
        let count = prompts.len();
        Registry { prompts, meta: RegistryMeta::new(count, fetched_at) }
    }

    /// The first prompt whose id is `id`, if there is one.
    pub fn get(&self, id: &str) -> (found: Option<&Prompt>)
        ensures
            found is None <==> (forall|i: int|
                0 <= i < self.prompts.len() ==> (#[trigger] self.prompts[i]).id@ != id@),
            found matches Some(p) ==> exists|i: int|
                0 <= i < self.prompts.len() && *p == #[trigger] self.prompts[i] && p.id@ == id@
                    && (forall|j: int| 0 <= j < i ==> (#[trigger] self.prompts[j]).id@ != id@),
    {
        let mut i: usize = 0;
        while i < self.prompts.len()
            invariant
                i <= self.prompts.len(),
                forall|j: int| 0 <= j < i ==> (#[trigger] self.prompts[j]).id@ != id@,
            decreases self.prompts.len() - i,
        {
            if *self.prompts[i].id.as_str() == *id {
                return Some(&self.prompts[i]);
            }
            i += 1;
        }
        None
    }

    /// Each category with the number of prompts in it, in ascending order of
    /// the categories. Prompts without a category are not counted.
    pub fn categories(&self) -> (out: Vec<(String, usize)>)
        ensures
            is_tally(count_views(out@), category_names(prompt_views(self.prompts@))),
    {
        let ghost views = prompt_views(self.prompts@);
        let mut names: Vec<String> = Vec::new();
        let mut i: usize = 0;
        while i < self.prompts.len()
            invariant
                i <= self.prompts.len(),
                views == prompt_views(self.prompts@),
                texts(names@) == category_names(views.take(i as int)),
            decreases self.prompts.len() - i,
        {
            assert(views.take(i + 1).drop_last() =~= views.take(i as int));
            assert(views.take(i + 1).last() == self.prompts[i as int]@);
            let ghost before = names@;
            match &self.prompts[i].category {
                Some(c) => {
                    names.push(c.clone());
                    assert(texts(names@) =~= texts(before).push(c@));
                },
                None => {},
            }
            i += 1;
        }
        assert(views.take(self.prompts.len() as int) =~= views);
        tally(&names)
    }

    /// Each tag with the number of its occurrences, the most used first, and
    /// tags of equal use in dictionary order, so that every entry ranks
    /// before every later one.
    pub fn tags(&self) -> (out: Vec<(String, usize)>)
        ensures
            exists|counts: Seq<(Seq<char>, nat)>|
                #![trigger counts.to_multiset()]
                is_tally(counts, tag_names(prompt_views(self.prompts@)))
                    && count_views(out@).to_multiset() == counts.to_multiset(),
            strictly_ranked(count_views(out@)),
    {
        let ghost views = prompt_views(self.prompts@);
        let mut names: Vec<String> = Vec::new();
        let mut i: usize = 0;
        while i < self.prompts.len()
            invariant
                i <= self.prompts.len(),
                views == prompt_views(self.prompts@),
                texts(names@) == tag_names(views.take(i as int)),
            decreases self.prompts.len() - i,
        {
            assert(views.take(i + 1).drop_last() =~= views.take(i as int));
            assert(views.take(i + 1).last() == self.prompts[i as int]@);
            let tags = &self.prompts[i].tags;
            let ghost start = texts(names@);
            let mut k: usize = 0;
            while k < tags.len()
                invariant
                    k <= tags.len(),
                    texts(names@) == start + texts(tags@).take(k as int),
                decreases tags.len() - k,
            {
                let ghost before = names@;
                names.push(tags[k].clone());
                assert(texts(names@) =~= texts(before).push(tags@[k as int]@));
                assert(texts(tags@).take(k + 1) =~= texts(tags@).take(k as int).push(
                    tags@[k as int]@,
                ));
                k += 1;
            }
            assert(texts(tags@).take(tags.len() as int) =~= texts(tags@));
            i += 1;
        }
        assert(views.take(self.prompts.len() as int) =~= views);
        let counts = tally(&names);
        let ghost counted = count_views(counts@);
        proof {
            lemma_tally_distinct(counted, tag_names(views));
        }
        let out = rank(counts);
        assert(is_tally(counted, tag_names(views)) && count_views(out@).to_multiset()
            == counted.to_multiset());
        out
    }

    /// The prompts of the category `category`, letter case of ASCII aside, in
    /// the registry's order.
    pub fn filter_by_category(&self, category: &str) -> (out: Vec<&Prompt>)
        ensures
            borrowed_views(out@) == prompt_views(self.prompts@).filter(
                |p: PromptView| in_category(p, category@),
            ),
    {
        let ghost views = prompt_views(self.prompts@);
        let ghost keep = |p: PromptView| in_category(p, category@);
        let mut out: Vec<&Prompt> = Vec::new();
        let mut i: usize = 0;
        assert(views.take(0).filter(keep) =~= Seq::empty()) by {
            reveal(Seq::filter);
        }
        while i < self.prompts.len()
            invariant
                i <= self.prompts.len(),
                views == prompt_views(self.prompts@),
                keep == |p: PromptView| in_category(p, category@),
                borrowed_views(out@) == views.take(i as int).filter(keep),
            decreases self.prompts.len() - i,
        {
            let p = &self.prompts[i];
            let ghost before = out@;
            assert(views.take(i + 1).drop_last() =~= views.take(i as int));
            assert(views.take(i + 1).last() == p@);
            proof {
                reveal(Seq::filter);
            }
            if p.matches_category(category) {
                out.push(p);
                assert(borrowed_views(out@) =~= borrowed_views(before).push(p@));
            }
            i += 1;
        }
        assert(views.take(self.prompts.len() as int) =~= views);
        out
    }

    /// The prompts that carry the tag `tag`, letter case of ASCII aside, in
    /// the registry's order.
    pub fn filter_by_tag(&self, tag: &str) -> (out: Vec<&Prompt>)
        ensures
            borrowed_views(out@) == prompt_views(self.prompts@).filter(
                |p: PromptView| tagged(p, tag@),
            ),
    {
        let ghost views = prompt_views(self.prompts@);
        let ghost keep = |p: PromptView| tagged(p, tag@);
        let mut out: Vec<&Prompt> = Vec::new();
        let mut i: usize = 0;
        assert(views.take(0).filter(keep) =~= Seq::empty()) by {
            reveal(Seq::filter);
        }
        while i < self.prompts.len()
            invariant
                i <= self.prompts.len(),
                views == prompt_views(self.prompts@),
                keep == |p: PromptView| tagged(p, tag@),
                borrowed_views(out@) == views.take(i as int).filter(keep),
            decreases self.prompts.len() - i,
        {
            let p = &self.prompts[i];
            let ghost before = out@;
            assert(views.take(i + 1).drop_last() =~= views.take(i as int));
            assert(views.take(i + 1).last() == p@);
            proof {
                reveal(Seq::filter);
            }
            if p.has_tag(tag) {
                out.push(p);
                assert(borrowed_views(out@) =~= borrowed_views(before).push(p@));
            }
            i += 1;
        }
        assert(views.take(self.prompts.len() as int) =~= views);
        out
    }

    /// The featured prompts, in the registry's order.
    pub fn featured(&self) -> (out: Vec<&Prompt>)
        ensures
            borrowed_views(out@) == prompt_views(self.prompts@).filter(
                |p: PromptView| p.featured,
            ),
    {
        let ghost views = prompt_views(self.prompts@);
        let ghost keep = |p: PromptView| p.featured;
        let mut out: Vec<&Prompt> = Vec::new();
        let mut i: usize = 0;
        assert(views.take(0).filter(keep) =~= Seq::empty()) by {
            reveal(Seq::filter);
        }
        while i < self.prompts.len()
            invariant
                i <= self.prompts.len(),
                views == prompt_views(self.prompts@),
                keep == |p: PromptView| p.featured,
                borrowed_views(out@) == views.take(i as int).filter(keep),
            decreases self.prompts.len() - i,
        {
            let p = &self.prompts[i];
            let ghost before = out@;
            assert(views.take(i + 1).drop_last() =~= views.take(i as int));
            assert(views.take(i + 1).last() == p@);
            proof {
                reveal(Seq::filter);
            }
            if p.featured {
                out.push(p);
                assert(borrowed_views(out@) =~= borrowed_views(before).push(p@));
            }
            i += 1;
        }
        assert(views.take(self.prompts.len() as int) =~= views);
        out
    }
}

} // verus!
