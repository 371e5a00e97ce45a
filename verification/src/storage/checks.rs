//! What the store checks of the rows that SQLite brought back, before it
//! hands them on: that they pass the filter they were asked under, and that
//! they stand in the order they were asked in.

use crate::storage::plan::{conditions, Condition, Filter, FilterView};
use crate::tally::{
    count_views, goes_before, lemma_ranks_transitive, ranks_before, strictly_ranked,
};
use crate::text::{lemma_less_total, lemma_less_transitive, less, text_less};
use crate::types::prompt::{Prompt, PromptView};
use vstd::prelude::*;

verus! {

/// Whether a prompt passes a filter: it is of the category, where one is
/// given; it carries the tag, where one is given; and it is featured, where
/// only featured prompts are asked for. Texts are compared as they stand.
pub open spec fn passes(p: PromptView, f: FilterView) -> bool {
    &&& f.category matches Some(c) ==> p.category == Some(c)
    &&& f.tag matches Some(t) ==> p.tags.contains(t)
    &&& f.featured_only ==> p.featured
}

/// Whether a condition of a listing holds of a prompt.
pub open spec fn holds(c: Condition, p: PromptView) -> bool {
    match c {
        Condition::CategoryIs(x) => p.category == Some(x),
        Condition::HasTag(x) => p.tags.contains(x),
        Condition::IsFeatured => p.featured,
    }
}

/// The parts of a filter are joined by "and". A prompt passes a filter
/// exactly when every condition that the listing is asked under holds of it:
/// so a prompt that is listed under a category and a tag is of the category
/// and carries the tag, and a prompt that fails either is not listed.
pub proof fn lemma_filter_means_every_condition(f: FilterView, p: PromptView)
    ensures
        passes(p, f) <==> (forall|i: int|
            0 <= i < conditions(f).len() ==> holds(#[trigger] conditions(f)[i], p)),
{
    let conds = conditions(f);
    let by_category: Seq<Condition> = match f.category {
        Some(c) => seq![Condition::CategoryIs(c)],
        None => Seq::empty(),
    };
    let by_tag: Seq<Condition> = match f.tag {
        Some(t) => seq![Condition::HasTag(t)],
        None => Seq::empty(),
    };
    let by_flag: Seq<Condition> = if f.featured_only {
        seq![Condition::IsFeatured]
    } else {
        Seq::empty()
    };
    assert(conds == by_category + by_tag + by_flag);
    if passes(p, f) {
        assert forall|i: int| 0 <= i < conds.len() implies holds(#[trigger] conds[i], p) by {
            if i < by_category.len() {
                assert(conds[i] == by_category[i]);
            } else if i < by_category.len() + by_tag.len() {
                assert(conds[i] == by_tag[i - by_category.len()]);
            } else {
                assert(conds[i] == by_flag[i - by_category.len() - by_tag.len()]);
            }
        }
    }
    if forall|i: int| 0 <= i < conds.len() ==> holds(#[trigger] conds[i], p) {
        if f.category is Some {
            assert(conds[0] == by_category[0]);
            assert(holds(conds[0], p));
        }
        if f.tag is Some {
            let at = by_category.len() as int;
            assert(conds[at] == by_tag[0]);
            assert(holds(conds[at], p));
        }
        if f.featured_only {
            let at = (by_category.len() + by_tag.len()) as int;
            assert(conds[at] == by_flag[0]);
            assert(holds(conds[at], p));
        }
    }
}

/// Whether `tags` holds the text `tag`.
pub fn has_text(tags: &Vec<String>, tag: &str) -> (found: bool)
    ensures
        found == crate::text::texts(tags@).contains(tag@),
{
    let ghost all = crate::text::texts(tags@);
    let mut i: usize = 0;
    while i < tags.len()
        invariant
            i <= tags.len(),
            all == crate::text::texts(tags@),
            forall|k: int| 0 <= k < i ==> all[k] != tag@,
        decreases tags.len() - i,
    {
        if *tags[i].as_str() == *tag {
            assert(all[i as int] == tag@);
            return true;
        }
        i += 1;
    }
    false
}

/// Whether `p` passes `f`.
pub fn passes_filter(p: &Prompt, f: &Filter) -> (pass: bool)
    ensures
        pass == passes(p@, f@),
{
    let category_ok = match &f.category {
        Some(c) => match &p.category {
            Some(x) => *x == *c,
            None => false,
        },
        None => true,
    };
    let tag_ok = match &f.tag {
        Some(t) => has_text(&p.tags, t.as_str()),
        None => true,
    };
    category_ok && tag_ok && (!f.featured_only || p.featured)
}

/// Whether the prompts stand by title, ascending: none has a title that
/// comes before the title of an earlier one.
pub open spec fn by_title(v: Seq<Prompt>) -> bool {
    forall|i: int, j: int|
        0 <= i < j < v.len() ==> !text_less((#[trigger] v[j]).title@, (#[trigger] v[i]).title@)
}

/// Where `b` does not come before `a`, nor `c` before `b`, `c` does not come
/// before `a`.
pub proof fn lemma_not_less_transitive(a: Seq<char>, b: Seq<char>, c: Seq<char>)
    requires
        !text_less(b, a),
        !text_less(c, b),
    ensures
        !text_less(c, a),
{
    if text_less(c, a) {
        lemma_less_total(a, b);
        if a != b {
            lemma_less_transitive(c, a, b);
        }
    }
}

/// Whether `v` stands by title, ascending.
pub fn in_title_order(v: &Vec<Prompt>) -> (ordered: bool)
    ensures
        ordered == by_title(v@),
{
    if v.len() < 2 {
        return true;
    }
    let mut i: usize = 1;
    while i < v.len()
        invariant
            1 <= i <= v.len(),
            forall|x: int, y: int|
                0 <= x < y < i ==> !text_less((#[trigger] v@[y]).title@, (#[trigger] v@[x]).title@),
        decreases v.len() - i,
    {
        if less(v[i].title.as_str(), v[i - 1].title.as_str()) {
            assert(text_less(v@[i as int].title@, v@[i - 1].title@));
            return false;
        }
        proof {
            assert forall|x: int, y: int| 0 <= x < y < i + 1 implies !text_less(
                (#[trigger] v@[y]).title@,
                (#[trigger] v@[x]).title@,
            ) by {
                if y == i && x < i - 1 {
                    lemma_not_less_transitive(
                        v@[x].title@,
                        v@[i - 1].title@,
                        v@[i as int].title@,
                    );
                }
            }
        }
        i += 1;
    }
    true
}

/// Whether the counts stand by name, strictly ascending.
pub open spec fn by_name(v: Seq<(Seq<char>, nat)>) -> bool {
    forall|i: int, j: int|
        0 <= i < j < v.len() ==> text_less((#[trigger] v[i]).0, (#[trigger] v[j]).0)
}

/// Whether `v` stands by name, strictly ascending.
pub fn in_name_order(v: &Vec<(String, usize)>) -> (ordered: bool)
    ensures
        ordered == by_name(count_views(v@)),
{
    let ghost views = count_views(v@);
    if v.len() < 2 {
        return true;
    }
    let mut i: usize = 1;
    while i < v.len()
        invariant
            1 <= i <= v.len(),
            views == count_views(v@),
            forall|x: int, y: int|
                0 <= x < y < i ==> text_less((#[trigger] views[x]).0, (#[trigger] views[y]).0),
        decreases v.len() - i,
    {
        assert(views[i as int].0 == v@[i as int].0@ && views[i - 1].0 == v@[i - 1].0@);
        if !less(v[i - 1].0.as_str(), v[i].0.as_str()) {
            return false;
        }
        proof {
            assert forall|x: int, y: int| 0 <= x < y < i + 1 implies text_less(
                (#[trigger] views[x]).0,
                (#[trigger] views[y]).0,
            ) by {
                if y == i && x < i - 1 {
                    lemma_less_transitive(views[x].0, views[i - 1].0, views[i as int].0);
                }
            }
        }
        i += 1;
    }
    true
}

/// Whether `v` stands in ranking order: by number, largest first, and by
/// name, strictly ascending, where the numbers are equal.
pub fn in_rank_order(v: &Vec<(String, usize)>) -> (ordered: bool)
    ensures
        ordered == strictly_ranked(count_views(v@)),
{
    let ghost views = count_views(v@);
    if v.len() < 2 {
        return true;
    }
    let mut i: usize = 1;
    while i < v.len()
        invariant
            1 <= i <= v.len(),
            views == count_views(v@),
            forall|x: int, y: int|
                0 <= x < y < i ==> ranks_before(#[trigger] views[x], #[trigger] views[y]),
        decreases v.len() - i,
    {
        assert(views[i as int] == (v@[i as int].0@, v@[i as int].1 as nat));
        assert(views[i - 1] == (v@[i - 1].0@, v@[i - 1].1 as nat));
        if !goes_before(&v[i - 1], &v[i]) {
            return false;
        }
        proof {
            assert forall|x: int, y: int| 0 <= x < y < i + 1 implies ranks_before(
                #[trigger] views[x],
                #[trigger] views[y],
            ) by {
                if y == i && x < i - 1 {
                    lemma_ranks_transitive(views[x], views[i - 1], views[i as int]);
                }
            }
        }
        i += 1;
    }
    true
}

/// Whether the hits stand by score, the highest first.
pub open spec fn by_score(v: Seq<(Prompt, i64)>) -> bool {
    forall|i: int, j: int| 0 <= i < j < v.len() ==> (#[trigger] v[i]).1 >= (#[trigger] v[j]).1
}

/// Whether `v` stands by score, the highest first.
pub fn in_score_order(v: &Vec<(Prompt, i64)>) -> (ordered: bool)
    ensures
        ordered == by_score(v@),
{
    if v.len() < 2 {
        return true;
    }
    let mut i: usize = 1;
    while i < v.len()
        invariant
            1 <= i <= v.len(),
            forall|x: int, y: int| 0 <= x < y < i ==> (#[trigger] v@[x]).1 >= (#[trigger] v@[y]).1,
        decreases v.len() - i,
    {
        if v[i - 1].1 < v[i].1 {
            return false;
        }
        proof {
            assert forall|x: int, y: int| 0 <= x < y < i + 1 implies (#[trigger] v@[x]).1 >= (
            #[trigger] v@[y]).1 by {
                if y == i && x < i - 1 {
                    assert(v@[x].1 >= v@[i - 1].1);
                }
            }
        }
        i += 1;
    }
    true
}

} // verus!
