//! The bundles that the tool offers, and what is shown of them.

use crate::registry::embedded::{bundled_ids, bundled_prompts};
use crate::text::{look_up, looked_up, pair_views, texts};
use crate::types::prompt::Prompt;
use vstd::prelude::*;

verus! {

/// A bundle as it is defined: a name, and the ids of its prompts.
#[derive(Debug)]
pub struct BundleDefinition {
    pub id: String,
    pub title: String,
    pub description: String,
    pub prompt_ids: Vec<String>,
}

/// What the list of bundles shows of one.
#[derive(Debug)]
pub struct BundleSummary {
    pub id: String,
    pub title: String,
    pub description: Option<String>,
    pub prompt_count: usize,
}

/// A prompt of a bundle, as it is shown.
#[derive(Debug)]
pub struct BundlePrompt {
    pub id: String,
    pub title: String,
}

/// What is shown of one bundle.
#[derive(Debug)]
pub struct BundleOutput {
    pub id: String,
    pub title: String,
    pub description: Option<String>,
    pub prompts: Vec<BundlePrompt>,
}

/// The ids of the bundles, in the order in which they are defined.
pub open spec fn bundle_ids() -> Seq<Seq<char>> {
    seq!["getting-started"@, "quality-essentials"@, "docs-and-design"@]
}

/// The ids of the prompts of each bundle, in the order of `bundle_ids`.
pub open spec fn bundle_prompt_ids() -> Seq<Seq<Seq<char>>> {
    seq![
        seq!["code-review"@, "debug"@, "explain-code"@],
        seq!["write-tests"@, "refactor"@, "optimize"@],
        seq!["documentation"@, "api-design"@, "explain-code"@],
    ]
}

fn define(id: &str, title: &str, description: &str, first: &str, second: &str, third: &str) -> (b:
    BundleDefinition)
    ensures
        b.id@ == id@,
        b.title@ == title@,
        b.description@ == description@,
        texts(b.prompt_ids@) == seq![first@, second@, third@],
{
    let b = BundleDefinition {
        id: id.to_string(),
        title: title.to_string(),
        description: description.to_string(),
        prompt_ids: vec![first.to_string(), second.to_string(), third.to_string()],
    };
    assert(texts(b.prompt_ids@) =~= seq![first@, second@, third@]);
    b
}

/// The bundles: three of them, under the ids of `bundle_ids`, each with the
/// prompts of `bundle_prompt_ids`.
pub fn bundle_definitions() -> (bundles: Vec<BundleDefinition>)
    ensures
        bundles@.len() == 3,
        forall|i: int| 0 <= i < 3 ==> (#[trigger] bundles@[i]).id@ == bundle_ids()[i],
        forall|i: int|
            0 <= i < 3 ==> texts((#[trigger] bundles@[i]).prompt_ids@) == bundle_prompt_ids()[i],
{
    vec![
        define(
            "getting-started",
            "Getting Started",
            "Essential prompts for new users",
            "code-review",
            "debug",
            "explain-code",
        ),
        define(
            "quality-essentials",
            "Quality Essentials",
            "Core prompts for code quality and refactoring",
            "write-tests",
            "refactor",
            "optimize",
        ),
        define(
            "docs-and-design",
            "Docs & Design",
            "Prompts for documentation and API design",
            "documentation",
            "api-design",
            "explain-code",
        ),
    ]
}

/// No two bundles have the same id.
pub proof fn lemma_bundle_ids_distinct()
    ensures
        forall|i: int, j: int| 0 <= i < j < 3 ==> bundle_ids()[i] != bundle_ids()[j],
{
    reveal_strlit("getting-started");
    reveal_strlit("quality-essentials");
    reveal_strlit("docs-and-design");
    assert("getting-started"@.len() == 15);
    assert("quality-essentials"@.len() == 18);
    assert("docs-and-design"@.len() == 15);
    assert("getting-started"@[0] == 'g' && "docs-and-design"@[0] == 'd');
}

/// Every prompt of every bundle is one of the bundled prompts.
pub proof fn lemma_bundle_prompts_are_bundled()
    ensures
        forall|i: int, k: int|
            0 <= i < 3 && 0 <= k < 3 ==> bundled_ids().contains(
                #[trigger] bundle_prompt_ids()[i][k],
            ),
{
    let ids = bundled_ids();
    assert(ids[0] == "code-review"@ && ids[1] == "explain-code"@ && ids[2] == "write-tests"@
        && ids[3] == "refactor"@ && ids[4] == "debug"@ && ids[5] == "documentation"@ && ids[6]
        == "optimize"@ && ids[7] == "api-design"@);
    assert forall|i: int, k: int| 0 <= i < 3 && 0 <= k < 3 implies ids.contains(
        #[trigger] bundle_prompt_ids()[i][k],
    ) by {
        let want = bundle_prompt_ids()[i][k];
        assert(want == ids[0] || want == ids[1] || want == ids[2] || want == ids[3] || want
            == ids[4] || want == ids[5] || want == ids[6] || want == ids[7]);
    }
}

/// The id and title of each prompt of `prompts`, in their order.
pub fn title_map(prompts: &Vec<Prompt>) -> (titles: Vec<(String, String)>)
    ensures
        titles@.len() == prompts@.len(),
        forall|i: int|
            0 <= i < prompts@.len() ==> (#[trigger] pair_views(titles@)[i]) == (
                prompts@[i].id@,
                prompts@[i].title@,
            ),
{
    let mut titles: Vec<(String, String)> = Vec::new();
    let mut i: usize = 0;
    while i < prompts.len()
        invariant
            i <= prompts.len(),
            titles@.len() == i,
            forall|k: int|
                0 <= k < i ==> (#[trigger] pair_views(titles@)[k]) == (
                    prompts@[k].id@,
                    prompts@[k].title@,
                ),
        decreases prompts.len() - i,
    {
        let ghost before = titles@;
        titles.push((prompts[i].id.clone(), prompts[i].title.clone()));
        assert(pair_views(titles@) =~= pair_views(before).push(
            (prompts@[i as int].id@, prompts@[i as int].title@),
        ));
        i += 1;
    }
    titles
}

/// The id and title of each bundled prompt.
pub fn prompt_title_map() -> (titles: Vec<(String, String)>)
    ensures
        titles@.len() == 8,
        forall|i: int| 0 <= i < 8 ==> (#[trigger] pair_views(titles@)[i]).0 == bundled_ids()[i],
{
    let prompts = bundled_prompts();
    title_map(&prompts)
}

/// Those of `ids` for which `titles` has a title, each with its title, in
/// their order.
pub open spec fn titled(ids: Seq<Seq<char>>, titles: Seq<(Seq<char>, Seq<char>)>) -> Seq<
    (Seq<char>, Seq<char>),
>
    decreases ids.len(),
{
    if ids.len() == 0 {
        Seq::empty()
    } else {
        let front = titled(ids.drop_last(), titles);
        match looked_up(titles, ids.last()) {
            Some(t) => front.push((ids.last(), t)),
            None => front,
        }
    }
}

/// The views of the prompts of a bundle, as they are shown.
pub open spec fn shown(prompts: Seq<BundlePrompt>) -> Seq<(Seq<char>, Seq<char>)> {
    prompts.map_values(|p: BundlePrompt| (p.id@, p.title@))
}

/// What is shown of `bundle`: its id, title and description, and those of
/// its prompts for which `titles_by_id` has a title, each with its title, in
/// the bundle's order.
pub fn build_bundle_output(bundle: &BundleDefinition, titles_by_id: &Vec<(String, String)>) -> (out:
    BundleOutput)
    ensures
        out.id@ == bundle.id@,
        out.title@ == bundle.title@,
        crate::text::opt_text(out.description) == Some(bundle.description@),
        shown(out.prompts@) == titled(texts(bundle.prompt_ids@), pair_views(titles_by_id@)),
{
    let ghost ids = texts(bundle.prompt_ids@);
    let ghost titles = pair_views(titles_by_id@);
    let mut prompts: Vec<BundlePrompt> = Vec::new();
    let mut i: usize = 0;
    assert(ids.take(0) =~= Seq::empty());
    assert(shown(prompts@) =~= Seq::empty());
    while i < bundle.prompt_ids.len()
        invariant
            i <= bundle.prompt_ids.len(),
            ids == texts(bundle.prompt_ids@),
            titles == pair_views(titles_by_id@),
            shown(prompts@) == titled(ids.take(i as int), titles),
        decreases bundle.prompt_ids.len() - i,
    {
        let id = &bundle.prompt_ids[i];
        assert(ids.take(i + 1).drop_last() =~= ids.take(i as int));
        assert(ids.take(i + 1).last() == id@);
        match look_up(titles_by_id, id.as_str()) {
            Some(title) => {
                let ghost before = prompts@;
                prompts.push(BundlePrompt { id: id.clone(), title: title.clone() });
                assert(shown(prompts@) =~= shown(before).push((id@, title@)));
            },
            None => {},
        }
        i += 1;
    }
    assert(ids.take(bundle.prompt_ids.len() as int) =~= ids);
    BundleOutput {
        id: bundle.id.clone(),
        title: bundle.title.clone(),
        description: Some(bundle.description.clone()),
        prompts,
    }
}

/// What the list of bundles shows of `bundle`: its id, title and
/// description, and the number of its prompts for which `titles_by_id` has a
/// title.
pub fn build_bundle_summary(bundle: &BundleDefinition, titles_by_id: &Vec<(String, String)>) -> (out:
    BundleSummary)
    ensures
        out.id@ == bundle.id@,
        out.title@ == bundle.title@,
        crate::text::opt_text(out.description) == Some(bundle.description@),
        out.prompt_count == titled(texts(bundle.prompt_ids@), pair_views(titles_by_id@)).len(),
{
    let output = build_bundle_output(bundle, titles_by_id);
    assert(shown(output.prompts@).len() == output.prompts@.len());
    BundleSummary {
        id: output.id,
        title: output.title,
        description: output.description,
        prompt_count: output.prompts.len(),
    }
}

/// The bundle of the id `id` among `bundles`: the first with that id.
pub fn find_bundle<'a>(bundles: &'a Vec<BundleDefinition>, id: &str) -> (found: Option<
    &'a BundleDefinition,
>)
    ensures
        found is None <==> (forall|i: int|
            0 <= i < bundles.len() ==> (#[trigger] bundles[i]).id@ != id@),
        found matches Some(b) ==> b.id@ == id@ && exists|i: int|
            0 <= i < bundles.len() && *b == #[trigger] bundles[i] && (forall|j: int|
                0 <= j < i ==> (#[trigger] bundles[j]).id@ != id@),
{
    let mut i: usize = 0;
    while i < bundles.len()
        invariant
            i <= bundles.len(),
            forall|j: int| 0 <= j < i ==> (#[trigger] bundles[j]).id@ != id@,
        decreases bundles.len() - i,
    {
        if *bundles[i].id.as_str() == *id {
            return Some(&bundles[i]);
        }
        i += 1;
    }
    None
}

} // verus!
