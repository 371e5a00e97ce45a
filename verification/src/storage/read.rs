//! From what SQLite brought back to what the store hands out. Every function
//! here takes rows as they came and says exactly what is made of them; none
//! calls SQLite.

use crate::storage::checks::{
    by_name, by_score, by_title, in_name_order, in_rank_order, in_score_order, in_title_order,
    passes, passes_filter,
};
use crate::storage::database::{StoreError, StoreErrorKind};
use crate::storage::decode::{
    count_in, decode_count, decode_hit, decode_prompt, decode_size, decode_tag, decode_variable,
    hit_in, prompt_in, size_in, tag_in, variable_in,
};
use crate::storage::plan::{Filter, FilterView};
use crate::storage::sql::{cell_views, row_views, Cell, CellView};
use crate::tally::{count_views, strictly_ranked};
use crate::text::texts;
use crate::types::prompt::{
    prompt_views, variable_views, Prompt, PromptVariable, PromptView, VariableView,
};
use vstd::prelude::*;

verus! {

/// What `read` makes of each of `rows`, in their order, where it can read
/// every one; `None` where there is a row that it cannot read.
pub open spec fn all_read<T>(
    rows: Seq<Seq<CellView>>,
    read: spec_fn(Seq<CellView>) -> Option<T>,
) -> Option<Seq<T>> {
    if forall|i: int| 0 <= i < rows.len() ==> (#[trigger] read(rows[i])) is Some {
        Some(Seq::new(rows.len(), |i: int| read(rows[i]).unwrap()))
    } else {
        None
    }
}

/// Where one row cannot be read, the rows cannot.
pub proof fn lemma_unread<T>(
    rows: Seq<Seq<CellView>>,
    read: spec_fn(Seq<CellView>) -> Option<T>,
    i: int,
)
    requires
        0 <= i < rows.len(),
        read(rows[i]) is None,
    ensures
        all_read(rows, read) is None,
{
}

/// The tags in `rows`, one in each; `None` where a row holds none.
pub open spec fn tags_in(rows: Seq<Seq<CellView>>) -> Option<Seq<Seq<char>>> {
    all_read(rows, |r: Seq<CellView>| tag_in(r))
}

/// The variables in `rows`, one in each; `None` where a row holds none.
pub open spec fn variables_in(rows: Seq<Seq<CellView>>) -> Option<Seq<VariableView>> {
    all_read(rows, |r: Seq<CellView>| variable_in(r))
}

/// The prompts in `rows`, one in each, without tags and variables; `None`
/// where a row holds none.
pub open spec fn prompts_in(rows: Seq<Seq<CellView>>) -> Option<Seq<PromptView>> {
    all_read(rows, |r: Seq<CellView>| prompt_in(r))
}

/// The counts in `rows`, one in each; `None` where a row holds none.
pub open spec fn counts_in(rows: Seq<Seq<CellView>>) -> Option<Seq<(Seq<char>, nat)>> {
    all_read(rows, |r: Seq<CellView>| count_in(r))
}

/// The search hits in `rows`, one in each; `None` where a row holds none.
pub open spec fn hits_in(rows: Seq<Seq<CellView>>) -> Option<Seq<(PromptView, int)>> {
    all_read(rows, |r: Seq<CellView>| hit_in(r))
}

/// The tags in `rows`, one in each.
pub fn read_tags(rows: &Vec<Vec<Cell>>) -> (out: Option<Vec<String>>)
    ensures
        match out {
            Some(v) => tags_in(row_views(rows@)) == Some(
                texts(v@),
            ),
            None => tags_in(row_views(rows@)) is None,
        },
{
    let ghost views = row_views(rows@);
    let mut out: Vec<String> = Vec::new();
    let mut i: usize = 0;
    while i < rows.len()
        invariant
            i <= rows.len(),
            views == row_views(rows@),
            out.len() == i,
            forall|k: int| 0 <= k < i ==> tag_in(#[trigger] views[k]) == Some(out@[k]@),
        decreases rows.len() - i,
    {
        assert(views[i as int] == cell_views(rows@[i as int]@));
        match decode_tag(&rows[i]) {
            Some(tag) => out.push(tag),
            None => {
                proof {
                    lemma_unread(views, |r: Seq<CellView>| tag_in(r), i as int);
                }
                return None;
            },
        }
        i += 1;
    }
    assert(tags_in(views) is Some);
    assert(texts(out@) =~= tags_in(views).unwrap());
    Some(out)
}

/// The variables in `rows`, one in each.
pub fn read_variables(rows: &Vec<Vec<Cell>>) -> (out: Option<Vec<PromptVariable>>)
    ensures
        match out {
            Some(v) => variables_in(row_views(rows@)) == Some(
                variable_views(v@),
            ),
            None => variables_in(row_views(rows@)) is None,
        },
{
    let ghost views = row_views(rows@);
    let mut out: Vec<PromptVariable> = Vec::new();
    let mut i: usize = 0;
    while i < rows.len()
        invariant
            i <= rows.len(),
            views == row_views(rows@),
            out.len() == i,
            forall|k: int| 0 <= k < i ==> variable_in(#[trigger] views[k]) == Some(out@[k]@),
        decreases rows.len() - i,
    {
        assert(views[i as int] == cell_views(rows@[i as int]@));
        match decode_variable(&rows[i]) {
            Some(v) => out.push(v),
            None => {
                proof {
                    lemma_unread(views, |r: Seq<CellView>| variable_in(r), i as int);
                }
                return None;
            },
        }
        i += 1;
    }
    assert(variables_in(views) is Some);
    assert(variable_views(out@) =~= variables_in(views).unwrap());
    Some(out)
}

/// The prompts in `rows`, one in each, without tags and variables.
pub fn read_prompts(rows: &Vec<Vec<Cell>>) -> (out: Option<Vec<Prompt>>)
    ensures
        match out {
            Some(v) => prompts_in(row_views(rows@)) == Some(
                prompt_views(v@),
            ),
            None => prompts_in(row_views(rows@)) is None,
        },
{
    let ghost views = row_views(rows@);
    let mut out: Vec<Prompt> = Vec::new();
    let mut i: usize = 0;
    while i < rows.len()
        invariant
            i <= rows.len(),
            views == row_views(rows@),
            out.len() == i,
            forall|k: int| 0 <= k < i ==> prompt_in(#[trigger] views[k]) == Some(out@[k]@),
        decreases rows.len() - i,
    {
        assert(views[i as int] == cell_views(rows@[i as int]@));
        match decode_prompt(&rows[i]) {
            Some(p) => out.push(p),
            None => {
                proof {
                    lemma_unread(views, |r: Seq<CellView>| prompt_in(r), i as int);
                }
                return None;
            },
        }
        i += 1;
    }
    assert(prompts_in(views) is Some);
    assert(prompt_views(out@) =~= prompts_in(views).unwrap());
    Some(out)
}

/// The counts in `rows`, one in each.
pub fn read_counts(rows: &Vec<Vec<Cell>>) -> (out: Option<Vec<(String, usize)>>)
    ensures
        match out {
            Some(v) => counts_in(row_views(rows@)) == Some(
                count_views(v@),
            ),
            None => counts_in(row_views(rows@)) is None,
        },
{
    let ghost views = row_views(rows@);
    let mut out: Vec<(String, usize)> = Vec::new();
    let mut i: usize = 0;
    while i < rows.len()
        invariant
            i <= rows.len(),
            views == row_views(rows@),
            out.len() == i,
            forall|k: int|
                0 <= k < i ==> count_in(#[trigger] views[k]) == Some((out@[k].0@, out@[k].1 as nat)),
        decreases rows.len() - i,
    {
        assert(views[i as int] == cell_views(rows@[i as int]@));
        match decode_count(&rows[i]) {
            Some(c) => out.push(c),
            None => {
                proof {
                    lemma_unread(views, |r: Seq<CellView>| count_in(r), i as int);
                }
                return None;
            },
        }
        i += 1;
    }
    assert(counts_in(views) is Some);
    assert(count_views(out@) =~= counts_in(views).unwrap());
    Some(out)
}

/// The plain values of search hits.
pub open spec fn hit_views(hits: Seq<(Prompt, i64)>) -> Seq<(PromptView, int)> {
    hits.map_values(|h: (Prompt, i64)| (h.0@, h.1 as int))
}

/// The search hits in `rows`, one in each, the prompts without tags and
/// variables.
pub fn read_hits(rows: &Vec<Vec<Cell>>) -> (out: Option<Vec<(Prompt, i64)>>)
    ensures
        match out {
            Some(v) => hits_in(row_views(rows@)) == Some(
                hit_views(v@),
            ),
            None => hits_in(row_views(rows@)) is None,
        },
{
    let ghost views = row_views(rows@);
    let mut out: Vec<(Prompt, i64)> = Vec::new();
    let mut i: usize = 0;
    while i < rows.len()
        invariant
            i <= rows.len(),
            views == row_views(rows@),
            out.len() == i,
            forall|k: int|
                0 <= k < i ==> hit_in(#[trigger] views[k]) == Some((out@[k].0@, out@[k].1 as int)),
        decreases rows.len() - i,
    {
        assert(views[i as int] == cell_views(rows@[i as int]@));
        match decode_hit(&rows[i]) {
            Some(h) => out.push(h),
            None => {
                proof {
                    lemma_unread(views, |r: Seq<CellView>| hit_in(r), i as int);
                }
                return None;
            },
        }
        i += 1;
    }
    assert(hits_in(views) is Some);
    assert(hit_views(out@) =~= hits_in(views).unwrap());
    Some(out)
}

/// The prompt `p` with the tags in `tag_rows`; `None` where a tag cannot be
/// read.
pub open spec fn tagged_by(p: PromptView, tag_rows: Seq<Seq<CellView>>) -> Option<PromptView> {
    match tags_in(tag_rows) {
        Some(tags) => Some(PromptView { tags, ..p }),
        None => None,
    }
}

/// Gives `prompt` the tags in `tag_rows`, in place of those it has.
pub fn attach_tags(prompt: Prompt, tag_rows: &Vec<Vec<Cell>>) -> (out: Option<Prompt>)
    ensures
        match out {
            Some(p) => tagged_by(prompt@, row_views(tag_rows@)) == Some(p@),
            None => tagged_by(prompt@, row_views(tag_rows@)) is None,
        },
{
    match read_tags(tag_rows) {
        Some(tags) => {
            let mut p = prompt;
            p.tags = tags;
            Some(p)
        },
        None => None,
    }
}

/// The prompt that the store holds under `id`, from its row, the rows of its
/// tags and the rows of its variables: the prompt of the row with those tags
/// and variables, in the order of their rows. `None` where the row is not
/// that of a prompt, is of another id, or where a tag or a variable cannot be
/// read.
pub open spec fn stored_in(
    id: Seq<char>,
    row: Seq<CellView>,
    tag_rows: Seq<Seq<CellView>>,
    variable_rows: Seq<Seq<CellView>>,
) -> Option<PromptView> {
    match (
        prompt_in(row),
        tags_in(tag_rows),
        variables_in(variable_rows),
    ) {
        (Some(p), Some(tags), Some(variables)) => if p.id == id {
            Some(PromptView { tags, variables, ..p })
        } else {
            None
        },
        _ => None,
    }
}

/// The prompt that the store holds under `id`.
pub fn read_prompt(
    id: &str,
    row: &Vec<Cell>,
    tag_rows: &Vec<Vec<Cell>>,
    variable_rows: &Vec<Vec<Cell>>,
) -> (out: Option<Prompt>)
    ensures
        match out {
            Some(p) => stored_in(
                id@,
                cell_views(row@),
                row_views(tag_rows@),
                row_views(variable_rows@),
            ) == Some(p@),
            None => stored_in(
                id@,
                cell_views(row@),
                row_views(tag_rows@),
                row_views(variable_rows@),
            ) is None,
        },
{
    let mut prompt = match decode_prompt(row) {
        Some(p) => p,
        None => return None,
    };
    let tags = match read_tags(tag_rows) {
        Some(t) => t,
        None => return None,
    };
    let variables = match read_variables(variable_rows) {
        Some(v) => v,
        None => return None,
    };
    if !(*prompt.id.as_str() == *id) {
        return None;
    }
    prompt.tags = tags;
    prompt.variables = variables;
    Some(prompt)
}

/// Whether `prompts` is a listing under `filter`: every one passes the
/// filter, and they stand by title, ascending.
pub open spec fn is_listing(prompts: Seq<Prompt>, filter: FilterView) -> bool {
    &&& forall|i: int| 0 <= i < prompts.len() ==> passes((#[trigger] prompts[i])@, filter)
    &&& by_title(prompts)
}

/// `prompts`, where it is a listing under `filter`.
pub fn checked_listing(prompts: Vec<Prompt>, filter: &Filter) -> (out: Option<Vec<Prompt>>)
    ensures
        match out {
            Some(v) => v == prompts && is_listing(prompts@, filter@),
            None => !is_listing(prompts@, filter@),
        },
{
    let mut i: usize = 0;
    while i < prompts.len()
        invariant
            i <= prompts.len(),
            forall|k: int| 0 <= k < i ==> passes((#[trigger] prompts@[k])@, filter@),
        decreases prompts.len() - i,
    {
        if !passes_filter(&prompts[i], filter) {
            return None;
        }
        i += 1;
    }
    if !in_title_order(&prompts) {
        return None;
    }
    Some(prompts)
}

/// Whether `hits` is the answer to a search for at most `limit` prompts: no
/// more than that, the highest score first.
pub open spec fn is_answer(hits: Seq<(Prompt, i64)>, limit: int) -> bool {
    hits.len() <= limit && by_score(hits)
}

/// `hits`, where it is the answer to a search for at most `limit` prompts.
pub fn checked_hits(hits: Vec<(Prompt, i64)>, limit: usize) -> (out: Option<Vec<(Prompt, i64)>>)
    ensures
        match out {
            Some(v) => v == hits && is_answer(hits@, limit as int),
            None => !is_answer(hits@, limit as int),
        },
{
    if hits.len() > limit || !in_score_order(&hits) {
        None
    } else {
        Some(hits)
    }
}

/// `counts`, where they stand by name, strictly ascending.
pub fn checked_by_name(counts: Vec<(String, usize)>) -> (out: Option<Vec<(String, usize)>>)
    ensures
        match out {
            Some(v) => v == counts && by_name(count_views(counts@)),
            None => !by_name(count_views(counts@)),
        },
{
    if in_name_order(&counts) {
        Some(counts)
    } else {
        None
    }
}

/// `counts`, where they stand in ranking order.
pub fn checked_by_rank(counts: Vec<(String, usize)>) -> (out: Option<Vec<(String, usize)>>)
    ensures
        match out {
            Some(v) => v == counts && strictly_ranked(count_views(counts@)),
            None => !strictly_ranked(count_views(counts@)),
        },
{
    if in_rank_order(&counts) {
        Some(counts)
    } else {
        None
    }
}

/// A failure of a read with the message `message`.
pub fn unreadable(message: &str) -> (e: StoreError)
    ensures
        e.kind == StoreErrorKind::Read,
        e.message@ == message@,
{
    StoreError { kind: StoreErrorKind::Read, message: message.to_string() }
}

/// What the store holds under `id`, from the rows that the query for the
/// prompt, the query for its tags and the query for its variables brought:
/// nothing where the first brought no row; else the prompt that the first
/// row makes with the tags and variables (see `stored_in`); and no answer
/// where those rows make no prompt of that id.
pub open spec fn held_under(
    id: Seq<char>,
    rows: Seq<Seq<CellView>>,
    tag_rows: Seq<Seq<CellView>>,
    variable_rows: Seq<Seq<CellView>>,
) -> Option<Option<PromptView>> {
    if rows.len() == 0 {
        Some(None)
    } else {
        match stored_in(id, rows[0], tag_rows, variable_rows) {
            Some(p) => Some(Some(p)),
            None => None,
        }
    }
}

/// The views of an optional prompt.
pub open spec fn found_view(found: Option<Prompt>) -> Option<PromptView> {
    match found {
        Some(p) => Some(p@),
        None => None,
    }
}

/// What the store holds under `id`, from the rows that its three queries
/// brought. It succeeds with `None` where there is no row, with the prompt
/// where the rows make one of that id, and fails where they make none.
pub fn found_prompt(
    id: &str,
    rows: &Vec<Vec<Cell>>,
    tag_rows: &Vec<Vec<Cell>>,
    variable_rows: &Vec<Vec<Cell>>,
) -> (out: Result<Option<Prompt>, StoreError>)
    ensures
        match out {
            Ok(found) => held_under(
                id@,
                row_views(rows@),
                row_views(tag_rows@),
                row_views(variable_rows@),
            ) == Some(found_view(found)),
            Err(e) => e.kind == StoreErrorKind::Read && held_under(
                id@,
                row_views(rows@),
                row_views(tag_rows@),
                row_views(variable_rows@),
            ) is None,
        },
        out matches Ok(Some(p)) ==> p.id@ == id@,
{
    if rows.len() == 0 {
        return Ok(None);
    }
    assert(row_views(rows@)[0] == cell_views(rows@[0]@));
    match read_prompt(id, &rows[0], tag_rows, variable_rows) {
        Some(p) => Ok(Some(p)),
        None => Err(unreadable("the rows are not those of the prompt")),
    }
}

/// The prompts in the rows of a listing, without tags and variables; a
/// failure where a row holds no prompt.
pub fn listed_rows(rows: &Vec<Vec<Cell>>) -> (out: Result<Vec<Prompt>, StoreError>)
    ensures
        match out {
            Ok(v) => prompts_in(row_views(rows@)) == Some(prompt_views(v@)),
            Err(e) => e.kind == StoreErrorKind::Read && prompts_in(row_views(rows@)) is None,
        },
{
    match read_prompts(rows) {
        Some(v) => Ok(v),
        None => Err(unreadable("a row has not the shape of a prompt")),
    }
}

/// `prompt` with the tags in `tag_rows` in place of its own; a failure where
/// a row holds no tag.
pub fn tagged(prompt: Prompt, tag_rows: &Vec<Vec<Cell>>) -> (out: Result<Prompt, StoreError>)
    ensures
        match out {
            Ok(p) => tagged_by(prompt@, row_views(tag_rows@)) == Some(p@),
            Err(e) => e.kind == StoreErrorKind::Read && tagged_by(prompt@, row_views(tag_rows@))
                is None,
        },
{
    match attach_tags(prompt, tag_rows) {
        Some(p) => Ok(p),
        None => Err(unreadable("a tag is no text")),
    }
}

/// The prompt `p` with the variables in `variable_rows`; `None` where a
/// variable cannot be read.
pub open spec fn varied_by(p: PromptView, variable_rows: Seq<Seq<CellView>>) -> Option<
    PromptView,
> {
    match variables_in(variable_rows) {
        Some(variables) => Some(PromptView { variables, ..p }),
        None => None,
    }
}

/// `prompt` with the variables in `variable_rows` in place of its own; a
/// failure where a row holds no variable.
pub fn with_variables(prompt: Prompt, variable_rows: &Vec<Vec<Cell>>) -> (out: Result<
    Prompt,
    StoreError,
>)
    ensures
        match out {
            Ok(p) => varied_by(prompt@, row_views(variable_rows@)) == Some(p@),
            Err(e) => e.kind == StoreErrorKind::Read && varied_by(
                prompt@,
                row_views(variable_rows@),
            ) is None,
        },
{
    match read_variables(variable_rows) {
        Some(variables) => {
            let mut p = prompt;
            p.variables = variables;
            Ok(p)
        },
        None => Err(unreadable("a variable has not the shape of one")),
    }
}

/// `prompts` as the listing under `filter`; a failure where they are none:
/// where one does not pass the filter, or they do not stand by title.
pub fn listing_of(prompts: Vec<Prompt>, filter: &Filter) -> (out: Result<Vec<Prompt>, StoreError>)
    ensures
        match out {
            Ok(v) => v == prompts && is_listing(prompts@, filter@),
            Err(e) => e.kind == StoreErrorKind::Read && !is_listing(prompts@, filter@),
        },
{
    match checked_listing(prompts, filter) {
        Some(v) => Ok(v),
        None => Err(unreadable("the rows do not pass the filter in the order of their titles")),
    }
}

/// The search hits in the rows of a search, the prompts without tags and
/// variables; a failure where a row holds no hit.
pub fn hit_rows(rows: &Vec<Vec<Cell>>) -> (out: Result<Vec<(Prompt, i64)>, StoreError>)
    ensures
        match out {
            Ok(v) => hits_in(row_views(rows@)) == Some(hit_views(v@)),
            Err(e) => e.kind == StoreErrorKind::Read && hits_in(row_views(rows@)) is None,
        },
{
    match read_hits(rows) {
        Some(v) => Ok(v),
        None => Err(unreadable("a row has not the shape of a hit")),
    }
}

/// `hits` as the answer to a search for at most `limit` prompts; a failure
/// where they are none: where they are more, or do not stand by score.
pub fn answer_of(hits: Vec<(Prompt, i64)>, limit: usize) -> (out: Result<
    Vec<(Prompt, i64)>,
    StoreError,
>)
    ensures
        match out {
            Ok(v) => v == hits && is_answer(hits@, limit as int),
            Err(e) => e.kind == StoreErrorKind::Read && !is_answer(hits@, limit as int),
        },
{
    match checked_hits(hits, limit) {
        Some(v) => Ok(v),
        None => Err(
            unreadable("the hits are more than asked for, or not in the order of their scores"),
        ),
    }
}

/// The counts in `rows` where they can be read and stand by name, strictly
/// ascending; `None` where not.
pub open spec fn counts_by_name(rows: Seq<Seq<CellView>>) -> Option<Seq<(Seq<char>, nat)>> {
    match counts_in(rows) {
        Some(counts) => if by_name(counts) {
            Some(counts)
        } else {
            None
        },
        None => None,
    }
}

/// The counts of the categories, from the rows that the query for them
/// brought; a failure where a row holds no count, or the counts do not stand
/// by name, strictly ascending.
pub fn named_counts(rows: &Vec<Vec<Cell>>) -> (out: Result<Vec<(String, usize)>, StoreError>)
    ensures
        match out {
            Ok(v) => counts_by_name(row_views(rows@)) == Some(count_views(v@)),
            Err(e) => e.kind == StoreErrorKind::Read && counts_by_name(row_views(rows@)) is None,
        },
{
    let counts = match read_counts(rows) {
        Some(c) => c,
        None => return Err(unreadable("a row has not the shape of a count")),
    };
    match checked_by_name(counts) {
        Some(v) => Ok(v),
        None => Err(unreadable("the counts are not in the order of their names")),
    }
}

/// The counts in `rows` where they can be read and stand in ranking order;
/// `None` where not.
pub open spec fn counts_by_rank(rows: Seq<Seq<CellView>>) -> Option<Seq<(Seq<char>, nat)>> {
    match counts_in(rows) {
        Some(counts) => if strictly_ranked(counts) {
            Some(counts)
        } else {
            None
        },
        None => None,
    }
}

/// The counts of the tags, from the rows that the query for them brought; a
/// failure where a row holds no count, or the counts do not stand in ranking
/// order.
pub fn ranked_counts(rows: &Vec<Vec<Cell>>) -> (out: Result<Vec<(String, usize)>, StoreError>)
    ensures
        match out {
            Ok(v) => counts_by_rank(row_views(rows@)) == Some(count_views(v@)),
            Err(e) => e.kind == StoreErrorKind::Read && counts_by_rank(row_views(rows@)) is None,
        },
{
    let counts = match read_counts(rows) {
        Some(c) => c,
        None => return Err(unreadable("a row has not the shape of a count")),
    };
    match checked_by_rank(counts) {
        Some(v) => Ok(v),
        None => Err(unreadable("the counts are not in ranking order")),
    }
}

/// The number in the first cell of the first row, where there is one and it
/// is a number that is not negative and fits the machine's word.
pub open spec fn number_in(rows: Seq<Seq<CellView>>) -> Option<nat> {
    if rows.len() > 0 && rows[0].len() > 0 {
        size_in(rows[0][0])
    } else {
        None
    }
}

/// The number of prompts, from the rows that the query for it brought; a
/// failure where they hold no such number.
pub fn count_of(rows: &Vec<Vec<Cell>>) -> (out: Result<usize, StoreError>)
    ensures
        match out {
            Ok(n) => number_in(row_views(rows@)) == Some(n as nat),
            Err(e) => e.kind == StoreErrorKind::Read && number_in(row_views(rows@)) is None,
        },
{
    if rows.len() == 0 {
        return Err(unreadable("the count brought no row"));
    }
    assert(row_views(rows@)[0] == cell_views(rows@[0]@));
    if rows[0].len() == 0 {
        return Err(unreadable("the count brought no cell"));
    }
    assert(cell_views(rows@[0]@)[0] == rows@[0]@[0]@);
    match decode_size(&rows[0][0]) {
        Some(n) => Ok(n),
        None => Err(unreadable("the count is no number")),
    }
}

/// The text in the first row, where there is one and it holds a text.
pub open spec fn text_of_first(rows: Seq<Seq<CellView>>) -> Option<Seq<char>> {
    if rows.len() > 0 {
        tag_in(rows[0])
    } else {
        None
    }
}

/// The text in the first row; `None` where there is no row, or it holds no
/// text.
pub fn first_text(rows: &Vec<Vec<Cell>>) -> (out: Option<String>)
    ensures
        crate::text::opt_text(out) == text_of_first(row_views(rows@)),
{
    if rows.len() == 0 {
        return None;
    }
    assert(row_views(rows@)[0] == cell_views(rows@[0]@));
    decode_tag(&rows[0])
}

/// The value kept under a key, from the rows that the query for it brought:
/// the text in the first row; a failure where there is none.
pub fn meta_of(rows: &Vec<Vec<Cell>>) -> (out: Result<String, StoreError>)
    ensures
        match out {
            Ok(value) => text_of_first(row_views(rows@)) == Some(value@),
            Err(e) => e.kind == StoreErrorKind::Read && text_of_first(row_views(rows@)) is None,
        },
{
    match first_text(rows) {
        Some(value) => Ok(value),
        None => Err(unreadable("nothing is kept under the key")),
    }
}

/// Whether the database is sound, from the rows that the question for it
/// brought: whether the text in the first row is the word `ok`; a failure
/// where there is no such text.
pub fn soundness_of(rows: &Vec<Vec<Cell>>) -> (out: Result<bool, StoreError>)
    ensures
        match out {
            Ok(sound) => text_of_first(row_views(rows@)) matches Some(answer) && sound == (answer
                == "ok"@),
            Err(e) => e.kind == StoreErrorKind::Read && text_of_first(row_views(rows@)) is None,
        },
{
    match first_text(rows) {
        Some(answer) => Ok(*answer.as_str() == *"ok"),
        None => Err(unreadable("the check brought no text")),
    }
}

} // verus!
