//! Reading what SQLite brought back: from rows of cells to prompts, tags,
//! variables, counts and search hits. A row of another shape than the store
//! writes is refused.

use crate::storage::plan::{str_to_var_type, var_type_named};
use crate::storage::sql::{cell_views, Cell, CellView};
use crate::types::prompt::{Prompt, PromptVariable, PromptView, VariableView};
use vstd::prelude::*;

verus! {

/// The text in a cell that holds one.
pub open spec fn text_in(c: CellView) -> Option<Seq<char>> {
    match c {
        CellView::Text(t) => Some(t),
        _ => None,
    }
}

/// The text in a cell that holds one or is null; `None` for what is neither.
pub open spec fn opt_text_in(c: CellView) -> Option<Option<Seq<char>>> {
    match c {
        CellView::Text(t) => Some(Some(t)),
        CellView::Null => Some(None),
        _ => None,
    }
}

/// The flag in a cell that holds a whole number: false for 0, true for any
/// other.
pub open spec fn flag_in(c: CellView) -> Option<bool> {
    match c {
        CellView::Integer(i) => Some(i != 0),
        _ => None,
    }
}

/// The whole number in a cell that holds one.
pub open spec fn integer_in(c: CellView) -> Option<int> {
    match c {
        CellView::Integer(i) => Some(i),
        _ => None,
    }
}

fn cell_text(c: &Cell) -> (out: Option<String>)
    ensures
        crate::text::opt_text(out) == text_in(c@),
{
    match c {
        Cell::Text(t) => Some(t.clone()),
        _ => None,
    }
}

fn cell_opt_text(c: &Cell) -> (out: Option<Option<String>>)
    ensures
        match out {
            Some(o) => opt_text_in(c@) == Some(crate::text::opt_text(o)),
            None => opt_text_in(c@) is None,
        },
{
    match c {
        Cell::Text(t) => Some(Some(t.clone())),
        Cell::Null => Some(None),
        _ => None,
    }
}

fn cell_flag(c: &Cell) -> (out: Option<bool>)
    ensures
        out == flag_in(c@),
{
    match c {
        Cell::Integer(i) => Some(*i != 0),
        _ => None,
    }
}

/// The prompt in a row: id, title and content as texts; description and
/// category as texts or null; the featured flag; version, author and the time
/// of saving as texts or null; the flag for a local prompt. Tags and
/// variables are not in the row. `None` for a row of another shape.
pub open spec fn prompt_in(row: Seq<CellView>) -> Option<PromptView> {
    if row.len() >= 10 && text_in(row[0]) is Some && text_in(row[1]) is Some && text_in(row[2])
        is Some && opt_text_in(row[3]) is Some && opt_text_in(row[4]) is Some && flag_in(row[5])
        is Some && opt_text_in(row[6]) is Some && opt_text_in(row[7]) is Some && opt_text_in(
        row[8],
    ) is Some && flag_in(row[9]) is Some {
        Some(
            PromptView {
                id: text_in(row[0]).unwrap(),
                title: text_in(row[1]).unwrap(),
                content: text_in(row[2]).unwrap(),
                description: opt_text_in(row[3]).unwrap(),
                category: opt_text_in(row[4]).unwrap(),
                tags: Seq::empty(),
                variables: Seq::empty(),
                featured: flag_in(row[5]).unwrap(),
                version: opt_text_in(row[6]).unwrap(),
                author: opt_text_in(row[7]).unwrap(),
                saved_at: opt_text_in(row[8]).unwrap(),
                is_local: flag_in(row[9]).unwrap(),
            },
        )
    } else {
        None
    }
}

/// Reads the prompt in `row`.
pub fn decode_prompt(row: &Vec<Cell>) -> (out: Option<Prompt>)
    ensures
        match out {
            Some(p) => prompt_in(cell_views(row@)) == Some(p@),
            None => prompt_in(cell_views(row@)) is None,
        },
{
    if row.len() < 10 {
        return None;
    }
    let ghost cells = cell_views(row@);
    assert(forall|i: int| 0 <= i < row.len() ==> cells[i] == (#[trigger] row@[i])@);
    let id = match cell_text(&row[0]) {
        Some(v) => v,
        None => return None,
    };
    let title = match cell_text(&row[1]) {
        Some(v) => v,
        None => return None,
    };
    let content = match cell_text(&row[2]) {
        Some(v) => v,
        None => return None,
    };
    let description = match cell_opt_text(&row[3]) {
        Some(v) => v,
        None => return None,
    };
    let category = match cell_opt_text(&row[4]) {
        Some(v) => v,
        None => return None,
    };
    let featured = match cell_flag(&row[5]) {
        Some(v) => v,
        None => return None,
    };
    let version = match cell_opt_text(&row[6]) {
        Some(v) => v,
        None => return None,
    };
    let author = match cell_opt_text(&row[7]) {
        Some(v) => v,
        None => return None,
    };
    let saved_at = match cell_opt_text(&row[8]) {
        Some(v) => v,
        None => return None,
    };
    let is_local = match cell_flag(&row[9]) {
        Some(v) => v,
        None => return None,
    };
    let p = Prompt {
        id,
        title,
        content,
        description,
        category,
        tags: Vec::new(),
        variables: Vec::new(),
        featured,
        version,
        author,
        saved_at,
        is_local,
    };
    assert(p@.tags =~= Seq::empty());
    assert(p@.variables =~= Seq::empty());
    Some(p)
}

/// The tag in a row: its first cell, a text.
pub open spec fn tag_in(row: Seq<CellView>) -> Option<Seq<char>> {
    if row.len() >= 1 {
        text_in(row[0])
    } else {
        None
    }
}

/// Reads the tag in `row`.
pub fn decode_tag(row: &Vec<Cell>) -> (out: Option<String>)
    ensures
        crate::text::opt_text(out) == tag_in(cell_views(row@)),
{
    if row.len() < 1 {
        return None;
    }
    assert(cell_views(row@)[0] == row@[0]@);
    cell_text(&row[0])
}

/// The variable in a row: name and kind as texts, the flag for a required
/// one, description and default as texts or null. A kind of an unknown name
/// is read as a text variable.
pub open spec fn variable_in(row: Seq<CellView>) -> Option<VariableView> {
    if row.len() >= 5 && text_in(row[0]) is Some && text_in(row[1]) is Some && flag_in(row[2])
        is Some && opt_text_in(row[3]) is Some && opt_text_in(row[4]) is Some {
        Some(
            VariableView {
                name: text_in(row[0]).unwrap(),
                var_type: var_type_named(text_in(row[1]).unwrap()),
                required: flag_in(row[2]).unwrap(),
                description: opt_text_in(row[3]).unwrap(),
                default: opt_text_in(row[4]).unwrap(),
            },
        )
    } else {
        None
    }
}

/// Reads the variable in `row`.
pub fn decode_variable(row: &Vec<Cell>) -> (out: Option<PromptVariable>)
    ensures
        match out {
            Some(v) => variable_in(cell_views(row@)) == Some(v@),
            None => variable_in(cell_views(row@)) is None,
        },
{
    if row.len() < 5 {
        return None;
    }
    let ghost cells = cell_views(row@);
    assert(forall|i: int| 0 <= i < row.len() ==> cells[i] == (#[trigger] row@[i])@);
    let name = match cell_text(&row[0]) {
        Some(v) => v,
        None => return None,
    };
    let kind = match cell_text(&row[1]) {
        Some(v) => v,
        None => return None,
    };
    let required = match cell_flag(&row[2]) {
        Some(v) => v,
        None => return None,
    };
    let description = match cell_opt_text(&row[3]) {
        Some(v) => v,
        None => return None,
    };
    let default = match cell_opt_text(&row[4]) {
        Some(v) => v,
        None => return None,
    };
    Some(
        PromptVariable {
            name,
            var_type: str_to_var_type(kind.as_str()),
            required,
            description,
            default,
        },
    )
}

/// The count in a row: a name as text, and a number that is not negative and
/// fits the machine's word.
pub open spec fn count_in(row: Seq<CellView>) -> Option<(Seq<char>, nat)> {
    if row.len() >= 2 && text_in(row[0]) is Some && integer_in(row[1]) is Some && 0 <= integer_in(
        row[1],
    ).unwrap() <= usize::MAX {
        Some((text_in(row[0]).unwrap(), integer_in(row[1]).unwrap() as nat))
    } else {
        None
    }
}

/// The number in a cell that holds a whole number which is not negative and
/// fits the machine's word.
pub open spec fn size_in(c: CellView) -> Option<nat> {
    match c {
        CellView::Integer(i) if 0 <= i <= usize::MAX => Some(i as nat),
        _ => None,
    }
}

/// Reads the number in `c`.
pub fn decode_size(c: &Cell) -> (out: Option<usize>)
    ensures
        match out {
            Some(n) => size_in(c@) == Some(n as nat),
            None => size_in(c@) is None,
        },
{
    match c {
        Cell::Integer(i) => {
            if *i >= 0 && (*i as u64) <= (usize::MAX as u64) {
                Some(*i as usize)
            } else {
                None
            }
        },
        _ => None,
    }
}

/// Reads the count in `row`.
pub fn decode_count(row: &Vec<Cell>) -> (out: Option<(String, usize)>)
    ensures
        match out {
            Some(c) => count_in(cell_views(row@)) == Some((c.0@, c.1 as nat)),
            None => count_in(cell_views(row@)) is None,
        },
{
    if row.len() < 2 {
        return None;
    }
    let ghost cells = cell_views(row@);
    assert(forall|i: int| 0 <= i < row.len() ==> cells[i] == (#[trigger] row@[i])@);
    let name = match cell_text(&row[0]) {
        Some(v) => v,
        None => return None,
    };
    let count = match decode_size(&row[1]) {
        Some(v) => v,
        None => return None,
    };
    Some((name, count))
}

/// The score of a match whose rank SQLite gives as `rank`: its negation, so
/// that a better match has the higher score. The one rank that has no
/// negation among the 64-bit numbers gets the highest score.
pub open spec fn score_of(rank: int) -> int {
    if rank == i64::MIN {
        i64::MAX as int
    } else {
        -rank
    }
}

/// The score of a match from its rank.
pub fn relevance(rank: i64) -> (score: i64)
    ensures
        score == score_of(rank as int),
{
    if rank == i64::MIN {
        i64::MAX
    } else {
        -rank
    }
}

/// The search hit in a row: a prompt as in `prompt_in`, and in the eleventh
/// cell its rank as a whole number, from which the score is made.
pub open spec fn hit_in(row: Seq<CellView>) -> Option<(PromptView, int)> {
    if row.len() >= 11 && prompt_in(row) is Some && integer_in(row[10]) is Some {
        Some((prompt_in(row).unwrap(), score_of(integer_in(row[10]).unwrap())))
    } else {
        None
    }
}

/// Reads the search hit in `row`.
pub fn decode_hit(row: &Vec<Cell>) -> (out: Option<(Prompt, i64)>)
    ensures
        match out {
            Some(h) => hit_in(cell_views(row@)) == Some((h.0@, h.1 as int)),
            None => hit_in(cell_views(row@)) is None,
        },
{
    if row.len() < 11 {
        return None;
    }
    assert(cell_views(row@)[10] == row@[10]@);
    let prompt = match decode_prompt(row) {
        Some(p) => p,
        None => return None,
    };
    match &row[10] {
        Cell::Integer(rank) => Some((prompt, relevance(*rank))),
        _ => None,
    }
}

} // verus!
