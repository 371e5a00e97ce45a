//! What an upsert means: the tables that the store keeps, as plain values,
//! the meaning of each write on them, and what follows for a whole upsert.
//!
//! The store itself rests on SQLite; that SQLite gives the statements of
//! `plan` the meaning written down here is what this model assumes. What is
//! proved is proved of the writes that `upsert_statements` renders.

use crate::storage::plan::{
    bulk_writes, tag_writes, tags_text, upsert_writes, variable_writes, Write,
};
use crate::types::prompt::{PromptView, VariableView};
use vstd::prelude::*;

verus! {

/// A row that belongs to a prompt.
pub struct Owned<T> {
    pub prompt_id: Seq<char>,
    pub item: T,
}

/// The search entry of a prompt: the texts in which a search looks, beside
/// the id.
pub struct IndexEntry {
    pub title: Seq<char>,
    pub description: Option<Seq<char>>,
    pub content: Seq<char>,
    pub tags_text: Seq<char>,
}

/// The tables of the store.
pub struct Stored {
    /// The row of each prompt, by id. A row holds neither tags nor variables.
    pub rows: Map<Seq<char>, PromptView>,
    /// The tags, in the order in which they were added.
    pub tags: Seq<Owned<Seq<char>>>,
    /// The variables, in the order in which they were added.
    pub variables: Seq<Owned<VariableView>>,
    /// The search entries.
    pub index: Seq<Owned<IndexEntry>>,
}

/// The row of a prompt: the prompt without its tags and variables.
pub open spec fn row_of(p: PromptView) -> PromptView {
    PromptView { tags: Seq::empty(), variables: Seq::empty(), ..p }
}

/// The search entry of a prompt. Its text of tags is made of the prompt's
/// tags and of nothing else.
pub open spec fn entry_of(p: PromptView) -> IndexEntry {
    IndexEntry {
        title: p.title,
        description: p.description,
        content: p.content,
        tags_text: tags_text(p.tags),
    }
}

/// The rows of `rows` that do not belong to the prompt `id`.
pub open spec fn without<T>(rows: Seq<Owned<T>>, id: Seq<char>) -> Seq<Owned<T>> {
    rows.filter(|r: Owned<T>| r.prompt_id != id)
}

/// What the rows of `rows` that belong to the prompt `id` hold, in their
/// order.
pub open spec fn items_of<T>(rows: Seq<Owned<T>>, id: Seq<char>) -> Seq<T> {
    rows.filter(|r: Owned<T>| r.prompt_id == id).map_values(|r: Owned<T>| r.item)
}

/// A row of the prompt `id` for each of `items`, in their order.
pub open spec fn owned_by<T>(id: Seq<char>, items: Seq<T>) -> Seq<Owned<T>> {
    Seq::new(items.len(), |i: int| Owned { prompt_id: id, item: items[i] })
}

/// The tables after one write.
pub open spec fn applied(s: Stored, write: Write) -> Stored {
    match write {
        Write::PutPrompt(p) => Stored { rows: s.rows.insert(p.id, row_of(p)), ..s },
        Write::ClearTags(id) => Stored { tags: without(s.tags, id), ..s },
        Write::AddTag(id, tag) => Stored {
            tags: s.tags.push(Owned { prompt_id: id, item: tag }),
            ..s
        },
        Write::ClearVariables(id) => Stored { variables: without(s.variables, id), ..s },
        Write::AddVariable(id, v) => Stored {
            variables: s.variables.push(Owned { prompt_id: id, item: v }),
            ..s
        },
        Write::ClearIndex(id) => Stored { index: without(s.index, id), ..s },
        Write::AddIndex(p) => Stored {
            index: s.index.push(Owned { prompt_id: p.id, item: entry_of(p) }),
            ..s
        },
    }
}

/// The tables after the writes `writes`, one after the other.
pub open spec fn applied_all(s: Stored, writes: Seq<Write>) -> Stored
    decreases writes.len(),
{
    if writes.len() == 0 {
        s
    } else {
        applied(applied_all(s, writes.drop_last()), writes.last())
    }
}

/// The prompt that the tables hold under `id`: its row, with the tags and
/// variables that belong to it, in the order in which they were added.
pub open spec fn stored_prompt(s: Stored, id: Seq<char>) -> Option<PromptView> {
    if s.rows.dom().contains(id) {
        Some(
            PromptView {
                tags: items_of(s.tags, id),
                variables: items_of(s.variables, id),
                ..s.rows[id]
            },
        )
    } else {
        None
    }
}

/// The tables after an upsert of `p`, said at once: the row of `p` stands
/// under its id; the tags, variables and search entries of other prompts are
/// as they were, and after them come those of `p`.
pub open spec fn upserted(s: Stored, p: PromptView) -> Stored {
    Stored {
        rows: s.rows.insert(p.id, row_of(p)),
        tags: without(s.tags, p.id) + owned_by(p.id, p.tags),
        variables: without(s.variables, p.id) + owned_by(p.id, p.variables),
        index: without(s.index, p.id).push(Owned { prompt_id: p.id, item: entry_of(p) }),
    }
}

/// A filter keeps a sequence whole where every item passes.
pub proof fn lemma_filter_all<A>(s: Seq<A>, keep: spec_fn(A) -> bool)
    requires
        forall|i: int| 0 <= i < s.len() ==> keep(#[trigger] s[i]),
    ensures
        s.filter(keep) == s,
    decreases s.len(),
{
    reveal(Seq::filter);
    if s.len() > 0 {
        lemma_filter_all(s.drop_last(), keep);
        assert(s.drop_last().push(s.last()) =~= s);
    }
}

/// A filter keeps nothing where no item passes.
pub proof fn lemma_filter_none<A>(s: Seq<A>, keep: spec_fn(A) -> bool)
    requires
        forall|i: int| 0 <= i < s.len() ==> !keep(#[trigger] s[i]),
    ensures
        s.filter(keep) == Seq::<A>::empty(),
    decreases s.len(),
{
    reveal(Seq::filter);
    if s.len() > 0 {
        lemma_filter_none(s.drop_last(), keep);
    } else {
        assert(s =~= Seq::<A>::empty());
    }
}

/// A filter after a filter keeps what passes both.
pub proof fn lemma_filter_twice<A>(s: Seq<A>, first: spec_fn(A) -> bool, second: spec_fn(A) -> bool)
    ensures
        s.filter(first).filter(second) == s.filter(|x: A| first(x) && second(x)),
    decreases s.len(),
{
    reveal(Seq::filter);
    let both = |x: A| first(x) && second(x);
    if s.len() > 0 {
        lemma_filter_twice(s.drop_last(), first, second);
        let front = s.drop_last().filter(first);
        if first(s.last()) {
            assert(front.push(s.last()).drop_last() =~= front);
        }
    }
}

/// Two filters that agree on every item keep the same.
pub proof fn lemma_filter_same<A>(s: Seq<A>, one: spec_fn(A) -> bool, other: spec_fn(A) -> bool)
    requires
        forall|i: int| 0 <= i < s.len() ==> one(#[trigger] s[i]) == other(s[i]),
    ensures
        s.filter(one) == s.filter(other),
    decreases s.len(),
{
    reveal(Seq::filter);
    if s.len() > 0 {
        lemma_filter_same(s.drop_last(), one, other);
    }
}

/// Every item that a filter keeps passes it.
pub proof fn lemma_filter_passes<A>(s: Seq<A>, keep: spec_fn(A) -> bool)
    ensures
        forall|i: int| 0 <= i < s.filter(keep).len() ==> keep(#[trigger] s.filter(keep)[i]),
    decreases s.len(),
{
    reveal(Seq::filter);
    if s.len() > 0 {
        lemma_filter_passes(s.drop_last(), keep);
    }
}

/// Where the rows of one prompt are taken away and new ones for it are put
/// at the end, the prompt has exactly the new ones, and taking the prompt's
/// rows away once more gives what the first time gave.
pub proof fn lemma_replaced<T>(rows: Seq<Owned<T>>, id: Seq<char>, items: Seq<T>)
    ensures
        items_of(without(rows, id) + owned_by(id, items), id) == items,
        without(without(rows, id) + owned_by(id, items), id) == without(rows, id),
{
    let rest = without(rows, id);
    let new = owned_by(id, items);
    let all = rest + new;
    let own = |r: Owned<T>| r.prompt_id == id;
    let others = |r: Owned<T>| r.prompt_id != id;
    lemma_filter_passes(rows, others);
    Seq::filter_distributes_over_add(rest, new, own);
    Seq::filter_distributes_over_add(rest, new, others);
    lemma_filter_none(rest, own);
    lemma_filter_all(new, own);
    lemma_filter_all(rest, others);
    lemma_filter_none(new, others);
    assert(all.filter(own) =~= new);
    assert(new.map_values(|r: Owned<T>| r.item) =~= items);
    assert(all.filter(others) =~= rest);
}

/// Where the rows of one prompt are taken away and new ones for it are put
/// at the end, every other prompt has what it had.
pub proof fn lemma_replaced_elsewhere<T>(
    rows: Seq<Owned<T>>,
    id: Seq<char>,
    items: Seq<T>,
    other: Seq<char>,
)
    requires
        other != id,
    ensures
        items_of(without(rows, id) + owned_by(id, items), other) == items_of(rows, other),
{
    let rest = without(rows, id);
    let new = owned_by(id, items);
    let all = rest + new;
    let others = |r: Owned<T>| r.prompt_id != id;
    let theirs = |r: Owned<T>| r.prompt_id == other;
    Seq::filter_distributes_over_add(rest, new, theirs);
    lemma_filter_none(new, theirs);
    lemma_filter_twice(rows, others, theirs);
    lemma_filter_same(rows, |r: Owned<T>| others(r) && theirs(r), theirs);
    assert(all.filter(theirs) =~= rows.filter(theirs));
}

/// One write after none.
pub proof fn lemma_applied_one(s: Stored, w: Write)
    ensures
        applied_all(s, seq![w]) == applied(s, w),
{
    reveal_with_fuel(applied_all, 2);
    assert(seq![w].drop_last() =~= Seq::<Write>::empty());
}

/// Writes one after the other: first those of `a`, then those of `b`.
pub proof fn lemma_applied_in_turn(s: Stored, a: Seq<Write>, b: Seq<Write>)
    ensures
        applied_all(s, a + b) == applied_all(applied_all(s, a), b),
    decreases b.len(),
{
    if b.len() == 0 {
        assert(a + b =~= a);
    } else {
        lemma_applied_in_turn(s, a, b.drop_last());
        assert((a + b).drop_last() =~= a + b.drop_last());
        assert((a + b).last() == b.last());
    }
}

/// The writes that add tags put their rows at the end of the tags, and leave
/// the rest as it is.
pub proof fn lemma_tags_added(s: Stored, id: Seq<char>, tags: Seq<Seq<char>>)
    ensures
        applied_all(s, tag_writes(id, tags)) == (Stored {
            tags: s.tags + owned_by(id, tags),
            ..s
        }),
    decreases tags.len(),
{
    let writes = tag_writes(id, tags);
    if tags.len() == 0 {
        assert(s.tags + owned_by(id, tags) =~= s.tags);
    } else {
        lemma_tags_added(s, id, tags.drop_last());
        assert(writes.drop_last() =~= tag_writes(id, tags.drop_last()));
        assert(writes.last() == Write::AddTag(id, tags.last()));
        assert((s.tags + owned_by(id, tags.drop_last())).push(
            Owned { prompt_id: id, item: tags.last() },
        ) =~= s.tags + owned_by(id, tags));
    }
}

/// The writes that add variables put their rows at the end of the
/// variables, and leave the rest as it is.
pub proof fn lemma_variables_added(s: Stored, id: Seq<char>, variables: Seq<VariableView>)
    ensures
        applied_all(s, variable_writes(id, variables)) == (Stored {
            variables: s.variables + owned_by(id, variables),
            ..s
        }),
    decreases variables.len(),
{
    let writes = variable_writes(id, variables);
    if variables.len() == 0 {
        assert(s.variables + owned_by(id, variables) =~= s.variables);
    } else {
        lemma_variables_added(s, id, variables.drop_last());
        assert(writes.drop_last() =~= variable_writes(id, variables.drop_last()));
        assert(writes.last() == Write::AddVariable(id, variables.last()));
        assert((s.variables + owned_by(id, variables.drop_last())).push(
            Owned { prompt_id: id, item: variables.last() },
        ) =~= s.variables + owned_by(id, variables));
    }
}

/// The writes of an upsert, one after the other, make of the tables what
/// `upserted` says at once.
pub proof fn lemma_upsert_is_upserted(s: Stored, p: PromptView)
    ensures
        applied_all(s, upsert_writes(p)) == upserted(s, p),
{
    let put = seq![Write::PutPrompt(p)];
    let clear_tags = seq![Write::ClearTags(p.id)];
    let tags = tag_writes(p.id, p.tags);
    let clear_variables = seq![Write::ClearVariables(p.id)];
    let variables = variable_writes(p.id, p.variables);
    let clear_index = seq![Write::ClearIndex(p.id)];
    let add_index = seq![Write::AddIndex(p)];
    let s1 = applied_all(s, put);
    lemma_applied_one(s, Write::PutPrompt(p));
    let s2 = applied_all(s1, clear_tags);
    lemma_applied_one(s1, Write::ClearTags(p.id));
    let s3 = applied_all(s2, tags);
    lemma_tags_added(s2, p.id, p.tags);
    let s4 = applied_all(s3, clear_variables);
    lemma_applied_one(s3, Write::ClearVariables(p.id));
    let s5 = applied_all(s4, variables);
    lemma_variables_added(s4, p.id, p.variables);
    let s6 = applied_all(s5, clear_index);
    lemma_applied_one(s5, Write::ClearIndex(p.id));
    let s7 = applied_all(s6, add_index);
    lemma_applied_one(s6, Write::AddIndex(p));
    let w1 = put;
    let w2 = w1 + clear_tags;
    let w3 = w2 + tags;
    let w4 = w3 + clear_variables;
    let w5 = w4 + variables;
    let w6 = w5 + clear_index;
    let w7 = w6 + add_index;
    lemma_applied_in_turn(s, w1, clear_tags);
    lemma_applied_in_turn(s, w2, tags);
    lemma_applied_in_turn(s, w3, clear_variables);
    lemma_applied_in_turn(s, w4, variables);
    lemma_applied_in_turn(s, w5, clear_index);
    lemma_applied_in_turn(s, w6, add_index);
    assert(upsert_writes(p) =~= w7);
    assert(s7 == upserted(s, p));
}

/// The search entries of `p` as rows that belong to it.
proof fn lemma_index_of_upserted(s: Stored, p: PromptView)
    ensures
        upserted(s, p).index == without(s.index, p.id) + owned_by(p.id, seq![entry_of(p)]),
{
    assert(owned_by(p.id, seq![entry_of(p)]) =~= seq![
        Owned { prompt_id: p.id, item: entry_of(p) },
    ]);
    assert(upserted(s, p).index =~= without(s.index, p.id) + owned_by(
        p.id,
        seq![entry_of(p)],
    ));
}

/// Replacement is complete. After an upsert of `p` the store holds under its
/// id exactly `p`: the tags and variables of `p`, in their order, and none
/// that it held before; and one search entry for it, made of `p`.
pub proof fn lemma_upsert_replaces(s: Stored, p: PromptView)
    ensures
        stored_prompt(applied_all(s, upsert_writes(p)), p.id) == Some(p),
        items_of(applied_all(s, upsert_writes(p)).index, p.id) == seq![entry_of(p)],
{
    lemma_upsert_is_upserted(s, p);
    let after = upserted(s, p);
    lemma_replaced(s.tags, p.id, p.tags);
    lemma_replaced(s.variables, p.id, p.variables);
    lemma_replaced(s.index, p.id, seq![entry_of(p)]);
    lemma_index_of_upserted(s, p);
    assert(after.rows.dom().contains(p.id));
    assert(after.rows[p.id] == row_of(p));
    assert(items_of(after.tags, p.id) == p.tags);
    assert(items_of(after.variables, p.id) == p.variables);
}

/// An upsert touches one prompt. What the store holds under any other id,
/// and the search entries of any other id, are after an upsert of `p` what
/// they were before.
pub proof fn lemma_upsert_keeps_others(s: Stored, p: PromptView, other: Seq<char>)
    requires
        other != p.id,
    ensures
        stored_prompt(applied_all(s, upsert_writes(p)), other) == stored_prompt(s, other),
        items_of(applied_all(s, upsert_writes(p)).index, other) == items_of(s.index, other),
{
    lemma_upsert_is_upserted(s, p);
    let after = upserted(s, p);
    lemma_replaced_elsewhere(s.tags, p.id, p.tags, other);
    lemma_replaced_elsewhere(s.variables, p.id, p.variables, other);
    lemma_replaced_elsewhere(s.index, p.id, seq![entry_of(p)], other);
    lemma_index_of_upserted(s, p);
    assert(items_of(after.tags, other) == items_of(s.tags, other));
    assert(items_of(after.variables, other) == items_of(s.variables, other));
    assert(items_of(after.index, other) == items_of(s.index, other));
    assert(after.rows.dom().contains(other) == s.rows.dom().contains(other));
}

/// Replacing the rows of a prompt a second time by the same rows changes
/// nothing.
pub proof fn lemma_replaced_again<T>(rows: Seq<Owned<T>>, id: Seq<char>, items: Seq<T>)
    ensures
        without(without(rows, id) + owned_by(id, items), id) + owned_by(id, items) == without(
            rows,
            id,
        ) + owned_by(id, items),
{
    lemma_replaced(rows, id, items);
}

/// The tables after an upsert are those after the same upsert twice.
proof fn lemma_upserted_twice(s: Stored, p: PromptView)
    ensures
        upserted(upserted(s, p), p) == upserted(s, p),
{
    let once = upserted(s, p);
    let twice = upserted(once, p);
    assert(twice.rows == once.rows) by {
        assert(once.rows.insert(p.id, row_of(p)) =~= once.rows);
    }
    assert(twice.tags == once.tags) by {
        lemma_replaced_again(s.tags, p.id, p.tags);
    }
    assert(twice.variables == once.variables) by {
        lemma_replaced_again(s.variables, p.id, p.variables);
    }
    assert(twice.index == once.index) by {
        lemma_replaced_again(s.index, p.id, seq![entry_of(p)]);
        lemma_index_of_upserted(s, p);
        lemma_index_of_upserted(once, p);
    }
}

/// An upsert is idempotent. The same upsert a second time leaves the tables
/// as the first left them.
pub proof fn lemma_upsert_idempotent(s: Stored, p: PromptView)
    ensures
        applied_all(applied_all(s, upsert_writes(p)), upsert_writes(p)) == applied_all(
            s,
            upsert_writes(p),
        ),
{
    lemma_upsert_is_upserted(s, p);
    lemma_upsert_is_upserted(upserted(s, p), p);
    lemma_upserted_twice(s, p);
}

/// Of two upserts under one id the later one wins: what the store holds
/// under the id is the later prompt, whatever the earlier one was.
pub proof fn lemma_later_upsert_wins(s: Stored, earlier: PromptView, later: PromptView)
    requires
        earlier.id == later.id,
    ensures
        stored_prompt(
            applied_all(applied_all(s, upsert_writes(earlier)), upsert_writes(later)),
            later.id,
        ) == Some(later),
{
    lemma_upsert_replaces(applied_all(s, upsert_writes(earlier)), later);
}

/// Upserts in bulk are upserts one after the other. After the upserts of
/// `prompts` the store holds each of them whole under its id, but for one
/// that a later prompt of the same id has replaced.
pub proof fn lemma_bulk_upsert_holds_each(s: Stored, prompts: Seq<PromptView>, i: int)
    requires
        0 <= i < prompts.len(),
        forall|j: int| i < j < prompts.len() ==> prompts[j].id != prompts[i].id,
    ensures
        stored_prompt(applied_all(s, bulk_writes(prompts)), prompts[i].id) == Some(prompts[i]),
    decreases prompts.len(),
{
    let front = prompts.drop_last();
    let before = applied_all(s, bulk_writes(front));
    lemma_applied_in_turn(s, bulk_writes(front), upsert_writes(prompts.last()));
    if i == prompts.len() - 1 {
        lemma_upsert_replaces(before, prompts.last());
    } else {
        assert(front[i] == prompts[i]);
        assert forall|j: int| i < j < front.len() implies front[j].id != front[i].id by {
            assert(front[j] == prompts[j]);
        }
        lemma_bulk_upsert_holds_each(s, front, i);
        lemma_upsert_keeps_others(before, prompts.last(), prompts[i].id);
    }
}

} // verus!
