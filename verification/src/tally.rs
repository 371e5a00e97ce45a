//! Counting how often each name occurs in a list, and ranking the counts.

use crate::text::{
    lemma_less_asymmetric, lemma_less_irreflexive, lemma_less_total, lemma_less_transitive, less,
    text_less, texts,
};
use vstd::prelude::*;

verus! {

/// How often `name` occurs in `items`.
pub open spec fn occurrences(items: Seq<Seq<char>>, name: Seq<char>) -> nat
    decreases items.len(),
{
    if items.len() == 0 {
        0
    } else {
        occurrences(items.drop_last(), name) + if items.last() == name {
            1nat
        } else {
            0nat
        }
    }
}

/// A name occurs at most as often as there are items.
pub proof fn lemma_occurrences_bound(items: Seq<Seq<char>>, name: Seq<char>)
    ensures
        occurrences(items, name) <= items.len(),
    decreases items.len(),
{
    if items.len() > 0 {
        lemma_occurrences_bound(items.drop_last(), name);
    }
}

/// A name that is no item occurs zero times, and the other way round.
pub proof fn lemma_occurrences_zero(items: Seq<Seq<char>>, name: Seq<char>)
    ensures
        occurrences(items, name) == 0 <==> (forall|k: int| 0 <= k < items.len() ==> items[k] != name),
    decreases items.len(),
{
    if items.len() > 0 {
        let front = items.drop_last();
        lemma_occurrences_zero(front, name);
        if occurrences(items, name) == 0 {
            assert forall|k: int| 0 <= k < items.len() implies items[k] != name by {
                if k < front.len() {
                    assert(front[k] == items[k]);
                }
            }
        } else {
            if items.last() != name {
                let k = choose|k: int| 0 <= k < front.len() && front[k] == name;
                assert(items[k] == name);
            }
        }
    }
}

/// The plain values of a list of counts.
pub open spec fn count_views(v: Seq<(String, usize)>) -> Seq<(Seq<char>, nat)> {
    v.map_values(|e: (String, usize)| (e.0@, e.1 as nat))
}

/// Whether `out` is the tally of `items`: one entry for each name that
/// occurs, holding the number of its occurrences, the names in strictly
/// ascending order.
pub open spec fn is_tally(out: Seq<(Seq<char>, nat)>, items: Seq<Seq<char>>) -> bool {
    &&& forall|i: int|
        0 <= i < out.len() ==> (#[trigger] out[i]).1 == occurrences(items, out[i].0) && out[i].1
            > 0
    &&& forall|i: int, j: int|
        0 <= i < j < out.len() ==> text_less((#[trigger] out[i]).0, (#[trigger] out[j]).0)
    &&& forall|k: int|
        0 <= k < items.len() ==> exists|i: int|
            0 <= i < out.len() && (#[trigger] out[i]).0 == #[trigger] items[k]
}

/// Counts the occurrences of each name in `items`.
pub fn tally(items: &Vec<String>) -> (out: Vec<(String, usize)>)
    ensures
        is_tally(count_views(out@), texts(items@)),
{
    let ghost all = texts(items@);
    let mut names: Vec<String> = Vec::new();
    let mut counts: Vec<usize> = Vec::new();
    let mut i: usize = 0;
    while i < items.len()
        invariant
            i <= items.len(),
            all == texts(items@),
            names.len() == counts.len(),
            forall|a: int|
                0 <= a < names.len() ==> (#[trigger] counts@[a]) == occurrences(
                    all.take(i as int),
                    names@[a]@,
                ) && counts@[a] > 0,
            forall|a: int, b: int|
                0 <= a < b < names.len() ==> text_less(
                    (#[trigger] names@[a])@,
                    (#[trigger] names@[b])@,
                ),
            forall|k: int|
                0 <= k < i ==> exists|a: int|
                    0 <= a < names.len() && (#[trigger] names@[a])@ == #[trigger] all[k],
        decreases items.len() - i,
    {
        let item = &items[i];
        let ghost seen = all.take(i as int);
        let ghost next = all.take(i + 1);
        let ghost old_names = names@;
        let ghost old_counts = counts@;
        assert(next.drop_last() =~= seen);
        assert(next.last() == item@);
        let mut pos: usize = 0;
        while pos < names.len() && less(names[pos].as_str(), item.as_str())
            invariant
                pos <= names.len(),
                forall|a: int| 0 <= a < pos ==> text_less((#[trigger] names@[a])@, item@),
            decreases names.len() - pos,
        {
            pos += 1;
        }
        if pos < names.len() && names[pos] == *item {
            proof {
                lemma_occurrences_bound(seen, item@);
            }
            let bumped: usize = counts[pos] + 1;
            counts.set(pos, bumped);
            proof {
                assert forall|a: int| 0 <= a < names.len() implies (#[trigger] counts@[a])
                    == occurrences(next, names@[a]@) && counts@[a] > 0 by {
                    if a != pos {
                        assert(counts@[a] == old_counts[a]);
                        if a < pos {
                            lemma_less_irreflexive(item@);
                        } else {
                            lemma_less_irreflexive(item@);
                            assert(text_less(names@[pos as int]@, names@[a]@));
                        }
                    }
                }
                assert forall|k: int| 0 <= k < i + 1 implies exists|a: int|
                    0 <= a < names.len() && (#[trigger] names@[a])@ == #[trigger] all[k] by {
                    if k == i {
                        assert(names@[pos as int]@ == all[k]);
                    }
                }
            }
        } else {
            proof {
                // the item stands before every name from `pos` on, and is none of them
                assert forall|b: int| pos <= b < names.len() implies text_less(
                    item@,
                    (#[trigger] names@[b])@,
                ) by {
                    lemma_less_total(item@, names@[pos as int]@);
                    if b > pos {
                        lemma_less_transitive(item@, names@[pos as int]@, names@[b]@);
                    }
                }
                assert forall|k: int| 0 <= k < seen.len() implies seen[k] != item@ by {
                    let a = choose|a: int| 0 <= a < names.len() && (#[trigger] names@[a])@ == all[k];
                    if a < pos {
                        lemma_less_irreflexive(item@);
                    } else {
                        lemma_less_irreflexive(item@);
                    }
                }
                lemma_occurrences_zero(seen, item@);
            }
            names.insert(pos, item.clone());
            counts.insert(pos, 1);
            proof {
                assert forall|a: int| 0 <= a < names.len() implies (#[trigger] counts@[a])
                    == occurrences(next, names@[a]@) && counts@[a] > 0 by {
                    if a < pos {
                        assert(names@[a] == old_names[a] && counts@[a] == old_counts[a]);
                        lemma_less_irreflexive(item@);
                    } else if a > pos {
                        assert(names@[a] == old_names[a - 1] && counts@[a] == old_counts[a - 1]);
                        lemma_less_irreflexive(item@);
                    }
                }
                assert forall|a: int, b: int| 0 <= a < b < names.len() implies text_less(
                    (#[trigger] names@[a])@,
                    (#[trigger] names@[b])@,
                ) by {
                    let x = if a < pos {
                        a
                    } else {
                        a - 1
                    };
                    let y = if b < pos {
                        b
                    } else {
                        b - 1
                    };
                    if a != pos && b != pos {
                        assert(names@[a] == old_names[x] && names@[b] == old_names[y]);
                    } else if a == pos {
                        assert(names@[b] == old_names[y]);
                    } else {
                        assert(names@[a] == old_names[x]);
                    }
                }
                assert forall|k: int| 0 <= k < i + 1 implies exists|a: int|
                    0 <= a < names.len() && (#[trigger] names@[a])@ == #[trigger] all[k] by {
                    if k == i {
                        assert(names@[pos as int]@ == all[k]);
                    } else {
                        let a = choose|a: int|
                            0 <= a < old_names.len() && (#[trigger] old_names[a])@ == all[k];
                        if a < pos {
                            assert(names@[a] == old_names[a]);
                        } else {
                            assert(names@[a + 1] == old_names[a]);
                        }
                    }
                }
            }
        }
        i += 1;
    }
    assert(all.take(items.len() as int) =~= all);
    let mut out: Vec<(String, usize)> = Vec::new();
    let mut k: usize = 0;
    while k < names.len()
        invariant
            k <= names.len(),
            names.len() == counts.len(),
            out.len() == k,
            forall|a: int|
                0 <= a < k ==> (#[trigger] out@[a]).0@ == names@[a]@ && out@[a].1 == counts@[a],
        decreases names.len() - k,
    {
        out.push((names[k].clone(), counts[k]));
        k += 1;
    }
    proof {
        let views = count_views(out@);
        assert forall|a: int| 0 <= a < views.len() implies (#[trigger] views[a]).0 == names@[a]@
            && views[a].1 == counts@[a] by {
            assert(out@[a].0@ == names@[a]@);
        }
        assert forall|k: int| 0 <= k < all.len() implies exists|a: int|
            0 <= a < views.len() && (#[trigger] views[a]).0 == #[trigger] all[k] by {
            let a = choose|a: int| 0 <= a < names.len() && (#[trigger] names@[a])@ == all[k];
            assert(views[a].0 == all[k]);
        }
    }
    out
}

/// Whether the count `a` ranks before `b`: the larger number first, and of
/// equal numbers the name that comes first in dictionary order.
pub open spec fn ranks_before(a: (Seq<char>, nat), b: (Seq<char>, nat)) -> bool {
    a.1 > b.1 || (a.1 == b.1 && text_less(a.0, b.0))
}

/// Whether no entry of `out` ranks before one that stands earlier.
pub open spec fn is_ranked(out: Seq<(Seq<char>, nat)>) -> bool {
    forall|i: int, j: int|
        0 <= i < j < out.len() ==> !ranks_before(#[trigger] out[j], #[trigger] out[i])
}

/// Whether every entry of `out` ranks before every later one: the numbers
/// descend, and entries of equal number stand by name, strictly ascending.
pub open spec fn strictly_ranked(out: Seq<(Seq<char>, nat)>) -> bool {
    forall|i: int, j: int|
        0 <= i < j < out.len() ==> ranks_before(#[trigger] out[i], #[trigger] out[j])
}

/// Whether the count `a` ranks before `b`.
pub fn goes_before(a: &(String, usize), b: &(String, usize)) -> (before: bool)
    ensures
        before == ranks_before((a.0@, a.1 as nat), (b.0@, b.1 as nat)),
{
    a.1 > b.1 || (a.1 == b.1 && less(a.0.as_str(), b.0.as_str()))
}

/// `counts` in ranking order: by number, largest first, and by name where the
/// numbers are equal. The result holds the entries of `counts`, each as
/// often as `counts` does.
pub fn rank(counts: Vec<(String, usize)>) -> (out: Vec<(String, usize)>)
    ensures
        count_views(out@).to_multiset() == count_views(counts@).to_multiset(),
        is_ranked(count_views(out@)),
        distinct_names(count_views(counts@)) ==> strictly_ranked(count_views(out@)),
{
    let ghost all = count_views(counts@);
    assert(count_views(Seq::<(String, usize)>::empty()) + all =~= all);
    let mut rest = counts;
    let mut out: Vec<(String, usize)> = Vec::new();
    assert(count_views(out@) =~= Seq::empty());
    assert(count_views(out@).to_multiset().add(all.to_multiset()) =~= all.to_multiset()) by {
        broadcast use vstd::seq_lib::group_to_multiset_ensures;

    }
    while rest.len() > 0
        invariant
            count_views(out@).to_multiset().add(count_views(rest@).to_multiset())
                == all.to_multiset(),
            is_ranked(count_views(out@)),
            distinct_names(all) ==> distinct_names(count_views(out@) + count_views(rest@)),
        decreases rest.len(),
    {
        let ghost old_rest = count_views(rest@);
        let ghost old_out = count_views(out@);
        let entry = rest.pop().unwrap();
        let ghost e = (entry.0@, entry.1 as nat);
        assert(count_views(rest@) =~= old_rest.drop_last());
        assert(old_rest.last() == e);
        let mut pos: usize = 0;
        while pos < out.len() && !goes_before(&entry, &out[pos])
            invariant
                pos <= out.len(),
                old_out == count_views(out@),
                e == (entry.0@, entry.1 as nat),
                forall|a: int| 0 <= a < pos ==> !ranks_before(e, #[trigger] old_out[a]),
            decreases out.len() - pos,
        {
            assert(old_out[pos as int] == (out@[pos as int].0@, out@[pos as int].1 as nat));
            pos += 1;
        }
        proof {
            if pos < out.len() {
                assert(old_out[pos as int] == (out@[pos as int].0@, out@[pos as int].1 as nat));
            }
        }
        out.insert(pos, entry);
        proof {
            let new_out = count_views(out@);
            assert(new_out =~= old_out.insert(pos as int, e));
            assert forall|i: int, j: int| 0 <= i < j < new_out.len() implies !ranks_before(
                #[trigger] new_out[j],
                #[trigger] new_out[i],
            ) by {
                let x = if i < pos {
                    i
                } else {
                    i - 1
                };
                let y = if j < pos {
                    j
                } else {
                    j - 1
                };
                if i != pos && j != pos {
                    assert(new_out[i] == old_out[x] && new_out[j] == old_out[y]);
                } else if j == pos {
                    assert(new_out[i] == old_out[x]);
                } else {
                    // i == pos: the entry ranks before old_out[pos], which no later one precedes
                    assert(new_out[j] == old_out[y]);
                    let first = old_out[pos as int];
                    assert(ranks_before(e, first));
                    if y > pos {
                        assert(!ranks_before(old_out[y], first));
                    }
                    if ranks_before(old_out[y], e) {
                        lemma_ranks_transitive(old_out[y], e, first);
                        lemma_ranks_irreflexive(first);
                    }
                }
            }
            if distinct_names(all) {
                lemma_moved_keeps_distinct(old_out, old_rest, pos as int);
            }
            broadcast use vstd::seq_lib::group_to_multiset_ensures;

            assert(old_rest =~= old_rest.drop_last().push(e));
            assert(new_out.remove(pos as int) =~= old_out);
            assert(new_out[pos as int] == e);
            assert(new_out.to_multiset() =~= old_out.to_multiset().insert(e));
            assert(old_rest.to_multiset() =~= old_rest.drop_last().to_multiset().insert(e));
            assert(new_out.to_multiset().add(count_views(rest@).to_multiset())
                =~= old_out.to_multiset().add(old_rest.to_multiset()));
        }
    }
    proof {
        broadcast use vstd::seq_lib::group_to_multiset_ensures;

        assert(count_views(rest@) =~= Seq::empty());
        assert(count_views(out@).to_multiset().add(count_views(rest@).to_multiset())
            =~= count_views(out@).to_multiset());
        assert(count_views(out@) + count_views(rest@) =~= count_views(out@));
        if distinct_names(all) {
            lemma_ranked_distinct(count_views(out@));
        }
    }
    out
}

/// Whether no two entries of `counts` have the same name.
pub open spec fn distinct_names(counts: Seq<(Seq<char>, nat)>) -> bool {
    forall|i: int, j: int|
        0 <= i < counts.len() && 0 <= j < counts.len() && i != j ==> (#[trigger] counts[i]).0 != (
        #[trigger] counts[j]).0
}

/// Moving the last entry of `rest` to the place `pos` of `out` keeps the
/// names of the two lists together distinct.
proof fn lemma_moved_keeps_distinct(
    out: Seq<(Seq<char>, nat)>,
    rest: Seq<(Seq<char>, nat)>,
    pos: int,
)
    requires
        rest.len() > 0,
        0 <= pos <= out.len(),
        distinct_names(out + rest),
    ensures
        distinct_names(out.insert(pos, rest.last()) + rest.drop_last()),
{
    let before = out + rest;
    let after = out.insert(pos, rest.last()) + rest.drop_last();
    let from = |i: int|
        if i < pos {
            i
        } else if i == pos {
            before.len() - 1
        } else {
            i - 1
        };
    assert forall|i: int| 0 <= i < after.len() implies 0 <= from(i) < before.len() && after[i]
        == before[from(i)] by {}
    assert forall|i: int, j: int|
        0 <= i < after.len() && 0 <= j < after.len() && i != j implies (#[trigger] after[i]).0 != (
    #[trigger] after[j]).0 by {
        assert(from(i) != from(j));
        assert(after[i] == before[from(i)] && after[j] == before[from(j)]);
    }
}

/// Counts of distinct names of which none ranks before an earlier one stand
/// in strict ranking order.
pub proof fn lemma_ranked_distinct(out: Seq<(Seq<char>, nat)>)
    requires
        is_ranked(out),
        distinct_names(out),
    ensures
        strictly_ranked(out),
{
    assert forall|i: int, j: int| 0 <= i < j < out.len() implies ranks_before(
        #[trigger] out[i],
        #[trigger] out[j],
    ) by {
        lemma_ranks_total(out[i], out[j]);
    }
}

/// The names of a tally are distinct.
pub proof fn lemma_tally_distinct(out: Seq<(Seq<char>, nat)>, items: Seq<Seq<char>>)
    requires
        is_tally(out, items),
    ensures
        distinct_names(out),
{
    assert forall|i: int, j: int|
        0 <= i < out.len() && 0 <= j < out.len() && i != j implies (#[trigger] out[i]).0 != (
    #[trigger] out[j]).0 by {
        lemma_less_irreflexive(out[i].0);
        if i < j {
            assert(text_less(out[i].0, out[j].0));
        } else {
            assert(text_less(out[j].0, out[i].0));
        }
    }
}

/// The ranking order is transitive.
pub proof fn lemma_ranks_transitive(a: (Seq<char>, nat), b: (Seq<char>, nat), c: (Seq<char>, nat))
    requires
        ranks_before(a, b),
        ranks_before(b, c),
    ensures
        ranks_before(a, c),
{
    if a.1 == b.1 && b.1 == c.1 {
        lemma_less_transitive(a.0, b.0, c.0);
    }
}

/// No count ranks before itself.
pub proof fn lemma_ranks_irreflexive(a: (Seq<char>, nat))
    ensures
        !ranks_before(a, a),
{
    lemma_less_irreflexive(a.0);
}

/// Of two counts with different names one ranks before the other, and never
/// both.
pub proof fn lemma_ranks_total(a: (Seq<char>, nat), b: (Seq<char>, nat))
    requires
        a.0 != b.0,
    ensures
        ranks_before(a, b) != ranks_before(b, a),
{
    lemma_less_total(a.0, b.0);
    if text_less(a.0, b.0) {
        lemma_less_asymmetric(a.0, b.0);
    } else {
        lemma_less_asymmetric(b.0, a.0);
    }
}

} // verus!
