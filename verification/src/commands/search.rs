//! Searching on behalf of a user: what is asked is checked first, and a
//! query that the search engine cannot read is tried once more as a phrase.

use crate::storage::checks::by_score;
use crate::storage::database::{Database, StoreError, StoreErrorKind, MAX_SEARCH_LIMIT};
use crate::text::{all_space, chars_of, is_blank};
use crate::types::prompt::Prompt;
use vstd::prelude::*;

verus! {

/// `query` with every double quote written twice.
pub open spec fn quotes_doubled(query: Seq<char>) -> Seq<char>
    decreases query.len(),
{
    if query.len() == 0 {
        Seq::empty()
    } else if query.last() == '"' {
        quotes_doubled(query.drop_last()).push('"').push('"')
    } else {
        quotes_doubled(query.drop_last()).push(query.last())
    }
}

/// `query` as a phrase of the query language: between double quotes, with
/// every double quote of its own written twice.
pub open spec fn escaped_query(query: Seq<char>) -> Seq<char> {
    seq!['"'] + quotes_doubled(query) + seq!['"']
}

/// `query` as a phrase, which the search engine takes word for word.
pub fn escape_fts_query(query: &str) -> (out: String)
    ensures
        out@ == escaped_query(query@),
{
    let chars = chars_of(query);
    let mut out = String::new();
    out.push('"');
    let mut i: usize = 0;
    assert(query@.take(0) =~= Seq::empty());
    assert(out@ =~= seq!['"'] + quotes_doubled(query@.take(0)));
    while i < chars.len()
        invariant
            i <= chars.len(),
            chars@ == query@,
            out@ == seq!['"'] + quotes_doubled(query@.take(i as int)),
        decreases chars.len() - i,
    {
        let ghost next = query@.take(i + 1);
        assert(next.drop_last() =~= query@.take(i as int));
        assert(next.last() == chars@[i as int]);
        let c = chars[i];
        if c == '"' {
            out.push('"');
            out.push('"');
            assert(out@ =~= seq!['"'] + quotes_doubled(next));
        } else {
            out.push(c);
            assert(out@ =~= seq!['"'] + quotes_doubled(next));
        }
        i += 1;
    }
    assert(query@.take(chars.len() as int) =~= query@);
    out.push('"');
    assert(out@ =~= escaped_query(query@));
    out
}

/// Why a search is not made.
#[derive(Debug, Clone, Copy, PartialEq, Eq, Structural)]
pub enum SearchRefusal {
    /// The limit is not between 1 and 100.
    InvalidLimit,
    /// The query holds nothing but white space.
    EmptyQuery,
}

/// Whether a search for `query` of at most `limit` prompts is made: the limit
/// must be between 1 and 100, and the query must hold more than white space.
/// Of two faults the limit is named.
pub fn check_search(query: &str, limit: usize) -> (out: Result<(), SearchRefusal>)
    ensures
        out == if !(1 <= limit <= MAX_SEARCH_LIMIT) {
            Err::<(), SearchRefusal>(SearchRefusal::InvalidLimit)
        } else if all_space(query@) {
            Err(SearchRefusal::EmptyQuery)
        } else {
            Ok(())
        },
{
    if limit == 0 || limit > MAX_SEARCH_LIMIT {
        Err(SearchRefusal::InvalidLimit)
    } else if is_blank(query) {
        Err(SearchRefusal::EmptyQuery)
    } else {
        Ok(())
    }
}

/// Searches for `query`, and where that fails, once more for `query` as a
/// phrase. Where both fail, the failure of the first is handed on.
pub fn search_with_retry(db: &Database, query: &str, limit: usize) -> (out: Result<
    Vec<(Prompt, i64)>,
    StoreError,
>)
    requires
        1 <= limit <= MAX_SEARCH_LIMIT,
    ensures
        match out {
            Ok(v) => v.len() <= limit && by_score(v@),
            Err(e) => e.kind == StoreErrorKind::SearchSyntax || e.kind == StoreErrorKind::Read,
        },
{
    match db.search(query, limit) {
        Ok(hits) => Ok(hits),
        Err(first) => {
            let phrase = escape_fts_query(query);
            match db.search(phrase.as_str(), limit) {
                Ok(hits) => Ok(hits),
                Err(_) => Err(first),
            }
        },
    }
}

/// Why a search on behalf of a user failed.
#[derive(Debug)]
pub enum SearchFailure {
    /// The search was not made.
    Refused(SearchRefusal),
    /// The store failed.
    Store(StoreError),
}

/// Checks what is asked as `check_search` does, and then searches as
/// `search_with_retry` does.
pub fn search_checked(db: &Database, query: &str, limit: usize) -> (out: Result<
    Vec<(Prompt, i64)>,
    SearchFailure,
>)
    ensures
        match out {
            Ok(v) => 1 <= limit <= MAX_SEARCH_LIMIT && !all_space(query@) && v.len() <= limit
                && by_score(v@),
            Err(SearchFailure::Refused(r)) => r == if !(1 <= limit <= MAX_SEARCH_LIMIT) {
                SearchRefusal::InvalidLimit
            } else {
                SearchRefusal::EmptyQuery
            } && (!(1 <= limit <= MAX_SEARCH_LIMIT) || all_space(query@)),
            Err(SearchFailure::Store(e)) => 1 <= limit <= MAX_SEARCH_LIMIT && !all_space(query@)
                && (e.kind == StoreErrorKind::SearchSyntax || e.kind == StoreErrorKind::Read),
        },
{
    if let Err(refusal) = check_search(query, limit) {
        return Err(SearchFailure::Refused(refusal));
    }
    match search_with_retry(db, query, limit) {
        Ok(hits) => Ok(hits),
        Err(e) => Err(SearchFailure::Store(e)),
    }
}

} // verus!
