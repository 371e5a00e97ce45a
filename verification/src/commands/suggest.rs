//! Why a prompt is suggested for a task.

use crate::text::{
    byte_len, contains, join, joined, lowercase, lowered, occurs_in, opt_text, text_words, texts,
    words,
};
use vstd::prelude::*;
use vstd::string::{StringExecFns, StringSliceAdditionalSpecFns};

verus! {

/// What is said where no word of the task is found in the prompt.
pub const NO_REASON: &'static str = "Related to your task keywords";

/// Whether `word` counts in `text`: it has more than two bytes and stands in
/// the text.
pub open spec fn counts_in(text: Seq<char>, word: Seq<char>) -> bool {
    occurs_in(text, word) && byte_len(word) > 2
}

/// The first of `words` that counts in `text`.
pub open spec fn first_counting(text: Seq<char>, words: Seq<Seq<char>>) -> Option<Seq<char>>
    decreases words.len(),
{
    if words.len() == 0 {
        None
    } else if counts_in(text, words[0]) {
        Some(words[0])
    } else {
        first_counting(text, words.drop_first())
    }
}

/// Whether `tag`, in small letters, and one of `words` are alike: one stands
/// in the other.
pub open spec fn tag_is_like(tag: Seq<char>, words: Seq<Seq<char>>) -> bool {
    exists|i: int|
        0 <= i < words.len() && (occurs_in(lowered(tag), #[trigger] words[i]) || occurs_in(
            words[i],
            lowered(tag),
        ))
}

/// `before`, `text` and a closing quote.
pub open spec fn quoted(before: Seq<char>, text: Seq<char>) -> Seq<char> {
    before + text + "'"@
}

/// A reason for each of `tags` that is like one of `words`, in the tags'
/// order.
pub open spec fn tag_reasons(tags: Seq<Seq<char>>, words: Seq<Seq<char>>) -> Seq<Seq<char>>
    decreases tags.len(),
{
    if tags.len() == 0 {
        Seq::empty()
    } else if tag_is_like(tags.last(), words) {
        tag_reasons(tags.drop_last(), words).push(quoted("tagged as '"@, tags.last()))
    } else {
        tag_reasons(tags.drop_last(), words)
    }
}

/// The reason that the title gives: the first word of the task that counts
/// in it.
pub open spec fn title_reasons(title: Seq<char>, words: Seq<Seq<char>>) -> Seq<Seq<char>> {
    match first_counting(lowered(title), words) {
        Some(w) => seq![quoted("title contains '"@, w)],
        None => Seq::empty(),
    }
}

/// The reason that the description gives, where there is one: the first word
/// of the task that counts in it.
pub open spec fn description_reasons(description: Option<Seq<char>>, words: Seq<Seq<char>>) -> Seq<
    Seq<char>,
> {
    match description {
        Some(d) => match first_counting(lowered(d), words) {
            Some(w) => seq![quoted("description mentions '"@, w)],
            None => Seq::empty(),
        },
        None => Seq::empty(),
    }
}

/// The reasons for which a prompt is suggested for the task of the words
/// `words`: that of its title, that of its description, those of its tags.
pub open spec fn reasons(
    title: Seq<char>,
    description: Option<Seq<char>>,
    tags: Seq<Seq<char>>,
    words: Seq<Seq<char>>,
) -> Seq<Seq<char>> {
    title_reasons(title, words) + description_reasons(description, words) + tag_reasons(
        tags,
        words,
    )
}

/// The reasons in one text, with a semicolon between each two; where there
/// is none, the general one.
pub open spec fn reason_text(reasons: Seq<Seq<char>>) -> Seq<char> {
    if reasons.len() == 0 {
        NO_REASON@
    } else {
        joined(reasons, "; "@)
    }
}

/// The first of `words` that counts in `text`.
fn find_counting<'a>(text: &str, words: &'a Vec<String>) -> (found: Option<&'a String>)
    ensures
        match found {
            Some(w) => first_counting(text@, texts(words@)) == Some(w@),
            None => first_counting(text@, texts(words@)) is None,
        },
{
    let ghost all = texts(words@);
    let mut i: usize = 0;
    assert(all.skip(0) =~= all);
    while i < words.len()
        invariant
            i <= words.len(),
            all == texts(words@),
            first_counting(text@, all) == first_counting(text@, all.skip(i as int)),
        decreases words.len() - i,
    {
        let ghost rest = all.skip(i as int);
        assert(rest[0] == words@[i as int]@);
        let word = &words[i];
        if contains(text, word.as_str()) && word.as_str().as_bytes().len() > 2 {
            return Some(word);
        }
        assert(rest.drop_first() =~= all.skip(i + 1));
        i += 1;
    }
    None
}

/// Whether `tag` and one of `words` are alike.
fn is_like(tag: &str, words: &Vec<String>) -> (like: bool)
    ensures
        like == tag_is_like(tag@, texts(words@)),
{
    let ghost all = texts(words@);
    let small = lowercase(tag);
    let mut i: usize = 0;
    while i < words.len()
        invariant
            i <= words.len(),
            all == texts(words@),
            small@ == lowered(tag@),
            forall|k: int|
                0 <= k < i ==> !(occurs_in(lowered(tag@), #[trigger] all[k]) || occurs_in(
                    all[k],
                    lowered(tag@),
                )),
        decreases words.len() - i,
    {
        assert(all[i as int] == words@[i as int]@);
        if contains(small.as_str(), words[i].as_str()) || contains(
            words[i].as_str(),
            small.as_str(),
        ) {
            return true;
        }
        i += 1;
    }
    false
}

fn quote(before: &str, text: &str) -> (out: String)
    ensures
        out@ == quoted(before@, text@),
{
    let mut out = before.to_string();
    out.append(text);
    out.append("'");
    out
}

/// Why the prompt with this title, description and tags is suggested for
/// `task`. The words of the task are looked for in small letters: the first
/// of more than two bytes that stands in the title, the first such in the
/// description, and every tag that stands in a word or has a word standing
/// in it. Where nothing is found, the general reason is given.
pub fn generate_reason(title: &str, description: &Option<String>, tags: &Vec<String>, task: &str) -> (out:
    String)
    ensures
        out@ == reason_text(
            reasons(title@, opt_text(*description), texts(tags@), text_words(lowered(task@))),
        ),
{
    let task_lower = lowercase(task);
    let task_words = words(task_lower.as_str());
    let ghost ws = texts(task_words@);
    let mut found: Vec<String> = Vec::new();
    assert(texts(found@) =~= Seq::empty());

    let title_lower = lowercase(title);
    match find_counting(title_lower.as_str(), &task_words) {
        Some(word) => {
            found.push(quote("title contains '", word.as_str()));
            assert(texts(found@) =~= title_reasons(title@, ws));
        },
        None => {
            assert(texts(found@) =~= title_reasons(title@, ws));
        },
    }
    let ghost after_title = found@;
    match description {
        Some(d) => {
            let d_lower = lowercase(d.as_str());
            match find_counting(d_lower.as_str(), &task_words) {
                Some(word) => {
                    found.push(quote("description mentions '", word.as_str()));
                    assert(texts(found@) =~= texts(after_title) + description_reasons(
                        opt_text(*description),
                        ws,
                    ));
                },
                None => {
                    assert(texts(found@) =~= texts(after_title) + description_reasons(
                        opt_text(*description),
                        ws,
                    ));
                },
            }
        },
        None => {
            assert(texts(found@) =~= texts(after_title) + description_reasons(
                opt_text(*description),
                ws,
            ));
        },
    }
    let ghost head = texts(found@);
    let ghost all_tags = texts(tags@);
    let mut i: usize = 0;
    assert(all_tags.take(0) =~= Seq::empty());
    assert(texts(found@) =~= head + tag_reasons(all_tags.take(0), ws));
    while i < tags.len()
        invariant
            i <= tags.len(),
            all_tags == texts(tags@),
            ws == texts(task_words@),
            texts(found@) == head + tag_reasons(all_tags.take(i as int), ws),
        decreases tags.len() - i,
    {
        let ghost next = all_tags.take(i + 1);
        assert(next.drop_last() =~= all_tags.take(i as int));
        assert(next.last() == tags@[i as int]@);
        let ghost before = found@;
        if is_like(tags[i].as_str(), &task_words) {
            found.push(quote("tagged as '", tags[i].as_str()));
            assert(texts(found@) =~= texts(before).push(quoted("tagged as '"@, tags@[i as int]@)));
            assert(texts(found@) =~= head + tag_reasons(next, ws));
        }
        i += 1;
    }
    assert(all_tags.take(tags.len() as int) =~= all_tags);
    assert(texts(found@).len() == found@.len());
    if found.len() == 0 {
        NO_REASON.to_string()
    } else {
        join(&found, "; ")
    }
}

} // verus!
