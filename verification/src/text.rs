//! Text helpers. Every contract here speaks of a string through its view, the
//! sequence of its characters.

use vstd::prelude::*;
use vstd::std_specs::iter::IteratorSpec;
use vstd::string::StringExecFns;

verus! {

/// `str`'s `==` of the standard library: two strings are equal exactly when
/// they hold the same characters. Trusted.
pub assume_specification[ <str as PartialEq>::eq ](a: &str, b: &str) -> (same: bool)
    ensures
        same == (a@ == b@),
;

/// `String::push` of the standard library: the character is appended. Trusted.
pub assume_specification[ String::push ](s: &mut String, c: char)
    ensures
        final(s)@ == old(s)@.push(c),
;

/// `str::eq_ignore_ascii_case` of the standard library: equality after the
/// letters `A` to `Z` of both sides are replaced by `a` to `z`. Trusted.
pub assume_specification[ str::eq_ignore_ascii_case ](a: &str, b: &str) -> (same: bool)
    ensures
        same == (ascii_fold(a@) == ascii_fold(b@)),
;

/// `c` with an ASCII capital replaced by its small letter.
pub open spec fn ascii_lower(c: char) -> char {
    if 'A' <= c && c <= 'Z' {
        ((c as u8 + 32) as u8) as char
    } else {
        c
    }
}

/// `s` with every ASCII capital replaced by its small letter.
pub open spec fn ascii_fold(s: Seq<char>) -> Seq<char> {
    s.map_values(|c: char| ascii_lower(c))
}

/// The views of a sequence of strings.
pub open spec fn texts(v: Seq<String>) -> Seq<Seq<char>> {
    v.map_values(|s: String| s@)
}

/// The view of an optional string.
pub open spec fn opt_text(o: Option<String>) -> Option<Seq<char>> {
    match o {
        Some(s) => Some(s@),
        None => None,
    }
}

/// The characters of `s`, in order.
pub fn chars_of(s: &str) -> (out: Vec<char>)
    ensures
        out@ == s@,
{
    let mut out: Vec<char> = Vec::new();
    for c in it: s.chars()
        invariant
            out@ == it.seq().take(it.index()),
            it.seq() == s@,
    {
        out.push(c);
    }
    out
}

/// The string made of `chars[from..to]`.
pub fn text_of_range(chars: &Vec<char>, from: usize, to: usize) -> (out: String)
    requires
        from <= to <= chars.len(),
    ensures
        out@ == chars@.subrange(from as int, to as int),
{
    let mut out = String::new();
    let mut i: usize = from;
    while i < to
        invariant
            from <= i <= to <= chars.len(),
            out@ == chars@.subrange(from as int, i as int),
        decreases to - i,
    {
        out.push(chars[i]);
        assert(chars@.subrange(from as int, i as int).push(chars@[i as int]) =~= chars@.subrange(
            from as int,
            i + 1,
        ));
        i += 1;
    }
    out
}

/// A copy of an optional string.
pub fn clone_opt(o: &Option<String>) -> (out: Option<String>)
    ensures
        opt_text(out) == opt_text(*o),
{
    match o {
        Some(s) => Some(s.clone()),
        None => None,
    }
}

/// A copy of a list of strings.
pub fn clone_texts(v: &Vec<String>) -> (out: Vec<String>)
    ensures
        texts(out@) == texts(v@),
{
    let mut out: Vec<String> = Vec::new();
    let mut i: usize = 0;
    while i < v.len()
        invariant
            i <= v.len(),
            texts(out@) == texts(v@.take(i as int)),
        decreases v.len() - i,
    {
        let ghost before = out@;
        out.push(v[i].clone());
        assert(texts(out@) =~= texts(before).push(v@[i as int]@));
        assert(texts(v@.take(i + 1)) =~= texts(v@.take(i as int)).push(v@[i as int]@));
        i += 1;
    }
    assert(v@.take(v.len() as int) =~= v@);
    out
}

/// `parts` with `sep` between each two neighbours.
pub open spec fn joined(parts: Seq<Seq<char>>, sep: Seq<char>) -> Seq<char>
    decreases parts.len(),
{
    if parts.len() == 0 {
        Seq::empty()
    } else if parts.len() == 1 {
        parts[0]
    } else {
        joined(parts.drop_last(), sep) + sep + parts.last()
    }
}

/// Joins `parts` with `sep` between them.
pub fn join(parts: &Vec<String>, sep: &str) -> (out: String)
    ensures
        out@ == joined(texts(parts@), sep@),
{
    let mut out = String::new();
    let mut i: usize = 0;
    while i < parts.len()
        invariant
            i <= parts.len(),
            out@ == joined(texts(parts@).take(i as int), sep@),
        decreases parts.len() - i,
    {
        let ghost before = texts(parts@).take(i as int);
        let ghost after = texts(parts@).take(i + 1);
        assert(after.drop_last() =~= before);
        assert(after.last() == parts@[i as int]@);
        if i > 0 {
            out.append(sep);
        } else {
            assert(out@ + parts@[i as int]@ =~= parts@[i as int]@);
        }
        out.append(parts[i].as_str());
        i += 1;
    }
    assert(texts(parts@).take(parts.len() as int) =~= texts(parts@));
    out
}

/// Whether `needle` stands in `hay` at position `i`.
pub open spec fn occurs_at(hay: Seq<char>, needle: Seq<char>, i: int) -> bool {
    0 <= i && i + needle.len() <= hay.len() && hay.subrange(i, i + needle.len()) == needle
}

/// Whether `needle` stands somewhere in `hay`.
pub open spec fn occurs_in(hay: Seq<char>, needle: Seq<char>) -> bool {
    exists|i: int| occurs_at(hay, needle, i)
}

/// Whether `needle` stands in `hay` at position `at`.
pub fn matches_at(hay: &Vec<char>, needle: &Vec<char>, at: usize) -> (found: bool)
    requires
        at <= hay.len(),
    ensures
        found == occurs_at(hay@, needle@, at as int),
{
    if needle.len() > hay.len() - at {
        return false;
    }
    let mut k: usize = 0;
    while k < needle.len()
        invariant
            k <= needle.len(),
            at + needle.len() <= hay.len(),
            hay@.subrange(at as int, at + k) == needle@.take(k as int),
        decreases needle.len() - k,
    {
        if hay[at + k] != needle[k] {
            assert(hay@.subrange(at as int, at + needle.len())[k as int] != needle@[k as int]);
            return false;
        }
        assert(hay@.subrange(at as int, at + k + 1) =~= hay@.subrange(at as int, at + k).push(
            hay@[at + k],
        ));
        assert(needle@.take(k + 1) =~= needle@.take(k as int).push(needle@[k as int]));
        k += 1;
    }
    assert(needle@.take(needle.len() as int) =~= needle@);
    true
}

/// Whether `needle` stands somewhere in `hay`. The empty text stands in every
/// text.
pub fn contains(hay: &str, needle: &str) -> (found: bool)
    ensures
        found == occurs_in(hay@, needle@),
{
    let h = chars_of(hay);
    let n = chars_of(needle);
    let mut i: usize = 0;
    while i < h.len()
        invariant
            i <= h.len(),
            h@ == hay@,
            n@ == needle@,
            forall|j: int| 0 <= j < i ==> !occurs_at(hay@, needle@, j),
        decreases h.len() - i,
    {
        if matches_at(&h, &n, i) {
            return true;
        }
        i += 1;
    }
    matches_at(&h, &n, i)
}

/// The number of characters before the first line feed of `s`, or the
/// length of `s` where it has none.
pub open spec fn line_end(s: Seq<char>) -> nat
    decreases s.len(),
{
    if s.len() == 0 || s[0] == '\n' {
        0
    } else {
        1 + line_end(s.drop_first())
    }
}

/// `line` without the carriage return at its end, where it has one.
pub open spec fn without_return(line: Seq<char>) -> Seq<char> {
    if line.len() > 0 && line.last() == '\r' {
        line.drop_last()
    } else {
        line
    }
}

/// The lines of `s`, as the standard library splits them: a line ends at a
/// line feed, or at a carriage return and a line feed, and neither belongs to
/// the line. The last line needs no end, and an end is followed by no empty
/// line.
pub open spec fn text_lines(s: Seq<char>) -> Seq<Seq<char>>
    decreases s.len(),
{
    if s.len() == 0 {
        Seq::empty()
    } else {
        let k = line_end(s) as int;
        if k >= s.len() {
            seq![s]
        } else {
            seq![without_return(s.take(k))] + text_lines(s.skip(k + 1))
        }
    }
}

/// Where `s` has no line feed before position `k`, and ends or has one
/// there, its first line ends at `k`.
pub proof fn lemma_line_end(s: Seq<char>, k: int)
    requires
        0 <= k <= s.len(),
        forall|t: int| 0 <= t < k ==> s[t] != '\n',
        k == s.len() || s[k] == '\n',
    ensures
        line_end(s) == k,
    decreases k,
{
    if k > 0 {
        lemma_line_end(s.drop_first(), k - 1);
    }
}

/// The lines of `s`.
pub fn lines(s: &str) -> (out: Vec<String>)
    ensures
        texts(out@) == text_lines(s@),
{
    let chars = chars_of(s);
    let mut out: Vec<String> = Vec::new();
    let mut start: usize = 0;
    assert(s@.skip(0) =~= s@);
    assert(texts(out@) + text_lines(s@) =~= text_lines(s@));
    while start < chars.len()
        invariant
            start <= chars.len(),
            chars@ == s@,
            text_lines(s@) == texts(out@) + text_lines(s@.skip(start as int)),
        decreases chars.len() - start,
    {
        let ghost rest = s@.skip(start as int);
        let ghost before = out@;
        let mut end: usize = start;
        while end < chars.len() && chars[end] != '\n'
            invariant
                start <= end <= chars.len(),
                forall|t: int| start <= t < end ==> chars@[t] != '\n',
            decreases chars.len() - end,
        {
            end += 1;
        }
        proof {
            lemma_line_end(rest, end - start);
        }
        if end == chars.len() {
            out.push(text_of_range(&chars, start, end));
            proof {
                assert(chars@.subrange(start as int, end as int) =~= rest);
                assert(texts(out@) =~= texts(before).push(rest));
                assert(s@.skip(end as int) =~= Seq::empty());
                assert(texts(before) + seq![rest] =~= texts(out@) + text_lines(
                    s@.skip(end as int),
                ));
            }
            start = end;
        } else {
            let stop = if end > start && chars[end - 1] == '\r' {
                end - 1
            } else {
                end
            };
            out.push(text_of_range(&chars, start, stop));
            proof {
                let line = rest.take(end - start);
                assert(line =~= chars@.subrange(start as int, end as int));
                assert(chars@.subrange(start as int, stop as int) =~= without_return(line));
                assert(texts(out@) =~= texts(before).push(without_return(line)));
                assert(rest.skip(end - start + 1) =~= s@.skip(end + 1));
                assert(texts(before) + (seq![without_return(line)] + text_lines(
                    s@.skip(end + 1),
                )) =~= texts(out@) + text_lines(s@.skip(end + 1)));
            }
            start = end + 1;
        }
    }
    assert(s@.skip(chars.len() as int) =~= Seq::empty());
    assert(texts(out@) + text_lines(s@.skip(start as int)) =~= texts(out@));
    out
}

/// `text` with every occurrence of `needle` replaced by `with`, from left to
/// right, an occurrence that overlaps an earlier one not counted. An empty
/// needle occurs nowhere.
pub open spec fn replaced(text: Seq<char>, needle: Seq<char>, with: Seq<char>) -> Seq<char>
    decreases text.len(),
{
    if needle.len() == 0 || text.len() < needle.len() {
        text
    } else if text.take(needle.len() as int) == needle {
        with + replaced(text.skip(needle.len() as int), needle, with)
    } else {
        seq![text[0]] + replaced(text.drop_first(), needle, with)
    }
}

/// `text` with every occurrence of `needle` replaced by `with`.
pub fn replace_all(text: &str, needle: &str, with: &str) -> (out: String)
    ensures
        out@ == replaced(text@, needle@, with@),
{
    let t = chars_of(text);
    let n = chars_of(needle);
    if n.len() == 0 {
        return text.to_string();
    }
    let mut out = String::new();
    let mut i: usize = 0;
    assert(text@.skip(0) =~= text@);
    assert(out@ + replaced(text@, needle@, with@) =~= replaced(text@, needle@, with@));
    while i < t.len()
        invariant
            i <= t.len(),
            t@ == text@,
            n@ == needle@,
            n.len() > 0,
            replaced(text@, needle@, with@) == out@ + replaced(
                text@.skip(i as int),
                needle@,
                with@,
            ),
        decreases t.len() - i,
    {
        let ghost rest = text@.skip(i as int);
        let ghost before = out@;
        if matches_at(&t, &n, i) {
            assert(rest.take(n.len() as int) =~= t@.subrange(i as int, i + n.len()));
            out.append(with);
            assert(rest.skip(n.len() as int) =~= text@.skip(i + n.len()));
            assert(before + (with@ + replaced(text@.skip(i + n.len()), needle@, with@)) =~= out@
                + replaced(text@.skip(i + n.len()), needle@, with@));
            i += n.len();
        } else {
            proof {
                if rest.len() >= n.len() {
                    assert(rest.take(n.len() as int) =~= t@.subrange(i as int, i + n.len()));
                }
            }
            if t.len() - i < n.len() {
                // too short for another occurrence: the rest stays as it is
                let tail = text_of_range(&t, i, t.len());
                assert(t@.subrange(i as int, t.len() as int) =~= rest);
                out.append(tail.as_str());
                assert(text@.skip(t.len() as int) =~= Seq::<char>::empty());
                assert(before + rest =~= out@ + replaced(
                    text@.skip(t.len() as int),
                    needle@,
                    with@,
                ));
                i = t.len();
            } else {
                out.push(t[i]);
                assert(rest.drop_first() =~= text@.skip(i + 1));
                assert(before + (seq![rest[0]] + replaced(text@.skip(i + 1), needle@, with@))
                    =~= out@ + replaced(text@.skip(i + 1), needle@, with@));
                i += 1;
            }
        }
    }
    assert(text@.skip(t.len() as int) =~= Seq::<char>::empty());
    assert(out@ + replaced(text@.skip(i as int), needle@, with@) =~= out@);
    out
}

/// The first `count` characters of `text`, or all of them where there are no
/// more.
pub fn first_chars(text: &str, count: usize) -> (out: String)
    ensures
        out@ == if count < text@.len() {
            text@.take(count as int)
        } else {
            text@
        },
{
    let chars = chars_of(text);
    if count < chars.len() {
        let out = text_of_range(&chars, 0, count);
        assert(chars@.subrange(0, count as int) =~= text@.take(count as int));
        out
    } else {
        text.to_string()
    }
}

/// A text in which `needle` does not occur is left as it is.
pub proof fn lemma_replaced_without(text: Seq<char>, needle: Seq<char>, with: Seq<char>)
    requires
        !occurs_in(text, needle),
    ensures
        replaced(text, needle, with) == text,
    decreases text.len(),
{
    if needle.len() > 0 && text.len() >= needle.len() {
        assert(!occurs_at(text, needle, 0));
        assert(text.subrange(0, needle.len() as int) =~= text.take(needle.len() as int));
        let rest = text.drop_first();
        assert forall|i: int| !occurs_at(rest, needle, i) by {
            if occurs_at(rest, needle, i) {
                assert(rest.subrange(i, i + needle.len()) =~= text.subrange(
                    i + 1,
                    i + 1 + needle.len(),
                ));
                assert(occurs_at(text, needle, i + 1));
            }
        }
        lemma_replaced_without(rest, needle, with);
        assert(seq![text[0]] + rest =~= text);
    }
}

/// The views of a list of pairs of texts.
pub open spec fn pair_views(pairs: Seq<(String, String)>) -> Seq<(Seq<char>, Seq<char>)> {
    pairs.map_values(|e: (String, String)| (e.0@, e.1@))
}

/// What `pairs` holds for `key`: the second part of the first pair whose
/// first part is `key`.
pub open spec fn looked_up(pairs: Seq<(Seq<char>, Seq<char>)>, key: Seq<char>) -> Option<
    Seq<char>,
>
    decreases pairs.len(),
{
    if pairs.len() == 0 {
        None
    } else if pairs[0].0 == key {
        Some(pairs[0].1)
    } else {
        looked_up(pairs.drop_first(), key)
    }
}

/// What `pairs` holds for `key`.
pub fn look_up<'a>(pairs: &'a Vec<(String, String)>, key: &str) -> (found: Option<&'a String>)
    ensures
        match found {
            Some(t) => looked_up(pair_views(pairs@), key@) == Some(t@),
            None => looked_up(pair_views(pairs@), key@) is None,
        },
{
    let ghost all = pair_views(pairs@);
    let mut i: usize = 0;
    assert(all.skip(0) =~= all);
    while i < pairs.len()
        invariant
            i <= pairs.len(),
            all == pair_views(pairs@),
            looked_up(all, key@) == looked_up(all.skip(i as int), key@),
        decreases pairs.len() - i,
    {
        let ghost rest = all.skip(i as int);
        assert(rest[0] == (pairs@[i as int].0@, pairs@[i as int].1@));
        if *pairs[i].0.as_str() == *key {
            return Some(&pairs[i].1);
        }
        assert(rest.drop_first() =~= all.skip(i + 1));
        i += 1;
    }
    None
}

/// A white-space character, as Unicode defines the property.
pub open spec fn is_space(c: char) -> bool {
    let u = c as u32;
    (0x09 <= u && u <= 0x0d) || u == 0x20 || u == 0x85 || u == 0xa0 || u == 0x1680 || (0x2000 <= u
        && u <= 0x200a) || u == 0x2028 || u == 0x2029 || u == 0x202f || u == 0x205f || u == 0x3000
}

/// Whether `c` is a white-space character.
pub fn is_space_char(c: char) -> (space: bool)
    ensures
        space == is_space(c),
{
    let u: u32 = c as u32;
    (0x09 <= u && u <= 0x0d) || u == 0x20 || u == 0x85 || u == 0xa0 || u == 0x1680 || (0x2000 <= u
        && u <= 0x200a) || u == 0x2028 || u == 0x2029 || u == 0x202f || u == 0x205f || u == 0x3000
}

/// Whether `s` holds nothing but white space.
pub open spec fn all_space(s: Seq<char>) -> bool {
    forall|i: int| 0 <= i < s.len() ==> is_space(#[trigger] s[i])
}

/// Whether `s` is empty once the white space around it is taken away.
pub fn is_blank(s: &str) -> (blank: bool)
    ensures
        blank == all_space(s@),
{
    let chars = chars_of(s);
    let mut i: usize = 0;
    while i < chars.len()
        invariant
            i <= chars.len(),
            chars@ == s@,
            forall|j: int| 0 <= j < i ==> is_space(#[trigger] s@[j]),
        decreases chars.len() - i,
    {
        if !is_space_char(chars[i]) {
            return false;
        }
        i += 1;
    }
    true
}

/// The number of characters of `s` before its first white space, or the
/// length of `s` where it has none.
pub open spec fn word_end(s: Seq<char>) -> nat
    decreases s.len(),
{
    if s.len() == 0 || is_space(s[0]) {
        0
    } else {
        1 + word_end(s.drop_first())
    }
}

/// A word ends within its text.
pub proof fn lemma_word_end_bound(s: Seq<char>)
    ensures
        word_end(s) <= s.len(),
        s.len() > 0 && !is_space(s[0]) ==> word_end(s) >= 1,
    decreases s.len(),
{
    if s.len() > 0 && !is_space(s[0]) {
        lemma_word_end_bound(s.drop_first());
    }
}

/// The words of `s`: its longest stretches without white space, in their
/// order.
pub open spec fn text_words(s: Seq<char>) -> Seq<Seq<char>>
    decreases s.len(),
    via text_words_decreases
{
    if s.len() == 0 {
        Seq::empty()
    } else if is_space(s[0]) {
        text_words(s.drop_first())
    } else {
        let k = word_end(s) as int;
        seq![s.take(k)] + text_words(s.skip(k))
    }
}

#[via_fn]
proof fn text_words_decreases(s: Seq<char>) {
    lemma_word_end_bound(s);
}

/// Where `s` has no white space before position `k`, and ends or has some
/// there, its first word ends at `k`.
pub proof fn lemma_word_end(s: Seq<char>, k: int)
    requires
        0 <= k <= s.len(),
        forall|t: int| 0 <= t < k ==> !is_space(s[t]),
        k == s.len() || is_space(s[k]),
    ensures
        word_end(s) == k,
    decreases k,
{
    if k > 0 {
        lemma_word_end(s.drop_first(), k - 1);
    }
}

/// The words of `s`.
pub fn words(s: &str) -> (out: Vec<String>)
    ensures
        texts(out@) == text_words(s@),
{
    let chars = chars_of(s);
    let mut out: Vec<String> = Vec::new();
    let mut i: usize = 0;
    assert(s@.skip(0) =~= s@);
    assert(texts(out@) + text_words(s@) =~= text_words(s@));
    while i < chars.len()
        invariant
            i <= chars.len(),
            chars@ == s@,
            text_words(s@) == texts(out@) + text_words(s@.skip(i as int)),
        decreases chars.len() - i,
    {
        let ghost rest = s@.skip(i as int);
        let ghost before = out@;
        assert(rest[0] == chars@[i as int]);
        if is_space_char(chars[i]) {
            assert(rest.drop_first() =~= s@.skip(i + 1));
            i += 1;
        } else {
            let mut end: usize = i + 1;
            while end < chars.len() && !is_space_char(chars[end])
                invariant
                    i < end <= chars.len(),
                    forall|t: int| i <= t < end ==> !is_space(chars@[t]),
                decreases chars.len() - end,
            {
                end += 1;
            }
            proof {
                lemma_word_end(rest, end - i);
            }
            out.push(text_of_range(&chars, i, end));
            proof {
                let word = rest.take(end - i);
                assert(word =~= chars@.subrange(i as int, end as int));
                assert(texts(out@) =~= texts(before).push(word));
                assert(rest.skip(end - i) =~= s@.skip(end as int));
                assert(texts(before) + (seq![word] + text_words(s@.skip(end as int)))
                    =~= texts(out@) + text_words(s@.skip(end as int)));
            }
            i = end;
        }
    }
    assert(s@.skip(chars.len() as int) =~= Seq::empty());
    assert(texts(out@) + text_words(s@.skip(i as int)) =~= texts(out@));
    out
}

/// `text` in small letters, as the standard library makes them.
pub uninterp spec fn lowered(text: Seq<char>) -> Seq<char>;

/// Calls `str::to_lowercase` of the standard library. Trusted: the result is
/// what `lowered` names.
#[verifier::external_body]
pub(crate) fn lowercase(text: &str) -> (out: String)
    ensures
        out@ == lowered(text@),
{
    text.to_lowercase()
}

/// Whether `c` is one of the decimal digits `0` to `9`.
pub open spec fn is_digit(c: char) -> bool {
    '0' <= c <= '9'
}

/// The number that the decimal digits `digits` write, the last of them
/// being the units; leading zeros count for nothing.
pub open spec fn digits_value(digits: Seq<char>) -> nat
    decreases digits.len(),
{
    if digits.len() == 0 {
        0
    } else {
        (digits_value(digits.drop_last()) * 10 + (digits.last() as nat - '0' as nat)) as nat
    }
}

/// The whole number that `text` writes as an `i64`: an optional sign, `+` or
/// `-`, and then one or more decimal digits and nothing else, where the
/// number fits an `i64`; `None` for every other text.
pub open spec fn parsed_integer(text: Seq<char>) -> Option<int> {
    let signed = text.len() > 0 && (text[0] == '-' || text[0] == '+');
    let digits = if signed {
        text.drop_first()
    } else {
        text
    };
    let value = if signed && text[0] == '-' {
        -(digits_value(digits) as int)
    } else {
        digits_value(digits) as int
    };
    if digits.len() > 0 && (forall|i: int| 0 <= i < digits.len() ==> is_digit(#[trigger] digits[i]))
        && i64::MIN <= value <= i64::MAX {
        Some(value)
    } else {
        None
    }
}

/// Calls `str::parse::<i64>` of the standard library. Trusted: it reads the
/// texts that `parsed_integer` describes, each as the number that it writes,
/// and rejects every other text.
#[verifier::external_body]
pub(crate) fn parse_integer(text: &str) -> (out: Option<i64>)
    ensures
        out is Some <==> parsed_integer(text@) is Some,
        out matches Some(n) ==> parsed_integer(text@) == Some(n as int),
{
    text.parse::<i64>().ok()
}

/// The number of bytes that `text` takes in UTF-8.
pub open spec fn byte_len(text: Seq<char>) -> nat {
    vstd::utf8::encode_utf8(text).len()
}

/// The character of the decimal digit `d`.
pub open spec fn digit_char(d: nat) -> char {
    (('0' as u8) + d) as u8 as char
}

/// The decimal numeral of `n`, without leading zeros.
pub open spec fn decimal_text(n: nat) -> Seq<char>
    decreases n,
{
    if n < 10 {
        seq![digit_char(n)]
    } else {
        decimal_text(n / 10).push(digit_char(n % 10))
    }
}

/// The decimal numeral of `n`.
pub fn decimal(n: usize) -> (out: String)
    ensures
        out@ == decimal_text(n as nat),
    decreases n,
{
    if n < 10 {
        let mut out = String::new();
        out.push((48u8 + n as u8) as char);
        assert(out@ =~= seq![digit_char(n as nat)]);
        out
    } else {
        let mut out = decimal(n / 10);
        out.push((48u8 + (n % 10) as u8) as char);
        out
    }
}

/// The digits of a decimal numeral write the number that it is the numeral
/// of.
pub proof fn lemma_numeral_value(n: nat)
    ensures
        decimal_text(n).len() > 0,
        forall|i: int| 0 <= i < decimal_text(n).len() ==> is_digit(#[trigger] decimal_text(n)[i]),
        digits_value(decimal_text(n)) == n,
    decreases n,
{
    if n < 10 {
        let one = seq![digit_char(n)];
        assert(one.drop_last() =~= Seq::<char>::empty());
        assert(digits_value(one.drop_last()) == 0);
        assert(digits_value(one) == n);
    } else {
        lemma_numeral_value(n / 10);
        let front = decimal_text(n / 10);
        let all = front.push(digit_char(n % 10));
        assert(all.drop_last() =~= front);
        assert(all.last() == digit_char(n % 10));
        assert forall|i: int| 0 <= i < all.len() implies is_digit(#[trigger] all[i]) by {
            if i < front.len() {
                assert(all[i] == front[i]);
            }
        }
    }
}

/// A whole number that is not negative and fits an `i64` is read back from
/// its decimal numeral.
pub proof fn lemma_numeral_reads_back(n: nat)
    requires
        n <= i64::MAX,
    ensures
        parsed_integer(decimal_text(n)) == Some(n as int),
{
    lemma_numeral_value(n);
    assert(is_digit(decimal_text(n)[0]));
}

/// Strict dictionary order by code point: the order of `str` in the standard
/// library.
pub open spec fn text_less(a: Seq<char>, b: Seq<char>) -> bool
    decreases a.len(),
{
    if b.len() == 0 {
        false
    } else if a.len() == 0 {
        true
    } else if a[0] != b[0] {
        a[0] < b[0]
    } else {
        text_less(a.drop_first(), b.drop_first())
    }
}

/// No text comes before itself.
pub proof fn lemma_less_irreflexive(a: Seq<char>)
    ensures
        !text_less(a, a),
    decreases a.len(),
{
    if a.len() > 0 {
        lemma_less_irreflexive(a.drop_first());
    }
}

/// Of two different texts one comes before the other.
pub proof fn lemma_less_total(a: Seq<char>, b: Seq<char>)
    ensures
        a == b || text_less(a, b) || text_less(b, a),
    decreases a.len(),
{
    if a.len() == 0 || b.len() == 0 {
        if a.len() == 0 && b.len() == 0 {
            assert(a =~= b);
        }
    } else if a[0] == b[0] {
        lemma_less_total(a.drop_first(), b.drop_first());
        if a.drop_first() == b.drop_first() {
            assert(a =~= seq![a[0]] + a.drop_first());
            assert(b =~= seq![b[0]] + b.drop_first());
        }
    }
}

/// The order is transitive.
pub proof fn lemma_less_transitive(a: Seq<char>, b: Seq<char>, c: Seq<char>)
    requires
        text_less(a, b),
        text_less(b, c),
    ensures
        text_less(a, c),
    decreases a.len(),
{
    if a.len() > 0 {
        if a[0] == b[0] && b[0] == c[0] {
            lemma_less_transitive(a.drop_first(), b.drop_first(), c.drop_first());
        }
    }
}

/// A text does not come both before and after another.
pub proof fn lemma_less_asymmetric(a: Seq<char>, b: Seq<char>)
    requires
        text_less(a, b),
    ensures
        !text_less(b, a),
{
    if text_less(b, a) {
        lemma_less_transitive(a, b, a);
        lemma_less_irreflexive(a);
    }
}

/// Whether `a` comes strictly before `b` in dictionary order.
pub fn less(a: &str, b: &str) -> (before: bool)
    ensures
        before == text_less(a@, b@),
{
    let x = chars_of(a);
    let y = chars_of(b);
    let mut i: usize = 0;
    assert(a@.skip(0) =~= a@ && b@.skip(0) =~= b@);
    while i < x.len() && i < y.len()
        invariant
            i <= x.len(),
            i <= y.len(),
            x@ == a@,
            y@ == b@,
            text_less(a@, b@) == text_less(a@.skip(i as int), b@.skip(i as int)),
        decreases x.len() - i,
    {
        let ghost ra = a@.skip(i as int);
        let ghost rb = b@.skip(i as int);
        assert(ra[0] == x@[i as int] && rb[0] == y@[i as int]);
        if x[i] != y[i] {
            return x[i] < y[i];
        }
        assert(ra.drop_first() =~= a@.skip(i + 1));
        assert(rb.drop_first() =~= b@.skip(i + 1));
        i += 1;
    }
    i < y.len()
}

} // verus!
