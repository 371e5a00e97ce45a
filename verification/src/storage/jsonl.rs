//! The backup file: a header line, then one line for each prompt.
//!
//! The library frames the file and decides what each line is; turning a line
//! into a prompt, and a prompt into a line, is the caller's, as is the file
//! itself.

use crate::clock::{stored_time, timestamp_text};
use crate::storage::checks::by_title;
use crate::storage::database::{Database, StoreError, StoreErrorKind};
use crate::storage::schema::SCHEMA_VERSION;
use crate::text::{contains, is_blank, all_space, occurs_in, texts};
use crate::types::prompt::{prompt_views, Prompt, PromptView};
use vstd::prelude::*;
use vstd::string::StringExecFns;

verus! {

/// What the header of a backup file tells.
#[derive(Debug)]
pub struct MetaInfo {
    pub version: String,
    pub count: usize,
    pub exported_at: String,
    pub schema_version: i32,
}

/// The header of a backup file.
#[derive(Debug)]
pub struct JsonlMeta {
    pub meta: MetaInfo,
}

/// The key that marks the first line of a backup file as its header, with
/// its quotes.
pub const META_MARK: &'static str = "\"_meta\"";

/// The key of the bookkeeping table under which the time of the last export
/// or import is kept.
pub const DATA_VERSION_KEY: &'static str = "data_version";

/// What a line of a backup file is.
#[derive(Debug, Clone, Copy, PartialEq, Eq, Structural)]
pub enum LineKind {
    /// Nothing but white space: skipped.
    Blank,
    /// The header: read and then left aside.
    Meta,
    /// A prompt.
    Record,
}

/// What the line of number `number`, counted from 1, is: blank where it
/// holds nothing but white space; else the header where it is the first line
/// and holds the mark of one; else a record.
pub open spec fn kind_of(number: int, text: Seq<char>) -> LineKind {
    if all_space(text) {
        LineKind::Blank
    } else if number == 1 && occurs_in(text, META_MARK@) {
        LineKind::Meta
    } else {
        LineKind::Record
    }
}

/// What the line of number `number`, counted from 1, is.
pub fn classify_line(number: usize, text: &str) -> (kind: LineKind)
    ensures
        kind == kind_of(number as int, text@),
{
    if is_blank(text) {
        LineKind::Blank
    } else if number == 1 && contains(text, META_MARK) {
        LineKind::Meta
    } else {
        LineKind::Record
    }
}

/// A line of a backup file, with what the caller's reader made of it.
#[derive(Debug)]
pub struct ImportLine {
    /// The line, without its end.
    pub text: String,
    /// The prompt that the line holds, where it can be read as one.
    pub prompt: Option<Prompt>,
    /// Whether the line can be read as a header.
    pub is_header: bool,
}

/// Why an import failed.
#[derive(Debug)]
pub enum ImportError {
    /// The line of this number, counted from 1, could not be read.
    Parse { line: usize },
    /// The store refused the prompts; none was kept.
    Store(StoreError),
}

/// Whether line `i`, counted from 0, cannot be read as what it is: a record
/// without a prompt, or a header that is none.
pub open spec fn is_unreadable(lines: Seq<ImportLine>, i: int) -> bool {
    match kind_of(i + 1, lines[i].text@) {
        LineKind::Blank => false,
        LineKind::Meta => !lines[i].is_header,
        LineKind::Record => lines[i].prompt is None,
    }
}

/// The prompts of the record lines among `lines`, in their order.
pub open spec fn records(lines: Seq<ImportLine>) -> Seq<PromptView>
    decreases lines.len(),
{
    if lines.len() == 0 {
        Seq::empty()
    } else {
        let front = records(lines.drop_last());
        let last = lines.len() - 1;
        match (kind_of(last + 1, lines[last].text@), lines[last].prompt) {
            (LineKind::Record, Some(p)) => front.push(p@),
            _ => front,
        }
    }
}

/// The prompts of a backup file: those of its record lines, in their order,
/// where every line can be read; else the number of the first line that
/// cannot.
pub fn collect_records(lines: &Vec<ImportLine>) -> (out: Result<Vec<Prompt>, ImportError>)
    ensures
        match out {
            Ok(prompts) => {
                &&& forall|i: int| 0 <= i < lines.len() ==> !is_unreadable(lines@, i)
                &&& prompt_views(prompts@) == records(lines@)
            },
            Err(ImportError::Parse { line }) => {
                &&& 1 <= line <= lines.len()
                &&& is_unreadable(lines@, line - 1)
                &&& forall|i: int| 0 <= i < line - 1 ==> !is_unreadable(lines@, i)
            },
            Err(ImportError::Store(_)) => false,
        },
{
    let mut prompts: Vec<Prompt> = Vec::new();
    let mut i: usize = 0;
    assert(lines@.take(0) =~= Seq::empty());
    while i < lines.len()
        invariant
            i <= lines.len(),
            forall|k: int| 0 <= k < i ==> !is_unreadable(lines@, k),
            prompt_views(prompts@) == records(lines@.take(i as int)),
        decreases lines.len() - i,
    {
        let line = &lines[i];
        let ghost next = lines@.take(i + 1);
        assert(next.drop_last() =~= lines@.take(i as int));
        assert(next[i as int] == lines@[i as int]);
        match classify_line(i + 1, line.text.as_str()) {
            LineKind::Blank => {},
            LineKind::Meta => {
                if !line.is_header {
                    return Err(ImportError::Parse { line: i + 1 });
                }
            },
            LineKind::Record => match &line.prompt {
                Some(p) => {
                    let ghost before = prompts@;
                    prompts.push(p.clone());
                    assert(prompt_views(prompts@) =~= prompt_views(before).push(p@));
                },
                None => {
                    return Err(ImportError::Parse { line: i + 1 });
                },
            },
        }
        i += 1;
    }
    assert(lines@.take(lines.len() as int) =~= lines@);
    Ok(prompts)
}

/// What was written is read back. Where a file holds a header that can be
/// read and then, line by line, the prompts `prompts`, no line blank, all
/// lines can be read and the prompts of the file are `prompts`, in their
/// order.
pub proof fn lemma_backup_reads_back(lines: Seq<ImportLine>, prompts: Seq<Prompt>)
    requires
        lines.len() == prompts.len() + 1,
        kind_of(1, lines[0].text@) == LineKind::Meta,
        lines[0].is_header,
        forall|i: int|
            1 <= i < lines.len() ==> !all_space((#[trigger] lines[i]).text@) && lines[i].prompt
                == Some(prompts[i - 1]),
    ensures
        forall|i: int| 0 <= i < lines.len() ==> !is_unreadable(lines, i),
        records(lines) == prompt_views(prompts),
    decreases lines.len(),
{
    if prompts.len() == 0 {
        assert(lines.drop_last() =~= Seq::<ImportLine>::empty());
        assert(records(lines) =~= prompt_views(prompts)) by {
            reveal_with_fuel(records, 2);
        }
    } else {
        let front = lines.drop_last();
        lemma_backup_reads_back(front, prompts.drop_last());
        let last = lines.len() - 1;
        assert(kind_of(last + 1, lines[last].text@) == LineKind::Record);
        assert(prompt_views(prompts) =~= prompt_views(prompts.drop_last()).push(
            prompts.last()@,
        ));
        assert forall|i: int| 0 <= i < lines.len() implies !is_unreadable(lines, i) by {
            if i < last {
                assert(!is_unreadable(front, i));
                assert(front[i] == lines[i]);
            }
        }
    }
}

/// Marks the store's data as changed at `now`.
pub fn update_data_version(db: &Database, now: i64) -> (out: Result<(), StoreError>)
    ensures
        out matches Err(e) ==> e.kind == StoreErrorKind::Write,
{
    let text = timestamp_text(now);
    db.set_meta(DATA_VERSION_KEY, text.as_str())
}

/// Takes the prompts of a backup file into the store: all of them as one
/// unit, or, where a line cannot be read or the store refuses, none. The
/// header is read and not applied. The result is the number of prompts
/// written.
pub fn import_jsonl(db: &mut Database, lines: &Vec<ImportLine>, now: i64) -> (out: Result<
    usize,
    ImportError,
>)
    ensures
        match out {
            Ok(count) => {
                &&& forall|i: int| 0 <= i < lines.len() ==> !is_unreadable(lines@, i)
                &&& count == records(lines@).len()
            },
            Err(ImportError::Parse { line }) => {
                &&& 1 <= line <= lines.len()
                &&& is_unreadable(lines@, line - 1)
                &&& forall|i: int| 0 <= i < line - 1 ==> !is_unreadable(lines@, i)
            },
            Err(ImportError::Store(e)) => {
                &&& forall|i: int| 0 <= i < lines.len() ==> !is_unreadable(lines@, i)
                &&& e.kind == StoreErrorKind::Write
            },
        },
{
    let prompts = match collect_records(lines) {
        Ok(p) => p,
        Err(e) => return Err(e),
    };
    if let Err(e) = db.bulk_upsert_prompts(&prompts) {
        return Err(ImportError::Store(e));
    }
    if let Err(e) = update_data_version(db, now) {
        return Err(ImportError::Store(e));
    }
    Ok(prompts.len())
}

/// What an export holds: the header and the prompts, for the caller to write.
#[derive(Debug)]
pub struct Export {
    pub header: JsonlMeta,
    pub prompts: Vec<Prompt>,
}

/// The export of `prompts` at the time `now`: the prompts as they are, and
/// the header for them, which holds their number, the time `now`, the
/// version of the layout, and as the version of the data `stored_version`,
/// or the time `now` where there is none.
pub fn export_of(prompts: Vec<Prompt>, stored_version: Option<String>, now: i64) -> (x: Export)
    ensures
        x.prompts == prompts,
        x.header.meta.count == prompts.len(),
        x.header.meta.version@ == (match stored_version {
            Some(v) => v@,
            None => stored_time(now as int),
        }),
        x.header.meta.exported_at@ == stored_time(now as int),
        x.header.meta.schema_version == SCHEMA_VERSION,
{
    let count = prompts.len();
    let version = match stored_version {
        Some(v) => v,
        None => timestamp_text(now),
    };
    let header = JsonlMeta {
        meta: MetaInfo {
            version,
            count,
            exported_at: timestamp_text(now),
            schema_version: SCHEMA_VERSION,
        },
    };
    Export { header, prompts }
}

/// Reads every prompt from the store, with its tags and variables, by title,
/// ascending, and the version of the data that the store keeps, and hands
/// out the export that `export_of` makes of the two at the time `now`. Where
/// the store keeps no version of the data, the export has none to take.
///
/// The caller writes the file and then calls `update_data_version`.
pub fn export_jsonl(db: &Database, now: i64) -> (out: Result<Export, StoreError>)
    ensures
        match out {
            Ok(x) => {
                &&& x.header.meta.count == x.prompts.len()
                &&& x.header.meta.exported_at@ == stored_time(now as int)
                &&& x.header.meta.schema_version == SCHEMA_VERSION
                &&& by_title(x.prompts@)
            },
            Err(e) => e.kind == StoreErrorKind::Read,
        },
{
    let prompts = match db.list_prompts_full() {
        Ok(p) => p,
        Err(e) => return Err(e),
    };
    let stored_version = match db.get_meta(DATA_VERSION_KEY) {
        Ok(v) => Some(v),
        Err(_) => None,
    };
    Ok(export_of(prompts, stored_version, now))
}

/// The text of a backup file: each line followed by a line feed, the header
/// first.
pub open spec fn backup_text(header: Seq<char>, lines: Seq<Seq<char>>) -> Seq<char>
    decreases lines.len(),
{
    if lines.len() == 0 {
        header + "\n"@
    } else {
        backup_text(header, lines.drop_last()) + lines.last() + "\n"@
    }
}

/// The text of the backup file with the header line `header` and the record
/// lines `lines`.
pub fn render_backup(header: &str, lines: &Vec<String>) -> (out: String)
    ensures
        out@ == backup_text(header@, texts(lines@)),
{
    let mut out = header.to_string();
    out.append("\n");
    let mut i: usize = 0;
    assert(texts(lines@).take(0) =~= Seq::empty());
    while i < lines.len()
        invariant
            i <= lines.len(),
            out@ == backup_text(header@, texts(lines@).take(i as int)),
        decreases lines.len() - i,
    {
        let ghost next = texts(lines@).take(i + 1);
        assert(next.drop_last() =~= texts(lines@).take(i as int));
        assert(next.last() == lines@[i as int]@);
        out.append(lines[i].as_str());
        out.append("\n");
        i += 1;
    }
    assert(texts(lines@).take(lines.len() as int) =~= texts(lines@));
    out
}

} // verus!
