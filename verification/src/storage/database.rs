//! The store: prompts with their tags, variables and search entries, kept by
//! SQLite.
//!
//! What SQLite holds is not modelled here. The store fixes what it hands to
//! SQLite (see `plan`), and hands on only what `read` makes of the rows that
//! come back: so each contract below says what holds of a result whatever
//! SQLite did. What the writes of an upsert mean is written down, and
//! reasoned about, in `model`.

use crate::config::{file_in, opt_str, path_in};
use crate::registry::embedded::bundled_prompts;
use crate::storage::checks::{by_name, by_score, by_title, passes};
use crate::storage::plan::{
    bulk_statements, file_settings, get_meta_statement, get_statement, list_statement,
    memory_settings, plain_statement, search_statement, set_meta_statement, tags_statement,
    upsert_statements, variables_statement, Filter, FilterView, Setting,
};
use crate::storage::read::{
    answer_of, count_of, first_text, found_prompt, hit_rows, listed_rows, listing_of, meta_of,
    named_counts, ranked_counts, soundness_of, tagged, text_of_first, with_variables,
};
use crate::storage::schema::{
    BEGIN, CATEGORY_COUNTS, CHECKPOINT, COMMIT, COUNT_PROMPTS, CREATE_SCHEMA, GET_SCHEMA_VERSION,
    INTEGRITY_CHECK, ROLLBACK, SCHEMA_VERSION, TAG_COUNTS,
};
use crate::storage::sql::{
    error_text, execute, open_file, open_memory, pragma, query, row_views, run_batch,
    set_busy_timeout, Cell, CellView, Statement,
};
use crate::tally::{count_views, strictly_ranked};
use crate::text::{decimal_text, lemma_numeral_reads_back, parse_integer, parsed_integer};
use crate::types::prompt::Prompt;
use vstd::prelude::*;

verus! {

/// What a failure of the store is about.
#[derive(Debug, Clone, Copy, PartialEq, Eq, Structural)]
pub enum StoreErrorKind {
    /// The database could not be opened or brought up to the layout.
    Open,
    /// A write failed; nothing of its unit was kept.
    Write,
    /// A read failed, or brought rows that the store does not accept.
    Read,
    /// The search text is not valid in the query language.
    SearchSyntax,
}

/// A failure of the store.
#[derive(Debug)]
pub struct StoreError {
    pub kind: StoreErrorKind,
    /// What went wrong, for display.
    pub message: String,
}

/// The name of the database file.
pub const DATABASE_FILE: &'static str = "jfp.db";

/// The key under which the version of the layout is recorded.
pub const SCHEMA_VERSION_KEY: &'static str = "schema_version";

/// The version of the layout, as it is recorded.
pub const SCHEMA_VERSION_TEXT: &'static str = "2";

/// The time in milliseconds that a write waits for a lock.
pub const BUSY_TIMEOUT_MS: u64 = 5000;

/// The most prompts that a search may be asked for.
pub const MAX_SEARCH_LIMIT: usize = 100;

/// The version of the layout that a database records: the number in the
/// recorded text, where it is one that fits 32 bits with a sign, and 0 where
/// nothing is recorded or the text is no such number.
pub open spec fn recorded_version(recorded: Option<Seq<char>>) -> int {
    match recorded {
        Some(text) => match parsed_integer(text) {
            Some(n) => if i32::MIN <= n <= i32::MAX {
                n
            } else {
                0
            },
            None => 0,
        },
        None => 0,
    }
}

/// A database that records the decimal numeral of a version has that
/// version, so it is behind exactly where that version is below the present
/// one; and the text that this library records is the numeral of the present
/// version.
pub proof fn lemma_recorded_numeral(n: nat)
    requires
        n <= i32::MAX,
    ensures
        recorded_version(Some(decimal_text(n))) == n,
        (recorded_version(Some(decimal_text(n))) < SCHEMA_VERSION) == (n < SCHEMA_VERSION),
        SCHEMA_VERSION_TEXT@ == decimal_text(SCHEMA_VERSION as nat),
{
    lemma_numeral_reads_back(n);
    reveal_strlit("2");
    assert(SCHEMA_VERSION_TEXT@ =~= decimal_text(2));
}

/// Whether a database that records `recorded` as the version of its layout
/// is behind, and has to be brought up to the layout.
pub fn needs_migration(recorded: Option<&str>) -> (behind: bool)
    ensures
        behind == (recorded_version(opt_str(recorded)) < SCHEMA_VERSION),
{
    let version: i64 = match recorded {
        Some(text) => match parse_integer(text) {
            Some(n) => if -0x8000_0000 <= n && n <= 0x7fff_ffff {
                n
            } else {
                0
            },
            None => 0,
        },
        None => 0,
    };
    version < SCHEMA_VERSION as i64
}

/// The path of the database file in the cache directory `cache_dir`, or in
/// the working directory where none is known.
pub fn db_path(cache_dir: Option<&str>) -> (path: String)
    ensures
        path@ == file_in(opt_str(cache_dir), DATABASE_FILE@),
{
    path_in(cache_dir, DATABASE_FILE)
}

/// The failure of kind `kind` that SQLite's error `error` stands for.
fn failed(kind: StoreErrorKind, error: &rusqlite::Error) -> (e: StoreError)
    ensures
        e.kind == kind,
{
    StoreError { kind, message: error_text(error) }
}

/// Makes `settings` on the connection, in their order, up to the first that
/// fails.
fn configure(conn: &rusqlite::Connection, settings: &Vec<Setting>) -> (out: Result<(), StoreError>)
    ensures
        out matches Err(e) ==> e.kind == StoreErrorKind::Open,
{
    let mut i: usize = 0;
    while i < settings.len()
        invariant
            i <= settings.len(),
        decreases settings.len() - i,
    {
        if let Err(e) = pragma(conn, settings[i].name.as_str(), &settings[i].value) {
            return Err(failed(StoreErrorKind::Open, &e));
        }
        i += 1;
    }
    Ok(())
}

/// Whether the layout is behind, by what the query for the recorded version
/// brought: it is where the query failed, where it brought no row, and where
/// the version in the first row is behind.
pub open spec fn is_behind(answer: Option<Seq<Seq<CellView>>>) -> bool {
    match answer {
        Some(rows) => recorded_version(text_of_first(rows)) < SCHEMA_VERSION,
        None => true,
    }
}

/// The views of rows that a query may have brought.
pub open spec fn answer_views(answer: Option<Vec<Vec<Cell>>>) -> Option<Seq<Seq<CellView>>> {
    match answer {
        Some(rows) => Some(row_views(rows@)),
        None => None,
    }
}

/// Whether the layout is behind, by `answer`, what the query for the
/// recorded version brought, or `None` where it failed.
pub fn layout_behind(answer: &Option<Vec<Vec<Cell>>>) -> (behind: bool)
    ensures
        behind == is_behind(answer_views(*answer)),
{
    match answer {
        Some(rows) => match first_text(rows) {
            Some(text) => needs_migration(Some(text.as_str())),
            None => needs_migration(None),
        },
        None => true,
    }
}

/// Whether a store is taken for empty, by what counting its prompts brought:
/// it is where it holds none, and where they could not be counted.
pub fn taken_for_empty(counted: &Result<usize, StoreError>) -> (empty: bool)
    ensures
        empty == match *counted {
            Ok(n) => n == 0,
            Err(_) => true,
        },
{
    match counted {
        Ok(n) => *n == 0,
        Err(_) => true,
    }
}

/// The filter of the parts given.
pub fn filter_from(category: Option<&str>, tag: Option<&str>, featured_only: bool) -> (filter:
    Filter)
    ensures
        filter@ == filter_of(opt_str(category), opt_str(tag), featured_only),
{
    Filter {
        category: match category {
            Some(c) => Some(c.to_string()),
            None => None,
        },
        tag: match tag {
            Some(t) => Some(t.to_string()),
            None => None,
        },
        featured_only,
    }
}

/// The filter of the parts given.
pub open spec fn filter_of(
    category: Option<Seq<char>>,
    tag: Option<Seq<char>>,
    featured_only: bool,
) -> FilterView {
    FilterView { category, tag, featured_only }
}

/// Whether every prompt of `prompts` passes `filter`.
pub open spec fn all_pass(prompts: Seq<Prompt>, filter: FilterView) -> bool {
    forall|i: int| 0 <= i < prompts.len() ==> passes((#[trigger] prompts[i])@, filter)
}

/// A connection to the database of prompts.
pub struct Database {
    conn: rusqlite::Connection,
    path: String,
}

impl Database {
    /// Opens the database in the cache directory `cache_dir`, or in the
    /// working directory where none is known. See `open_at`.
    pub fn open(cache_dir: Option<&str>) -> (out: Result<Database, StoreError>)
        ensures
            match out {
                Ok(db) => db.path_text() == file_in(opt_str(cache_dir), DATABASE_FILE@),
                Err(e) => e.kind == StoreErrorKind::Open,
            },
    {
        let path = db_path(cache_dir);
        Database::open_at(path.as_str())
    }

    /// Opens the database at `path`, creating it where there is none. The
    /// directory must exist. The connection gets the settings of
    /// `file_settings` and a wait of five seconds for a lock; a database that
    /// is behind the layout is brought up to it.
    pub fn open_at(path: &str) -> (out: Result<Database, StoreError>)
        ensures
            match out {
                Ok(db) => db.path_text() == path@,
                Err(e) => e.kind == StoreErrorKind::Open,
            },
    {
        let conn = match open_file(path) {
            Ok(c) => c,
            Err(e) => return Err(failed(StoreErrorKind::Open, &e)),
        };
        if let Err(e) = configure(&conn, &file_settings()) {
            return Err(e);
        }
        if let Err(e) = set_busy_timeout(&conn, BUSY_TIMEOUT_MS) {
            return Err(failed(StoreErrorKind::Open, &e));
        }
        let db = Database { conn, path: path.to_string() };
        match db.init_schema() {
            Ok(()) => Ok(db),
            Err(e) => Err(e),
        }
    }

    /// Opens a database that lives in memory and goes with the connection,
    /// with the settings of `memory_settings`.
    pub fn in_memory() -> (out: Result<Database, StoreError>)
        ensures
            match out {
                Ok(db) => db.path_text() == ":memory:"@,
                Err(e) => e.kind == StoreErrorKind::Open,
            },
    {
        let conn = match open_memory() {
            Ok(c) => c,
            Err(e) => return Err(failed(StoreErrorKind::Open, &e)),
        };
        if let Err(e) = configure(&conn, &memory_settings()) {
            return Err(e);
        }
        let db = Database { conn, path: ":memory:".to_string() };
        match db.init_schema() {
            Ok(()) => Ok(db),
            Err(e) => Err(e),
        }
    }

    /// Brings the database up to the layout where `layout_behind` finds it
    /// behind by what the query for the recorded version brought.
    fn init_schema(&self) -> (out: Result<(), StoreError>)
        ensures
            out matches Err(e) ==> e.kind == StoreErrorKind::Open,
    {
        let answer = match query(&self.conn, &plain_statement(GET_SCHEMA_VERSION), 1) {
            Ok(rows) => Some(rows),
            Err(_) => None,
        };
        if layout_behind(&answer) {
            if let Err(e) = run_batch(&self.conn, CREATE_SCHEMA) {
                return Err(failed(StoreErrorKind::Open, &e));
            }
            let record = set_meta_statement(SCHEMA_VERSION_KEY, SCHEMA_VERSION_TEXT);
            if let Err(e) = execute(&self.conn, &record) {
                return Err(failed(StoreErrorKind::Open, &e));
            }
        }
        Ok(())
    }

    /// The path that the database was opened at.
    pub closed spec fn path_text(&self) -> Seq<char> {
        self.path@
    }

    /// The path that the database was opened at.
    pub fn path(&self) -> (path: &str)
        ensures
            path@ == self.path_text(),
    {
        self.path.as_str()
    }

    /// Runs `statements` as one unit: all of them are kept, or none.
    fn write_unit(&self, statements: &Vec<Statement>) -> (out: Result<(), StoreError>)
        ensures
            out matches Err(e) ==> e.kind == StoreErrorKind::Write,
    {
        if let Err(e) = run_batch(&self.conn, BEGIN) {
            return Err(failed(StoreErrorKind::Write, &e));
        }
        let mut i: usize = 0;
        while i < statements.len()
            invariant
                i <= statements.len(),
            decreases statements.len() - i,
        {
            if let Err(e) = execute(&self.conn, &statements[i]) {
                let _undone = run_batch(&self.conn, ROLLBACK);
                return Err(failed(StoreErrorKind::Write, &e));
            }
            i += 1;
        }
        if let Err(e) = run_batch(&self.conn, COMMIT) {
            let _undone = run_batch(&self.conn, ROLLBACK);
            return Err(failed(StoreErrorKind::Write, &e));
        }
        Ok(())
    }

    /// Writes `prompt` over what the store holds under its id: the row, the
    /// tags, the variables and the search entry, as one unit. The statements
    /// are those of `upsert_statements`.
    pub fn upsert_prompt(&self, prompt: &Prompt) -> (out: Result<(), StoreError>)
        ensures
            out matches Err(e) ==> e.kind == StoreErrorKind::Write,
    {
        let statements = upsert_statements(prompt);
        self.write_unit(&statements)
    }

    /// Writes every prompt of `prompts` as `upsert_prompt` does, all of them
    /// as one unit: either all are kept, or none. The statements are those
    /// of `bulk_statements`.
    pub fn bulk_upsert_prompts(&mut self, prompts: &Vec<Prompt>) -> (out: Result<(), StoreError>)
        ensures
            out matches Err(e) ==> e.kind == StoreErrorKind::Write,
            final(self).path_text() == old(self).path_text(),
    {
        let all = bulk_statements(prompts);
        self.write_unit(&all)
    }

    /// The rows of the tags of the prompt `id`, in the order in which the tags
    /// were added, each of one cell.
    fn tag_rows(&self, id: &str) -> (out: Result<Vec<Vec<Cell>>, StoreError>)
        ensures
            match out {
                Ok(rows) => forall|i: int| 0 <= i < rows.len() ==> (#[trigger] rows[i]).len() == 1,
                Err(e) => e.kind == StoreErrorKind::Read,
            },
    {
        match query(&self.conn, &tags_statement(id), 1) {
            Ok(rows) => Ok(rows),
            Err(e) => Err(failed(StoreErrorKind::Read, &e)),
        }
    }

    /// The rows of the variables of the prompt `id`, in the order in which
    /// the variables were added, each of five cells.
    fn variable_rows(&self, id: &str) -> (out: Result<Vec<Vec<Cell>>, StoreError>)
        ensures
            match out {
                Ok(rows) => forall|i: int| 0 <= i < rows.len() ==> (#[trigger] rows[i]).len() == 5,
                Err(e) => e.kind == StoreErrorKind::Read,
            },
    {
        match query(&self.conn, &variables_statement(id), 5) {
            Ok(rows) => Ok(rows),
            Err(e) => Err(failed(StoreErrorKind::Read, &e)),
        }
    }

    /// The prompt `id` with its tags and variables, or `None` where the store
    /// has no prompt of that id. The three queries of `plan` are made, and
    /// what they brought goes to `found_prompt`, which decides. A prompt that
    /// is handed out has the id that was asked for.
    pub fn get_prompt(&self, id: &str) -> (out: Result<Option<Prompt>, StoreError>)
        ensures
            match out {
                Ok(Some(p)) => p.id@ == id@,
                Ok(None) => true,
                Err(e) => e.kind == StoreErrorKind::Read,
            },
    {
        let rows = match query(&self.conn, &get_statement(id), 10) {
            Ok(rows) => rows,
            Err(e) => return Err(failed(StoreErrorKind::Read, &e)),
        };
        let tag_rows = match self.tag_rows(id) {
            Ok(r) => r,
            Err(e) => return Err(e),
        };
        let variable_rows = match self.variable_rows(id) {
            Ok(r) => r,
            Err(e) => return Err(e),
        };
        found_prompt(id, &rows, &tag_rows, &variable_rows)
    }

    /// `prompt` with the tags that the store holds for it: what `tagged`
    /// makes of the rows that the query for them brought.
    fn with_tags(&self, prompt: Prompt) -> (out: Result<Prompt, StoreError>)
        ensures
            match out {
                Ok(p) => p.id@ == prompt.id@ && p.title@ == prompt.title@,
                Err(e) => e.kind == StoreErrorKind::Read,
            },
    {
        let rows = match self.tag_rows(prompt.id.as_str()) {
            Ok(r) => r,
            Err(e) => return Err(e),
        };
        tagged(prompt, &rows)
    }

    /// Every prompt, by title, ascending, each with its tags.
    pub fn list_prompts(&self) -> (out: Result<Vec<Prompt>, StoreError>)
        ensures
            match out {
                Ok(v) => by_title(v@),
                Err(e) => e.kind == StoreErrorKind::Read,
            },
    {
        self.list_prompts_filtered(None, None, false)
    }

    /// Every prompt, by title, ascending, each with its tags and its
    /// variables: the prompts of `list_prompts`, each with what
    /// `with_variables` makes of the rows that the query for its variables
    /// brought.
    pub fn list_prompts_full(&self) -> (out: Result<Vec<Prompt>, StoreError>)
        ensures
            match out {
                Ok(v) => by_title(v@),
                Err(e) => e.kind == StoreErrorKind::Read,
            },
    {
        let listed = match self.list_prompts() {
            Ok(v) => v,
            Err(e) => return Err(e),
        };
        let mut prompts: Vec<Prompt> = Vec::new();
        let mut i: usize = 0;
        while i < listed.len()
            invariant
                i <= listed.len(),
                prompts.len() == i,
                forall|k: int| 0 <= k < i ==> (#[trigger] prompts@[k]).title@ == listed@[k].title@,
            decreases listed.len() - i,
        {
            let rows = match self.variable_rows(listed[i].id.as_str()) {
                Ok(r) => r,
                Err(e) => return Err(e),
            };
            match with_variables(listed[i].clone(), &rows) {
                Ok(p) => prompts.push(p),
                Err(e) => return Err(e),
            }
            i += 1;
        }
        Ok(prompts)
    }

    /// The prompts that pass every part of the filter that is given, by
    /// title, ascending, each with its tags. The query of `list_statement` is
    /// made; `listed_rows` reads what it brought, each prompt gets its tags,
    /// and `listing_of` decides: what is handed out passes the filter and
    /// stands in that order, and rows of which the store finds otherwise
    /// make the read fail.
    pub fn list_prompts_filtered(
        &self,
        category: Option<&str>,
        tag: Option<&str>,
        featured_only: bool,
    ) -> (out: Result<Vec<Prompt>, StoreError>)
        ensures
            match out {
                Ok(v) => by_title(v@) && all_pass(
                    v@,
                    filter_of(opt_str(category), opt_str(tag), featured_only),
                ),
                Err(e) => e.kind == StoreErrorKind::Read,
            },
    {
        let filter = filter_from(category, tag, featured_only);
        let rows = match query(&self.conn, &list_statement(&filter), 10) {
            Ok(rows) => rows,
            Err(e) => return Err(failed(StoreErrorKind::Read, &e)),
        };
        let bare = match listed_rows(&rows) {
            Ok(v) => v,
            Err(e) => return Err(e),
        };
        let mut prompts: Vec<Prompt> = Vec::new();
        let mut i: usize = 0;
        while i < bare.len()
            invariant
                i <= bare.len(),
            decreases bare.len() - i,
        {
            match self.with_tags(bare[i].clone()) {
                Ok(p) => prompts.push(p),
                Err(e) => return Err(e),
            }
            i += 1;
        }
        listing_of(prompts, &filter)
    }

    /// Each category with the number of its prompts, by category, strictly
    /// ascending: what `named_counts` makes of the rows that the query
    /// brought. Prompts without a category are not counted.
    pub fn category_counts(&self) -> (out: Result<Vec<(String, usize)>, StoreError>)
        ensures
            match out {
                Ok(v) => by_name(count_views(v@)),
                Err(e) => e.kind == StoreErrorKind::Read,
            },
    {
        match query(&self.conn, &plain_statement(CATEGORY_COUNTS), 2) {
            Ok(rows) => named_counts(&rows),
            Err(e) => Err(failed(StoreErrorKind::Read, &e)),
        }
    }

    /// Each tag with the number of its prompts: the most used first, and tags
    /// of equal use by name, strictly ascending, so that no entry stands
    /// twice: what `ranked_counts` makes of the rows that the query brought.
    pub fn tag_counts(&self) -> (out: Result<Vec<(String, usize)>, StoreError>)
        ensures
            match out {
                Ok(v) => strictly_ranked(count_views(v@)),
                Err(e) => e.kind == StoreErrorKind::Read,
            },
    {
        match query(&self.conn, &plain_statement(TAG_COUNTS), 2) {
            Ok(rows) => ranked_counts(&rows),
            Err(e) => Err(failed(StoreErrorKind::Read, &e)),
        }
    }

    /// The number of prompts: what `count_of` makes of the rows that the
    /// query brought.
    pub fn prompt_count(&self) -> (out: Result<usize, StoreError>)
        ensures
            out matches Err(e) ==> e.kind == StoreErrorKind::Read,
    {
        match query(&self.conn, &plain_statement(COUNT_PROMPTS), 1) {
            Ok(rows) => count_of(&rows),
            Err(e) => Err(failed(StoreErrorKind::Read, &e)),
        }
    }

    /// Ranked search: at most `limit` prompts that match `query_text`, the
    /// best match first, each with its tags and its score. The score is the
    /// rank that SQLite computes, in billionths and negated, so that the
    /// higher score is the better match. The query of `search_statement` is
    /// made; `hit_rows` reads what it brought, each prompt gets its tags, and
    /// `answer_of` decides. A query that SQLite does not accept fails as
    /// `SearchSyntax`.
    pub fn search(&self, query_text: &str, limit: usize) -> (out: Result<
        Vec<(Prompt, i64)>,
        StoreError,
    >)
        requires
            1 <= limit <= MAX_SEARCH_LIMIT,
        ensures
            match out {
                Ok(v) => v.len() <= limit && by_score(v@),
                Err(e) => e.kind == StoreErrorKind::SearchSyntax || e.kind == StoreErrorKind::Read,
            },
    {
        let rows = match query(&self.conn, &search_statement(query_text, limit), 11) {
            Ok(rows) => rows,
            Err(e) => return Err(failed(StoreErrorKind::SearchSyntax, &e)),
        };
        let bare = match hit_rows(&rows) {
            Ok(v) => v,
            Err(e) => return Err(e),
        };
        let mut hits: Vec<(Prompt, i64)> = Vec::new();
        let mut i: usize = 0;
        while i < bare.len()
            invariant
                i <= bare.len(),
            decreases bare.len() - i,
        {
            match self.with_tags(bare[i].0.clone()) {
                Ok(p) => hits.push((p, bare[i].1)),
                Err(e) => return Err(e),
            }
            i += 1;
        }
        answer_of(hits, limit)
    }

    /// Whether SQLite finds the database sound: what `soundness_of` makes of
    /// the rows that the question brought.
    pub fn integrity_check(&self) -> (out: Result<bool, StoreError>)
        ensures
            out matches Err(e) ==> e.kind == StoreErrorKind::Read,
    {
        match query(&self.conn, &plain_statement(INTEGRITY_CHECK), 1) {
            Ok(rows) => soundness_of(&rows),
            Err(e) => Err(failed(StoreErrorKind::Read, &e)),
        }
    }

    /// Moves the write-ahead log into the database file.
    pub fn checkpoint(&self) -> (out: Result<(), StoreError>)
        ensures
            out matches Err(e) ==> e.kind == StoreErrorKind::Write,
    {
        match run_batch(&self.conn, CHECKPOINT) {
            Ok(()) => Ok(()),
            Err(e) => Err(failed(StoreErrorKind::Write, &e)),
        }
    }

    /// The value kept under `key` in the bookkeeping table: what `meta_of`
    /// makes of the rows that the query brought. It is a failure to ask for a
    /// key under which nothing is kept.
    pub fn get_meta(&self, key: &str) -> (out: Result<String, StoreError>)
        ensures
            out matches Err(e) ==> e.kind == StoreErrorKind::Read,
    {
        match query(&self.conn, &get_meta_statement(key), 1) {
            Ok(rows) => meta_of(&rows),
            Err(e) => Err(failed(StoreErrorKind::Read, &e)),
        }
    }

    /// Keeps `value` under `key` in the bookkeeping table, over what was kept
    /// there.
    pub fn set_meta(&self, key: &str, value: &str) -> (out: Result<(), StoreError>)
        ensures
            out matches Err(e) ==> e.kind == StoreErrorKind::Write,
    {
        match execute(&self.conn, &set_meta_statement(key, value)) {
            Ok(_) => Ok(()),
            Err(e) => Err(failed(StoreErrorKind::Write, &e)),
        }
    }

    /// Fills an empty store with the bundled prompts, so that a first run
    /// never shows an empty store. A store whose prompts cannot be counted is
    /// taken for empty. The result is the number of prompts written: 0 for a
    /// store that held prompts.
    pub fn seed_if_empty(&self) -> (written: usize)
        ensures
            written <= 8,
    {
        if !taken_for_empty(&self.prompt_count()) {
            return 0;
        }
        let prompts = bundled_prompts();
        let mut written: usize = 0;
        let mut i: usize = 0;
        while i < prompts.len()
            invariant
                i <= prompts.len(),
                prompts.len() == 8,
                written <= i,
            decreases prompts.len() - i,
        {
            if self.upsert_prompt(&prompts[i]).is_ok() {
                written += 1;
            }
            i += 1;
        }
        written
    }
}

} // verus!
