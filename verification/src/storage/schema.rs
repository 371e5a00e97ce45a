//! The layout of the database, and every statement that the store runs.

use vstd::prelude::*;

verus! {

/// The version of the layout. A database that records an older one is
/// brought up to this one when it is opened.
pub const SCHEMA_VERSION: i32 = 2;

/// Creates what is missing of the layout. It only ever adds.
pub const CREATE_SCHEMA: &'static str = r#"
-- Prompts table (with denormalized tags_text for FTS)
CREATE TABLE IF NOT EXISTS prompts (
    id TEXT PRIMARY KEY,
    title TEXT NOT NULL,
    content TEXT NOT NULL,
    description TEXT,
    category TEXT,
    tags_text TEXT, -- Denormalized tags for FTS
    featured INTEGER NOT NULL DEFAULT 0,
    version TEXT,
    author TEXT,
    saved_at TEXT,
    is_local INTEGER NOT NULL DEFAULT 0,
    created_at TEXT NOT NULL DEFAULT (datetime('now')),
    updated_at TEXT NOT NULL DEFAULT (datetime('now'))
);

-- Tags table (many-to-many, normalized source)
CREATE TABLE IF NOT EXISTS prompt_tags (
    prompt_id TEXT NOT NULL,
    tag TEXT NOT NULL,
    PRIMARY KEY (prompt_id, tag),
    FOREIGN KEY (prompt_id) REFERENCES prompts(id) ON DELETE CASCADE
);

-- Variables table
CREATE TABLE IF NOT EXISTS prompt_variables (
    id INTEGER PRIMARY KEY AUTOINCREMENT,
    prompt_id TEXT NOT NULL,
    name TEXT NOT NULL,
    var_type TEXT NOT NULL DEFAULT 'text',
    required INTEGER NOT NULL DEFAULT 0,
    description TEXT,
    default_value TEXT,
    FOREIGN KEY (prompt_id) REFERENCES prompts(id) ON DELETE CASCADE
);

-- Bundles table
CREATE TABLE IF NOT EXISTS bundles (
    id TEXT PRIMARY KEY,
    title TEXT NOT NULL,
    description TEXT,
    version TEXT,
    featured INTEGER NOT NULL DEFAULT 0,
    author TEXT,
    created_at TEXT NOT NULL DEFAULT (datetime('now'))
);

-- Bundle prompts (many-to-many)
CREATE TABLE IF NOT EXISTS bundle_prompts (
    bundle_id TEXT NOT NULL,
    prompt_id TEXT NOT NULL,
    position INTEGER NOT NULL DEFAULT 0,
    PRIMARY KEY (bundle_id, prompt_id),
    FOREIGN KEY (bundle_id) REFERENCES bundles(id) ON DELETE CASCADE,
    FOREIGN KEY (prompt_id) REFERENCES prompts(id) ON DELETE CASCADE
);

-- Registry metadata
CREATE TABLE IF NOT EXISTS registry_meta (
    key TEXT PRIMARY KEY,
    value TEXT NOT NULL
);

-- FTS5 for full-text search (standalone, not content-linked)
-- We manage it manually in the upsert logic
CREATE VIRTUAL TABLE IF NOT EXISTS prompts_fts USING fts5(
    id,
    title,
    description,
    content,
    tags_text
);

-- Indexes
CREATE INDEX IF NOT EXISTS idx_prompts_category ON prompts(category);
CREATE INDEX IF NOT EXISTS idx_prompts_featured ON prompts(featured) WHERE featured = 1;
CREATE INDEX IF NOT EXISTS idx_prompt_tags_tag ON prompt_tags(tag);
"#;

/// Drops every table of the layout.
pub const DROP_SCHEMA: &'static str = r#"
DROP TABLE IF EXISTS bundle_prompts;
DROP TABLE IF EXISTS bundles;
DROP TABLE IF EXISTS prompt_variables;
DROP TABLE IF EXISTS prompt_tags;
DROP TABLE IF EXISTS prompts_fts;
DROP TABLE IF EXISTS prompts;
DROP TABLE IF EXISTS registry_meta;
"#;

/// Starts a unit of writes that is kept whole or not at all.
pub const BEGIN: &'static str = "BEGIN IMMEDIATE";

/// Keeps the unit of writes.
pub const COMMIT: &'static str = "COMMIT";

/// Drops the unit of writes.
pub const ROLLBACK: &'static str = "ROLLBACK";

/// Writes the row of a prompt, over the row of the same id where there is
/// one.
pub const PUT_PROMPT: &'static str =
    "INSERT INTO prompts (id, title, content, description, category, tags_text, featured, version, author, saved_at, is_local) \
     VALUES (?, ?, ?, ?, ?, ?, ?, ?, ?, ?, ?) \
     ON CONFLICT(id) DO UPDATE SET \
     title = excluded.title, content = excluded.content, description = excluded.description, \
     category = excluded.category, tags_text = excluded.tags_text, featured = excluded.featured, \
     version = excluded.version, author = excluded.author, saved_at = excluded.saved_at, \
     is_local = excluded.is_local, updated_at = datetime('now')";

/// Removes the tags of a prompt.
pub const CLEAR_TAGS: &'static str = "DELETE FROM prompt_tags WHERE prompt_id = ?";

/// Adds a tag to a prompt.
pub const ADD_TAG: &'static str = "INSERT INTO prompt_tags (prompt_id, tag) VALUES (?, ?)";

/// Removes the variables of a prompt.
pub const CLEAR_VARIABLES: &'static str = "DELETE FROM prompt_variables WHERE prompt_id = ?";

/// Adds a variable to a prompt.
pub const ADD_VARIABLE: &'static str =
    "INSERT INTO prompt_variables (prompt_id, name, var_type, required, description, default_value) \
     VALUES (?, ?, ?, ?, ?, ?)";

/// Removes the search entry of a prompt.
pub const CLEAR_INDEX: &'static str = "DELETE FROM prompts_fts WHERE id = ?";

/// Adds the search entry of a prompt.
pub const ADD_INDEX: &'static str =
    "INSERT INTO prompts_fts (id, title, description, content, tags_text) VALUES (?, ?, ?, ?, ?)";

/// Reads the row of one prompt.
pub const GET_PROMPT: &'static str =
    "SELECT id, title, content, description, category, featured, version, author, saved_at, is_local \
     FROM prompts WHERE id = ?";

/// Reads the tags of one prompt, in the order in which they were added.
pub const GET_TAGS: &'static str = "SELECT tag FROM prompt_tags WHERE prompt_id = ? ORDER BY rowid";

/// Reads the variables of one prompt, in the order in which they were added.
pub const GET_VARIABLES: &'static str =
    "SELECT name, var_type, required, description, default_value \
     FROM prompt_variables WHERE prompt_id = ? ORDER BY id";

/// The start of every listing.
pub const LIST_HEAD: &'static str =
    "SELECT id, title, content, description, category, featured, version, author, saved_at, is_local \
     FROM prompts";

/// The end of every listing: by title, ascending.
pub const LIST_TAIL: &'static str = " ORDER BY title";

/// Keeps the prompts of one category.
pub const CATEGORY_IS: &'static str = "category = ?";

/// Keeps the prompts that carry one tag.
pub const HAS_TAG: &'static str = "id IN (SELECT prompt_id FROM prompt_tags WHERE tag = ?)";

/// Keeps the featured prompts.
pub const IS_FEATURED: &'static str = "featured = 1";

/// Counts the prompts of each category, by category, ascending.
pub const CATEGORY_COUNTS: &'static str =
    "SELECT category, COUNT(*) as count FROM prompts WHERE category IS NOT NULL \
     GROUP BY category ORDER BY category";

/// Counts the prompts of each tag: the most used first, and tags of equal use
/// by name, ascending.
pub const TAG_COUNTS: &'static str =
    "SELECT tag, COUNT(*) as count FROM prompt_tags GROUP BY tag ORDER BY count DESC, tag";

/// Counts the prompts.
pub const COUNT_PROMPTS: &'static str = "SELECT COUNT(*) FROM prompts";

/// Ranked search. The fields weigh 5 (id), 3 (title), 2 (description),
/// 1 (content) and 2 (tags). The rank comes back in billionths, as a whole
/// number; the smaller it is, the better the match.
pub const SEARCH: &'static str =
    "SELECT p.id, p.title, p.content, p.description, p.category, \
     p.featured, p.version, p.author, p.saved_at, p.is_local, \
     CAST(bm25(prompts_fts, 5.0, 3.0, 2.0, 1.0, 2.0) * 1000000000.0 AS INTEGER) as score \
     FROM prompts_fts f JOIN prompts p ON f.id = p.id \
     WHERE prompts_fts MATCH ? \
     ORDER BY bm25(prompts_fts, 5.0, 3.0, 2.0, 1.0, 2.0) \
     LIMIT ?";

/// Reads the recorded version of the layout.
pub const GET_SCHEMA_VERSION: &'static str =
    "SELECT value FROM registry_meta WHERE key = 'schema_version'";

/// Reads a value of the bookkeeping table.
pub const GET_META: &'static str = "SELECT value FROM registry_meta WHERE key = ?";

/// Writes a value of the bookkeeping table, over the one of the same key.
pub const SET_META: &'static str =
    "INSERT OR REPLACE INTO registry_meta (key, value) VALUES (?, ?)";

/// Asks SQLite whether the database is sound.
pub const INTEGRITY_CHECK: &'static str = "PRAGMA integrity_check";

/// Moves the write-ahead log into the database file.
pub const CHECKPOINT: &'static str = "PRAGMA wal_checkpoint(TRUNCATE)";

} // verus!
