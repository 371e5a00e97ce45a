//! After a refresh: the prompts go into the store, and the time is noted.

use crate::clock::{is_older_than, rfc3339_seconds, text_older_than, timestamp_text};
use crate::registry::loader::Refreshed;
use crate::storage::database::Database;
use crate::types::prompt::Prompt;
use crate::types::registry::RegistrySource;
use vstd::prelude::*;

verus! {

/// The key of the bookkeeping table under which the time of the last refresh
/// is kept.
pub const LAST_SYNC_KEY: &'static str = "last_sync";

/// The seconds after which the store's data counts as stale.
pub const SYNC_TTL: u64 = 3599;

/// What is said where a refresh fell back on the cache.
pub const CACHE_FALLBACK: &'static str = "Remote refresh failed; using cached registry";

/// The name of a source.
pub open spec fn source_text(source: RegistrySource) -> Seq<char> {
    match source {
        RegistrySource::Remote => "remote"@,
        RegistrySource::Cache => "cache"@,
        RegistrySource::Bundled => "bundled"@,
        RegistrySource::Local => "local"@,
    }
}

/// The name of a source.
pub fn source_name(source: RegistrySource) -> (name: &'static str)
    ensures
        name@ == source_text(source),
{
    match source {
        RegistrySource::Remote => "remote",
        RegistrySource::Cache => "cache",
        RegistrySource::Bundled => "bundled",
        RegistrySource::Local => "local",
    }
}

/// What the report of a refresh tells the user: of a fallback on the cache,
/// the fixed words; else the reason for which the remote registry could not
/// be used, where there is one.
pub open spec fn report_message(refreshed: Refreshed) -> Option<Seq<char>> {
    if refreshed.result.source == RegistrySource::Cache && refreshed.result.stale {
        Some(CACHE_FALLBACK@)
    } else {
        crate::text::opt_text(refreshed.error)
    }
}

/// What a refresh came to.
#[derive(Debug)]
pub struct RefreshReport {
    /// The number of prompts that the store took.
    pub loaded: usize,
    /// The number of prompts in the store afterwards, or `loaded` where they
    /// cannot be counted.
    pub prompt_count: usize,
    /// The name of the source of the prompts.
    pub source: String,
    /// What to tell the user, where the remote registry could not be used.
    pub message: Option<String>,
}

/// Writes each of `prompts` into the store, one by one, going on after a
/// failure. The result is the number that the store took.
pub fn load_into(db: &Database, prompts: &Vec<Prompt>) -> (loaded: usize)
    ensures
        loaded <= prompts.len(),
{
    let mut loaded: usize = 0;
    let mut i: usize = 0;
    while i < prompts.len()
        invariant
            i <= prompts.len(),
            loaded <= i,
        decreases prompts.len() - i,
    {
        if db.upsert_prompt(&prompts[i]).is_ok() {
            loaded += 1;
        }
        i += 1;
    }
    loaded
}

/// The report of a refresh of which the store took `loaded` prompts, and
/// after which it holds `counted` prompts, or cannot count them. The report
/// names the source, and tells of a fallback: on the cache, with the fixed
/// words; on the bundled prompts, with the reason.
pub fn report_of(refreshed: &Refreshed, loaded: usize, counted: Option<usize>) -> (report:
    RefreshReport)
    ensures
        report.loaded == loaded,
        report.prompt_count == (match counted {
            Some(n) => n,
            None => loaded,
        }),
        report.source@ == source_text(refreshed.result.source),
        crate::text::opt_text(report.message) == report_message(*refreshed),
{
    let result = &refreshed.result;
    let fell_back_on_cache = match result.source {
        RegistrySource::Cache => result.stale,
        _ => false,
    };
    let message = if fell_back_on_cache {
        Some(CACHE_FALLBACK.to_string())
    } else {
        match &refreshed.error {
            Some(reason) => Some(reason.clone()),
            None => None,
        }
    };
    let prompt_count = match counted {
        Some(n) => n,
        None => loaded,
    };
    RefreshReport { loaded, prompt_count, source: source_name(result.source).to_string(), message }
}

/// Takes the prompts of a refresh into the store, notes `now` as the time of
/// the refresh, counts the prompts of the store, and hands out the report
/// that `report_of` makes of it.
pub fn store_refreshed(db: &Database, refreshed: &Refreshed, now: i64) -> (report: RefreshReport)
    ensures
        report.loaded <= refreshed.result.registry.prompts.len(),
        report.source@ == source_text(refreshed.result.source),
        crate::text::opt_text(report.message) == report_message(*refreshed),
{
    let loaded = load_into(db, &refreshed.result.registry.prompts);
    let _noted = db.set_meta(LAST_SYNC_KEY, timestamp_text(now).as_str());
    let counted = match db.prompt_count() {
        Ok(n) => Some(n),
        Err(_) => None,
    };
    report_of(refreshed, loaded, counted)
}

/// Whether the store's data is stale at `now`: it is where an hour or more
/// has passed since the last refresh, where the time of the last refresh
/// cannot be read, and where there was none.
pub fn sync_is_stale(last_sync: Option<&str>, now: i64) -> (stale: bool)
    ensures
        stale == match last_sync {
            Some(t) => is_older_than(rfc3339_seconds(t@), now as int, SYNC_TTL as int),
            None => true,
        },
{
    match last_sync {
        Some(t) => text_older_than(t, now, SYNC_TTL),
        None => true,
    }
}

/// Where the data that is shown comes from: the bundled prompts where there
/// is no database yet, else the local store, stale or not.
pub fn status_source(db_exists: bool, stale: bool) -> (source: &'static str)
    ensures
        source@ == if !db_exists {
            "bundled"@
        } else if stale {
            "local (stale)"@
        } else {
            "local"@
        },
{
    if !db_exists {
        "bundled"
    } else if stale {
        "local (stale)"
    } else {
        "local"
    }
}

} // verus!
