//! The registry cache: which of three sources of prompts to use (the remote
//! registry, the local cache, the bundled set), and what to do to the cache
//! files afterwards.
//!
//! The loader decides; it neither reads files nor fetches. The caller reads
//! the cache, makes the request that `request` describes, hands both to the
//! loader with the present time, and carries out the `CacheAction` it gets
//! back.

use crate::clock::{is_older_than, rfc3339_seconds, stored_time, text_older_than, timestamp_text};
use crate::config::{file_in, opt_str, path_in};
use crate::registry::embedded::{bundled_prompts, is_bundled_set};
use crate::text::{clone_opt, decimal, decimal_text, opt_text};
use crate::types::prompt::Prompt;
use crate::types::registry::{Registry, RegistryLoadResult, RegistrySource};
use vstd::prelude::*;
use vstd::string::StringExecFns;

verus! {

/// The time in seconds after which a cache is past its time, unless another
/// is set.
pub const DEFAULT_CACHE_TTL: u64 = 3600;

/// The time in milliseconds that a request may take, unless another is set.
pub const DEFAULT_TIMEOUT_MS: u64 = 2000;

/// The address of the remote registry.
pub const REGISTRY_URL: &'static str = "https://jeffreysprompts.com/api/prompts";

/// The name of the cache file.
pub const CACHE_FILE: &'static str = "registry.json";

/// The name of the record beside the cache file.
pub const META_FILE: &'static str = "registry.meta.json";

/// The record kept beside the cache file.
#[derive(Debug)]
pub struct CacheMeta {
    pub version: Option<String>,
    pub etag: Option<String>,
    pub fetched_at: String,
    pub prompt_count: usize,
}

/// What the cache files held when they were read. `meta` is `None` where the
/// record was missing or could not be read.
#[derive(Debug)]
pub struct CachedRegistry {
    pub prompts: Vec<Prompt>,
    pub meta: Option<CacheMeta>,
}

impl CachedRegistry {
    /// Whether the record agrees with the cache file on the number of
    /// prompts. A cache without a record agrees.
    pub fn is_consistent(&self) -> (agrees: bool)
        ensures
            agrees == match self.meta {
                Some(m) => m.prompt_count == self.prompts.len(),
                None => true,
            },
    {
        match &self.meta {
            Some(m) => m.prompt_count == self.prompts.len(),
            None => true,
        }
    }
}

/// What the remote registry sent.
#[derive(Debug)]
pub struct RemoteData {
    pub prompts: Vec<Prompt>,
    pub etag: Option<String>,
    pub version: Option<String>,
}

/// What came of a request to the remote registry.
#[derive(Debug)]
pub enum FetchOutcome {
    /// New data.
    Fresh(RemoteData),
    /// The registry has nothing newer than the token that was sent.
    NotModified,
    /// No usable answer, with the reason.
    Failed(String),
}

/// What an answer of the remote registry is, by its status.
#[derive(Debug, Clone, Copy, PartialEq, Eq, Structural)]
pub enum ResponseKind {
    /// Status 304: nothing newer than the token that was sent.
    NotModified,
    /// A status of success: the answer carries the prompts.
    Body,
    /// Any other status.
    Refused,
}

/// What an answer of the status `status` is.
pub open spec fn kind_of_status(status: u16) -> ResponseKind {
    if status == 304 {
        ResponseKind::NotModified
    } else if 200 <= status < 300 {
        ResponseKind::Body
    } else {
        ResponseKind::Refused
    }
}

/// What an answer of the status `status` is.
pub fn response_kind(status: u16) -> (kind: ResponseKind)
    ensures
        kind == kind_of_status(status),
{
    if status == 304 {
        ResponseKind::NotModified
    } else if 200 <= status && status < 300 {
        ResponseKind::Body
    } else {
        ResponseKind::Refused
    }
}

/// What is said of an answer whose prompts cannot be read.
pub const UNREADABLE_ANSWER: &'static str = "Failed to parse registry JSON";

/// What is said of an answer of another status than success.
pub open spec fn refusal_text(status: u16) -> Seq<char> {
    "Registry request failed with status "@ + decimal_text(status as nat)
}

/// What came of a request that was answered with the status `status` and
/// with `data` as what could be read of the answer: nothing newer on 304;
/// the data on a status of success, or a failure where none could be read;
/// a failure that names the status on any other.
pub fn fetch_outcome(status: u16, data: Option<RemoteData>) -> (outcome: FetchOutcome)
    ensures
        match kind_of_status(status) {
            ResponseKind::NotModified => outcome is NotModified,
            ResponseKind::Body => match data {
                Some(d) => outcome == FetchOutcome::Fresh(d),
                None => outcome matches FetchOutcome::Failed(reason) && reason@
                    == UNREADABLE_ANSWER@,
            },
            ResponseKind::Refused => outcome matches FetchOutcome::Failed(reason) && reason@
                == refusal_text(status),
        },
{
    match response_kind(status) {
        ResponseKind::NotModified => FetchOutcome::NotModified,
        ResponseKind::Body => match data {
            Some(d) => FetchOutcome::Fresh(d),
            None => FetchOutcome::Failed(UNREADABLE_ANSWER.to_string()),
        },
        ResponseKind::Refused => {
            let mut reason = "Registry request failed with status ".to_string();
            reason.append(decimal(status as usize).as_str());
            FetchOutcome::Failed(reason)
        },
    }
}

/// The request to make.
#[derive(Debug)]
pub struct FetchRequest {
    pub url: String,
    /// The freshness token to send along, if there is one.
    pub etag: Option<String>,
    pub timeout_ms: u64,
}

/// What the caller is to do to the cache files.
#[derive(Debug)]
pub enum CacheAction {
    /// Nothing.
    Keep,
    /// Write the prompts of the result as the cache file, and this record
    /// beside it.
    Write { meta: CacheMeta },
    /// Leave the cache file as it is, and write this record beside it.
    Touch { meta: CacheMeta },
}

/// The end of a refresh: the prompts to use, what to do to the cache files,
/// and the reason, for display, where the remote registry could not be used.
#[derive(Debug)]
pub struct Refreshed {
    pub result: RegistryLoadResult,
    pub action: CacheAction,
    pub error: Option<String>,
}

/// Decides where prompts come from.
#[derive(Debug)]
pub struct RegistryLoader {
    pub cache_path: String,
    pub meta_path: String,
    /// Seconds after which a cache is past its time.
    pub cache_ttl: u64,
    /// Milliseconds that a request may take.
    pub timeout: u64,
}

/// Whether a cache with the record `meta` is past its time at `now`, where
/// `ttl` seconds are allowed. A cache without a record, or whose record holds
/// no readable time, is.
pub open spec fn cache_is_stale(meta: Option<CacheMeta>, now: int, ttl: int) -> bool {
    match meta {
        Some(m) => is_older_than(rfc3339_seconds(m.fetched_at@), now, ttl),
        None => true,
    }
}

/// The freshness token that a cache holds.
pub open spec fn cached_token(cached: Option<CachedRegistry>) -> Option<Seq<char>> {
    match cached {
        Some(c) => match c.meta {
            Some(m) => opt_text(m.etag),
            None => None,
        },
        None => None,
    }
}

/// Whether `result` holds `prompts` as loaded at `now` from `source`.
pub open spec fn is_loaded(
    result: RegistryLoadResult,
    prompts: Vec<Prompt>,
    source: RegistrySource,
    stale: bool,
    now: int,
) -> bool {
    &&& result.registry.prompts == prompts
    &&& result.registry.meta.prompt_count == prompts.len()
    &&& result.registry.meta.fetched_at@ == stored_time(now)
    &&& result.registry.meta.version@ == "1.0.0"@
    &&& result.registry.meta.etag is None
    &&& result.source == source
    &&& result.stale == stale
}

/// Whether `result` holds the bundled prompts as loaded at `now`.
pub open spec fn is_bundled_result(result: RegistryLoadResult, now: int) -> bool {
    &&& is_bundled_set(result.registry.prompts@)
    &&& is_loaded(result, result.registry.prompts, RegistrySource::Bundled, false, now)
}

/// Whether `meta` is the record to write for `data` fetched at `now`.
pub open spec fn is_written_meta(meta: CacheMeta, data: RemoteData, now: int) -> bool {
    &&& opt_text(meta.version) == opt_text(data.version)
    &&& opt_text(meta.etag) == opt_text(data.etag)
    &&& meta.fetched_at@ == stored_time(now)
    &&& meta.prompt_count == data.prompts.len()
}

/// Whether `meta` is the record of `cached` with its time moved to `now`.
/// Where the cache had no record, it is a new one of the cached prompts,
/// without version or token.
pub open spec fn is_touched_meta(meta: CacheMeta, cached: CachedRegistry, now: int) -> bool {
    &&& meta.fetched_at@ == stored_time(now)
    &&& match cached.meta {
        Some(m) => {
            &&& opt_text(meta.version) == opt_text(m.version)
            &&& opt_text(meta.etag) == opt_text(m.etag)
            &&& meta.prompt_count == m.prompt_count
        },
        None => {
            &&& meta.version is None
            &&& meta.etag is None
            &&& meta.prompt_count == cached.prompts.len()
        },
    }
}

/// Whether `out` is how a refresh ends at `now` on the cache `cached` and the
/// answer `outcome`.
///
/// New data is used and written to the cache. On "not modified" the cache is
/// used as fresh and its record gets the new time; without a cache the
/// bundled prompts are used. On a failure the cache is used as stale, or the
/// bundled prompts without a cache, nothing is written, and the reason is
/// passed on.
pub open spec fn is_refreshed(
    out: Refreshed,
    cached: Option<CachedRegistry>,
    outcome: FetchOutcome,
    now: int,
) -> bool {
    match outcome {
        FetchOutcome::Fresh(data) => {
            &&& is_loaded(out.result, data.prompts, RegistrySource::Remote, false, now)
            &&& out.action matches CacheAction::Write { meta } && is_written_meta(meta, data, now)
            &&& out.error is None
        },
        FetchOutcome::NotModified => match cached {
            Some(c) => {
                &&& is_loaded(out.result, c.prompts, RegistrySource::Cache, false, now)
                &&& out.action matches CacheAction::Touch { meta } && is_touched_meta(meta, c, now)
                &&& out.error is None
            },
            None => {
                &&& is_bundled_result(out.result, now)
                &&& out.action is Keep
                &&& out.error is None
            },
        },
        FetchOutcome::Failed(reason) => {
            &&& match cached {
                Some(c) => is_loaded(out.result, c.prompts, RegistrySource::Cache, true, now),
                None => is_bundled_result(out.result, now),
            }
            &&& out.action is Keep
            &&& out.error == Some(reason)
        },
    }
}

/// The path of the cache file in the configuration directory `config_dir`, or
/// in the working directory where none is known.
pub fn cache_path(config_dir: Option<&str>) -> (path: String)
    ensures
        path@ == file_in(opt_str(config_dir), CACHE_FILE@),
{
    path_in(config_dir, CACHE_FILE)
}

/// The path of the record beside the cache file, in the configuration
/// directory `config_dir`, or in the working directory where none is known.
pub fn meta_path(config_dir: Option<&str>) -> (path: String)
    ensures
        path@ == file_in(opt_str(config_dir), META_FILE@),
{
    path_in(config_dir, META_FILE)
}

/// The bundled prompts as loaded at `now`.
fn bundled_result(now: i64) -> (result: RegistryLoadResult)
    ensures
        is_bundled_result(result, now as int),
{
    RegistryLoadResult {
        registry: Registry::new(bundled_prompts(), timestamp_text(now)),
        source: RegistrySource::Bundled,
        stale: false,
    }
}

/// `prompts` as loaded at `now` from `source`.
fn loaded(prompts: Vec<Prompt>, source: RegistrySource, stale: bool, now: i64) -> (result:
    RegistryLoadResult)
    ensures
        is_loaded(result, prompts, source, stale, now as int),
{
    RegistryLoadResult { registry: Registry::new(prompts, timestamp_text(now)), source, stale }
}

impl RegistryLoader {
    /// A loader for the cache files in the configuration directory
    /// `config_dir`, or in the working directory where none is known, with
    /// the default times.
    pub fn new(config_dir: Option<&str>) -> (loader: RegistryLoader)
        ensures
            loader.cache_path@ == file_in(opt_str(config_dir), CACHE_FILE@),
            loader.meta_path@ == file_in(opt_str(config_dir), META_FILE@),
            loader.cache_ttl == DEFAULT_CACHE_TTL,
            loader.timeout == DEFAULT_TIMEOUT_MS,
    {
        RegistryLoader {
            cache_path: cache_path(config_dir),
            meta_path: meta_path(config_dir),
            cache_ttl: DEFAULT_CACHE_TTL,
            timeout: DEFAULT_TIMEOUT_MS,
        }
    }

    /// A loader for the given cache files, with the default times.
    pub fn with_paths(cache_path: String, meta_path: String) -> (loader: RegistryLoader)
        ensures
            loader.cache_path == cache_path,
            loader.meta_path == meta_path,
            loader.cache_ttl == DEFAULT_CACHE_TTL,
            loader.timeout == DEFAULT_TIMEOUT_MS,
    {
        RegistryLoader {
            cache_path,
            meta_path,
            cache_ttl: DEFAULT_CACHE_TTL,
            timeout: DEFAULT_TIMEOUT_MS,
        }
    }

    /// The loader with `ttl` seconds as the time after which a cache is past
    /// its time.
    pub fn with_ttl(self, ttl: u64) -> (loader: RegistryLoader)
        ensures
            loader.cache_ttl == ttl,
            loader.cache_path == self.cache_path,
            loader.meta_path == self.meta_path,
            loader.timeout == self.timeout,
    {
        RegistryLoader {
            cache_path: self.cache_path,
            meta_path: self.meta_path,
            cache_ttl: ttl,
            timeout: self.timeout,
        }
    }

    /// The loader with `timeout` milliseconds as the time that a request may
    /// take.
    pub fn with_timeout(self, timeout: u64) -> (loader: RegistryLoader)
        ensures
            loader.timeout == timeout,
            loader.cache_path == self.cache_path,
            loader.meta_path == self.meta_path,
            loader.cache_ttl == self.cache_ttl,
    {
        RegistryLoader {
            cache_path: self.cache_path,
            meta_path: self.meta_path,
            cache_ttl: self.cache_ttl,
            timeout,
        }
    }

    /// Whether a cache with the record `meta` is past its time at `now`: more
    /// than the loader's time has passed since it was fetched. A cache
    /// fetched exactly that long ago is not. A cache without a record, or
    /// whose record holds no readable time, is.
    pub fn is_stale(&self, meta: &Option<CacheMeta>, now: i64) -> (stale: bool)
        ensures
            stale == cache_is_stale(*meta, now as int, self.cache_ttl as int),
    {
        match meta {
            Some(m) => text_older_than(m.fetched_at.as_str(), now, self.cache_ttl),
            None => true,
        }
    }

    /// The prompts to use without asking the remote registry: those of the
    /// cache where there is one, past its time or not, with `stale` saying
    /// which; else the bundled ones.
    pub fn load(&self, cached: Option<CachedRegistry>, now: i64) -> (result: RegistryLoadResult)
        ensures
            match cached {
                Some(c) => is_loaded(
                    result,
                    c.prompts,
                    RegistrySource::Cache,
                    cache_is_stale(c.meta, now as int, self.cache_ttl as int),
                    now as int,
                ),
                None => is_bundled_result(result, now as int),
            },
    {
        match cached {
            Some(c) => {
                let stale = self.is_stale(&c.meta, now);
                loaded(c.prompts, RegistrySource::Cache, stale, now)
            },
            None => bundled_result(now),
        }
    }

    /// The request to make to the remote registry: to its address, within the
    /// loader's time, and with the freshness token of the cache where the
    /// cache has one.
    pub fn request(&self, cached: &Option<CachedRegistry>) -> (request: FetchRequest)
        ensures
            request.url@ == REGISTRY_URL@,
            opt_text(request.etag) == cached_token(*cached),
            request.timeout_ms == self.timeout,
    {
        let etag = match cached {
            Some(c) => match &c.meta {
                Some(m) => clone_opt(&m.etag),
                None => None,
            },
            None => None,
        };
        FetchRequest { url: REGISTRY_URL.to_string(), etag, timeout_ms: self.timeout }
    }

    /// Whether `load_sync` needs an answer from the remote registry: it does
    /// unless there is a cache that is not past its time.
    pub fn needs_fetch(&self, cached: &Option<CachedRegistry>, now: i64) -> (needed: bool)
        ensures
            needed == match *cached {
                Some(c) => cache_is_stale(c.meta, now as int, self.cache_ttl as int),
                None => true,
            },
    {
        match cached {
            Some(c) => self.is_stale(&c.meta, now),
            None => true,
        }
    }

    /// The prompts to use where a fresh cache is good enough. A cache that is
    /// not past its time is used as it is, whatever `outcome` holds, and
    /// nothing is written. Else `outcome`, what came of the request, decides
    /// as in `refresh`.
    pub fn load_sync(&self, cached: Option<CachedRegistry>, outcome: FetchOutcome, now: i64) -> (out:
        Refreshed)
        ensures
            match cached {
                Some(c) if !cache_is_stale(c.meta, now as int, self.cache_ttl as int) => {
                    &&& is_loaded(out.result, c.prompts, RegistrySource::Cache, false, now as int)
                    &&& out.action is Keep
                    &&& out.error is None
                },
                _ => is_refreshed(out, cached, outcome, now as int),
            },
    {
        match cached {
            Some(c) => {
                if self.is_stale(&c.meta, now) {
                    self.refresh(Some(c), outcome, now)
                } else {
                    Refreshed {
                        result: loaded(c.prompts, RegistrySource::Cache, false, now),
                        action: CacheAction::Keep,
                        error: None,
                    }
                }
            },
            None => self.refresh(None, outcome, now),
        }
    }

    /// The prompts to use after the remote registry was asked, and what to do
    /// to the cache files: see `is_refreshed`. A refresh never fails: where
    /// the registry could not be used, older prompts are, and the reason
    /// comes along.
    pub fn refresh(&self, cached: Option<CachedRegistry>, outcome: FetchOutcome, now: i64) -> (out:
        Refreshed)
        ensures
            is_refreshed(out, cached, outcome, now as int),
    {
        match outcome {
            FetchOutcome::Fresh(data) => {
                let meta = CacheMeta {
                    version: data.version,
                    etag: data.etag,
                    fetched_at: timestamp_text(now),
                    prompt_count: data.prompts.len(),
                };
                Refreshed {
                    result: loaded(data.prompts, RegistrySource::Remote, false, now),
                    action: CacheAction::Write { meta },
                    error: None,
                }
            },
            FetchOutcome::NotModified => match cached {
                Some(c) => {
                    let meta = match c.meta {
                        Some(m) => CacheMeta {
                            version: m.version,
                            etag: m.etag,
                            fetched_at: timestamp_text(now),
                            prompt_count: m.prompt_count,
                        },
                        None => CacheMeta {
                            version: None,
                            etag: None,
                            fetched_at: timestamp_text(now),
                            prompt_count: c.prompts.len(),
                        },
                    };
                    Refreshed {
                        result: loaded(c.prompts, RegistrySource::Cache, false, now),
                        action: CacheAction::Touch { meta },
                        error: None,
                    }
                },
                None => Refreshed {
                    result: bundled_result(now),
                    action: CacheAction::Keep,
                    error: None,
                },
            },
            FetchOutcome::Failed(reason) => {
                let result = match cached {
                    Some(c) => loaded(c.prompts, RegistrySource::Cache, true, now),
                    None => bundled_result(now),
                };
                Refreshed { result, action: CacheAction::Keep, error: Some(reason) }
            },
        }
    }
}

} // verus!
