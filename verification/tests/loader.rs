use jfp::clock::timestamp_text;
use jfp::registry::loader::{DEFAULT_CACHE_TTL, DEFAULT_TIMEOUT_MS, REGISTRY_URL};
use jfp::registry::{
    cache_path, fetch_outcome, meta_path, response_kind, CacheAction, CacheMeta, CachedRegistry,
    FetchOutcome, RegistryLoader, RemoteData, ResponseKind,
};
use jfp::types::{Prompt, RegistrySource};

const NOW: i64 = 1_700_000_000;

fn loader() -> RegistryLoader {
    RegistryLoader::with_paths("registry.json".to_string(), "registry.meta.json".to_string())
}

fn cache_of(count: usize, fetched_at: i64, etag: Option<&str>) -> CachedRegistry {
    let prompts = (1..=count)
        .map(|i| Prompt::new(&format!("test-{i}"), &format!("Test {i}"), &format!("Content {i}")))
        .collect();
    CachedRegistry {
        prompts,
        meta: Some(CacheMeta {
            version: Some("7".to_string()),
            etag: etag.map(|e| e.to_string()),
            fetched_at: timestamp_text(fetched_at),
            prompt_count: count,
        }),
    }
}

#[test]
fn test_loader_defaults_to_bundled() {
    let loader = loader();
    let result = loader.load(None, NOW);

    assert_eq!(result.source, RegistrySource::Bundled);
    assert!(!result.stale);
    assert!(!result.registry.prompts.is_empty());
}

#[test]
fn test_loader_uses_cache() {
    let cached = CachedRegistry {
        prompts: vec![Prompt::new("test-1", "Test One", "Content one")],
        meta: Some(CacheMeta {
            version: None,
            etag: None,
            fetched_at: timestamp_text(NOW),
            prompt_count: 1,
        }),
    };

    let result = loader().load(Some(cached), NOW);

    assert_eq!(result.source, RegistrySource::Cache);
    assert!(!result.stale);
    assert_eq!(result.registry.prompts.len(), 1);
    assert_eq!(result.registry.prompts[0].id, "test-1");
}

#[test]
fn test_stale_cache_detection() {
    // the record is two hours old
    let cached = CachedRegistry {
        prompts: vec![Prompt::new("test-1", "Test One", "Content one")],
        meta: Some(CacheMeta {
            version: None,
            etag: None,
            fetched_at: timestamp_text(NOW - 2 * 3600),
            prompt_count: 1,
        }),
    };

    let loader = loader().with_ttl(3600);
    let result = loader.load(Some(cached), NOW);

    assert_eq!(result.source, RegistrySource::Cache);
    assert!(result.stale);
}

#[test]
fn a_cache_is_stale_only_after_more_than_its_time() {
    let loader = loader().with_ttl(3600);
    let at = |age: i64| loader.is_stale(&cache_of(1, NOW - age, None).meta, NOW);
    assert!(!at(0));
    assert!(!at(3599));
    assert!(!at(3600));
    assert!(at(3601));
    assert!(!at(-50));
    let short = RegistryLoader::new(None).with_ttl(0);
    assert!(!short.is_stale(&cache_of(1, NOW, None).meta, NOW));
    assert!(short.is_stale(&cache_of(1, NOW - 1, None).meta, NOW));
}

#[test]
fn a_cache_without_a_readable_time_is_stale() {
    let loader = loader();
    assert!(loader.is_stale(&None, NOW));
    let unreadable = Some(CacheMeta {
        version: None,
        etag: None,
        fetched_at: "yesterday".to_string(),
        prompt_count: 0,
    });
    assert!(loader.is_stale(&unreadable, NOW));
    let with_offset = Some(CacheMeta {
        version: None,
        etag: None,
        fetched_at: "2023-11-14T23:13:20+01:00".to_string(),
        prompt_count: 0,
    });
    // 22:13:20 UTC is the present
    assert!(!loader.is_stale(&with_offset, NOW + 3600));
    assert!(loader.is_stale(&with_offset, NOW + 3601));
}

#[test]
fn the_stored_time_is_rfc3339_in_utc() {
    assert_eq!(timestamp_text(NOW), "2023-11-14T22:13:20+00:00");
    assert_eq!(timestamp_text(0), "1970-01-01T00:00:00+00:00");
    assert_eq!(timestamp_text(i64::MAX), "");
}

#[test]
fn a_stale_cache_is_still_loaded() {
    let result = loader().load(Some(cache_of(2, NOW - 10_000, None)), NOW);
    assert_eq!(result.source, RegistrySource::Cache);
    assert!(result.stale);
    assert_eq!(result.registry.prompts.len(), 2);
    assert_eq!(result.registry.meta.prompt_count, 2);
    assert_eq!(result.registry.meta.version, "1.0.0");
    assert_eq!(result.registry.meta.fetched_at, timestamp_text(NOW));
}

#[test]
fn load_without_cache_gives_the_bundled_prompts() {
    let result = loader().load(None, NOW);
    assert_eq!(result.source, RegistrySource::Bundled);
    assert!(!result.stale);
    assert_eq!(result.registry.prompts.len(), 8);
    assert_eq!(result.registry.meta.prompt_count, 8);
    assert_eq!(result.registry.prompts[0].id, "code-review");
}

#[test]
fn refresh_degrades_to_the_cache_when_the_fetch_fails() {
    let cached = cache_of(3, NOW - 60, Some("\"abc\""));
    let out = loader().refresh(Some(cached), FetchOutcome::Failed("no route".to_string()), NOW);
    assert_eq!(out.result.registry.prompts.len(), 3);
    assert_eq!(out.result.source, RegistrySource::Cache);
    assert!(out.result.stale);
    assert!(matches!(out.action, CacheAction::Keep));
    assert_eq!(out.error, Some("no route".to_string()));
}

#[test]
fn refresh_without_cache_and_network_gives_the_bundled_prompts_and_the_reason() {
    let out = loader().refresh(None, FetchOutcome::Failed("timeout".to_string()), NOW);
    assert_eq!(out.result.source, RegistrySource::Bundled);
    assert!(!out.result.stale);
    assert_eq!(out.result.registry.prompts.len(), 8);
    assert!(matches!(out.action, CacheAction::Keep));
    assert_eq!(out.error, Some("timeout".to_string()));
}

#[test]
fn refresh_on_not_modified_uses_the_cache_and_moves_its_time() {
    let before = NOW - 5000;
    let cached = cache_of(2, before, Some("\"tok\""));
    let out = loader().refresh(Some(cached), FetchOutcome::NotModified, NOW);
    assert_eq!(out.result.source, RegistrySource::Cache);
    assert!(!out.result.stale);
    let ids: Vec<&str> = out.result.registry.prompts.iter().map(|p| p.id.as_str()).collect();
    assert_eq!(ids, vec!["test-1", "test-2"]);
    assert_eq!(out.error, None);
    match out.action {
        CacheAction::Touch { meta } => {
            assert_eq!(meta.fetched_at, timestamp_text(NOW));
            assert!(meta.fetched_at > timestamp_text(before));
            assert_eq!(meta.etag, Some("\"tok\"".to_string()));
            assert_eq!(meta.version, Some("7".to_string()));
            assert_eq!(meta.prompt_count, 2);
            // the cache is fresh again under the new record
            assert!(!loader().is_stale(&Some(meta), NOW + 3600));
        }
        other => panic!("unexpected action: {other:?}"),
    }
}

#[test]
fn refresh_on_not_modified_without_a_record_writes_a_new_one() {
    let cached = CachedRegistry { prompts: vec![Prompt::new("a", "A", "x")], meta: None };
    let out = loader().refresh(Some(cached), FetchOutcome::NotModified, NOW);
    match out.action {
        CacheAction::Touch { meta } => {
            assert_eq!(meta.prompt_count, 1);
            assert_eq!(meta.etag, None);
            assert_eq!(meta.version, None);
            assert_eq!(meta.fetched_at, timestamp_text(NOW));
        }
        other => panic!("unexpected action: {other:?}"),
    }
}

#[test]
fn refresh_on_not_modified_without_a_cache_loads_the_bundled_prompts() {
    let out = loader().refresh(None, FetchOutcome::NotModified, NOW);
    assert_eq!(out.result.source, RegistrySource::Bundled);
    assert!(!out.result.stale);
    assert!(matches!(out.action, CacheAction::Keep));
    assert_eq!(out.error, None);
}

#[test]
fn refresh_with_new_data_uses_it_and_writes_the_cache() {
    let data = RemoteData {
        prompts: vec![Prompt::new("n1", "New", "body"), Prompt::new("n2", "Newer", "body")],
        etag: Some("W/\"x\"".to_string()),
        version: Some("2.0".to_string()),
    };
    let out = loader().refresh(Some(cache_of(1, NOW - 10, None)), FetchOutcome::Fresh(data), NOW);
    assert_eq!(out.result.source, RegistrySource::Remote);
    assert!(!out.result.stale);
    assert_eq!(out.result.registry.prompts.len(), 2);
    assert_eq!(out.result.registry.prompts[1].id, "n2");
    assert_eq!(out.error, None);
    match out.action {
        CacheAction::Write { meta } => {
            assert_eq!(meta.etag, Some("W/\"x\"".to_string()));
            assert_eq!(meta.version, Some("2.0".to_string()));
            assert_eq!(meta.prompt_count, 2);
            assert_eq!(meta.fetched_at, timestamp_text(NOW));
        }
        other => panic!("unexpected action: {other:?}"),
    }
}

#[test]
fn load_sync_uses_a_fresh_cache_without_a_fetch() {
    let loader = loader();
    let cached = cache_of(1, NOW - 10, None);
    assert!(!loader.needs_fetch(&Some(cache_of(1, NOW - 10, None)), NOW));
    let data = RemoteData { prompts: vec![], etag: None, version: None };
    let out = loader.load_sync(Some(cached), FetchOutcome::Fresh(data), NOW);
    assert_eq!(out.result.source, RegistrySource::Cache);
    assert!(!out.result.stale);
    assert_eq!(out.result.registry.prompts.len(), 1);
    assert!(matches!(out.action, CacheAction::Keep));
}

#[test]
fn load_sync_refreshes_a_stale_or_missing_cache() {
    let loader = loader();
    assert!(loader.needs_fetch(&None, NOW));
    assert!(loader.needs_fetch(&Some(cache_of(1, NOW - 4000, None)), NOW));
    let data = RemoteData { prompts: vec![Prompt::new("r", "R", "x")], etag: None, version: None };
    let out = loader.load_sync(Some(cache_of(1, NOW - 4000, None)), FetchOutcome::Fresh(data), NOW);
    assert_eq!(out.result.source, RegistrySource::Remote);
    assert_eq!(out.result.registry.prompts[0].id, "r");
    let failed = loader.load_sync(None, FetchOutcome::Failed("down".to_string()), NOW);
    assert_eq!(failed.result.source, RegistrySource::Bundled);
    assert!(!failed.result.stale);
    let stale =
        loader.load_sync(Some(cache_of(2, NOW - 4000, None)), FetchOutcome::Failed("x".to_string()), NOW);
    assert_eq!(stale.result.source, RegistrySource::Cache);
    assert!(stale.result.stale);
}

#[test]
fn the_request_carries_the_token_of_the_cache() {
    let loader = loader().with_timeout(750);
    let with = loader.request(&Some(cache_of(1, NOW, Some("\"e1\""))));
    assert_eq!(with.url, REGISTRY_URL);
    assert_eq!(with.url, "https://jeffreysprompts.com/api/prompts");
    assert_eq!(with.etag, Some("\"e1\"".to_string()));
    assert_eq!(with.timeout_ms, 750);
    assert_eq!(loader.request(&Some(cache_of(1, NOW, None))).etag, None);
    assert_eq!(loader.request(&None).etag, None);
    let no_record = CachedRegistry { prompts: vec![], meta: None };
    assert_eq!(loader.request(&Some(no_record)).etag, None);
}

#[test]
fn the_loader_has_its_defaults_and_paths() {
    let l = RegistryLoader::new(Some("/home/u/.config/jfp"));
    assert_eq!(l.cache_path, "/home/u/.config/jfp/registry.json");
    assert_eq!(l.meta_path, "/home/u/.config/jfp/registry.meta.json");
    assert_eq!(l.cache_ttl, 3600);
    assert_eq!(l.timeout, 2000);
    assert_eq!(DEFAULT_CACHE_TTL, 3600);
    assert_eq!(DEFAULT_TIMEOUT_MS, 2000);
    let d = RegistryLoader::new(None);
    assert_eq!(d.cache_path, "./registry.json");
    assert_eq!(cache_path(None), "./registry.json");
    assert_eq!(meta_path(Some("/x")), "/x/registry.meta.json");
    let w = RegistryLoader::with_paths("a".to_string(), "b".to_string()).with_ttl(5).with_timeout(6);
    assert_eq!((w.cache_path.as_str(), w.meta_path.as_str(), w.cache_ttl, w.timeout), ("a", "b", 5, 6));
}

#[test]
fn an_answer_is_told_by_its_status() {
    assert_eq!(response_kind(304), ResponseKind::NotModified);
    assert_eq!(response_kind(200), ResponseKind::Body);
    assert_eq!(response_kind(299), ResponseKind::Body);
    assert_eq!(response_kind(199), ResponseKind::Refused);
    assert_eq!(response_kind(300), ResponseKind::Refused);
    assert_eq!(response_kind(404), ResponseKind::Refused);
    assert_eq!(response_kind(500), ResponseKind::Refused);
    let data = || RemoteData { prompts: vec![Prompt::new("a", "A", "x")], etag: None, version: None };
    assert!(matches!(fetch_outcome(304, Some(data())), FetchOutcome::NotModified));
    assert!(matches!(fetch_outcome(304, None), FetchOutcome::NotModified));
    match fetch_outcome(200, Some(data())) {
        FetchOutcome::Fresh(d) => assert_eq!(d.prompts[0].id, "a"),
        other => panic!("unexpected: {other:?}"),
    }
    match fetch_outcome(201, None) {
        FetchOutcome::Failed(reason) => assert_eq!(reason, "Failed to parse registry JSON"),
        other => panic!("unexpected: {other:?}"),
    }
    match fetch_outcome(503, Some(data())) {
        FetchOutcome::Failed(reason) => assert_eq!(reason, "Registry request failed with status 503"),
        other => panic!("unexpected: {other:?}"),
    }
}
