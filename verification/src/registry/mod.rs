//! Where prompts come from: the bundled set, and the cache of the remote
//! registry.

pub mod embedded;
pub mod loader;

pub use embedded::bundled_prompts;
pub use loader::{
    fetch_outcome, response_kind, ResponseKind,
    cache_path, meta_path, CacheAction, CacheMeta, CachedRegistry, FetchOutcome, FetchRequest,
    Refreshed, RegistryLoader, RemoteData,
};
