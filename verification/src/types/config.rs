//! The settings, with their defaults.

use crate::config::{file_in, opt_str, path_in};
use vstd::prelude::*;

verus! {

/// The settings for the remote registry and its cache.
#[derive(Debug)]
pub struct RegistryConfig {
    pub url: String,
    pub remote: String,
    pub manifest_url: String,
    pub cache_path: String,
    pub meta_path: String,
    pub auto_refresh: bool,
    /// Seconds after which the cache is past its time.
    pub cache_ttl: u64,
    /// Milliseconds that a request may take.
    pub timeout_ms: u64,
}

impl RegistryConfig {
    /// The default settings, with the cache files in the configuration
    /// directory `config_dir`, or in the working directory where none is
    /// known, and with `manifest_url` as the address of the registry's table
    /// of contents: a cache that lasts an hour, and requests that may take
    /// two seconds.
    pub fn new(config_dir: Option<&str>, manifest_url: String) -> (c: RegistryConfig)
        ensures
            c.url@ == "https://jeffreysprompts.com/api/prompts"@,
            c.remote@ == "https://jeffreysprompts.com/api/prompts"@,
            c.manifest_url == manifest_url,
            c.cache_path@ == file_in(opt_str(config_dir), "registry.json"@),
            c.meta_path@ == file_in(opt_str(config_dir), "registry.meta.json"@),
            c.auto_refresh,
            c.cache_ttl == 3600,
            c.timeout_ms == 2000,
    {
        RegistryConfig {
            url: "https://jeffreysprompts.com/api/prompts".to_string(),
            remote: "https://jeffreysprompts.com/api/prompts".to_string(),
            manifest_url,
            cache_path: path_in(config_dir, "registry.json"),
            meta_path: path_in(config_dir, "registry.meta.json"),
            auto_refresh: true,
            cache_ttl: 3600,
            timeout_ms: 2000,
        }
    }
}

/// The settings for updates of the tool.
#[derive(Debug)]
pub struct UpdatesConfig {
    pub auto_check: bool,
    pub auto_update: bool,
    pub channel: String,
    pub last_check: Option<String>,
    pub latest_known_version: Option<String>,
}

impl Default for UpdatesConfig {
    /// Updates are looked for and not installed, on the stable channel.
    fn default() -> (c: Self)
        ensures
            c.auto_check,
            !c.auto_update,
            c.channel@ == "stable"@,
            c.last_check is None,
            c.latest_known_version is None,
    {
        UpdatesConfig {
            auto_check: true,
            auto_update: false,
            channel: "stable".to_string(),
            last_check: None,
            latest_known_version: None,
        }
    }
}

/// The settings for where skills are installed.
#[derive(Debug)]
pub struct SkillsConfig {
    pub personal_dir: String,
    pub project_dir: String,
    pub prefer_project: bool,
}

impl SkillsConfig {
    /// The default settings for skills that are kept in `personal_dir` for
    /// the user and in `project_dir` for a project: the user's come first.
    pub fn new(personal_dir: String, project_dir: String) -> (c: SkillsConfig)
        ensures
            c.personal_dir == personal_dir,
            c.project_dir == project_dir,
            !c.prefer_project,
    {
        SkillsConfig { personal_dir, project_dir, prefer_project: false }
    }
}

/// The settings for what is printed.
#[derive(Debug, Clone, Copy, PartialEq, Eq, Structural)]
pub struct OutputConfig {
    pub color: bool,
    pub json: bool,
}

impl Default for OutputConfig {
    /// Colour, and text for people.
    fn default() -> (c: Self)
        ensures
            c == (OutputConfig { color: true, json: false }),
    {
        OutputConfig { color: true, json: false }
    }
}

/// The settings for prompts of the user's own.
#[derive(Debug)]
pub struct LocalPromptsConfig {
    pub enabled: bool,
    pub dir: String,
}

impl LocalPromptsConfig {
    /// The default settings, with the prompts in `local` below the
    /// configuration directory `config_dir`, or below the working directory
    /// where none is known.
    pub fn new(config_dir: Option<&str>) -> (c: LocalPromptsConfig)
        ensures
            c.enabled,
            c.dir@ == file_in(opt_str(config_dir), "local"@),
    {
        LocalPromptsConfig { enabled: true, dir: path_in(config_dir, "local") }
    }
}

/// The settings for analytics.
#[derive(Debug, Clone, Copy, PartialEq, Eq, Structural)]
pub struct AnalyticsConfig {
    pub enabled: bool,
}

impl Default for AnalyticsConfig {
    /// No analytics.
    fn default() -> (c: Self)
        ensures
            !c.enabled,
    {
        AnalyticsConfig { enabled: false }
    }
}

/// All settings.
#[derive(Debug)]
pub struct Config {
    pub registry: RegistryConfig,
    pub updates: UpdatesConfig,
    pub skills: SkillsConfig,
    pub output: OutputConfig,
    pub local_prompts: LocalPromptsConfig,
    pub analytics: AnalyticsConfig,
}

impl Config {
    /// The default settings for the configuration directory `config_dir`,
    /// where the working directory stands in for one that is not known, with
    /// the given settings for skills and `manifest_url` as the address of
    /// the registry's table of contents.
    pub fn new(config_dir: Option<&str>, manifest_url: String, skills: SkillsConfig) -> (c: Config)
        ensures
            c.registry.cache_path@ == file_in(opt_str(config_dir), "registry.json"@),
            c.registry.meta_path@ == file_in(opt_str(config_dir), "registry.meta.json"@),
            c.registry.manifest_url == manifest_url,
            c.registry.auto_refresh,
            c.registry.cache_ttl == 3600,
            c.registry.timeout_ms == 2000,
            c.updates.auto_check && !c.updates.auto_update,
            c.updates.channel@ == "stable"@,
            c.skills == skills,
            c.output == (OutputConfig { color: true, json: false }),
            c.local_prompts.enabled,
            c.local_prompts.dir@ == file_in(opt_str(config_dir), "local"@),
            !c.analytics.enabled,
    {
        Config {
            registry: RegistryConfig::new(config_dir, manifest_url),
            updates: UpdatesConfig::default(),
            skills,
            output: OutputConfig::default(),
            local_prompts: LocalPromptsConfig::new(config_dir),
            analytics: AnalyticsConfig::default(),
        }
    }
}

} // verus!
