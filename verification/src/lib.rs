//! The library behind `jfp`, a command-line browser for curated prompts.
//!
//! - [`types`]: prompts, registries, bundles, credentials, settings.
//! - [`storage`]: the prompt store on SQLite, with ranked search and the
//!   backup file.
//! - [`registry`]: the bundled prompts, and the stale-while-revalidate cache
//!   of the remote registry.
//! - [`commands`]: what the commands compute before they print.
//! - [`cli`], [`config`], [`clock`]: text for the terminal, where the files
//!   live, and points in time.
//! - [`text`], [`tally`]: helpers on text and on counts.
//!
//! The library reads no file, no clock and no environment, and makes no
//! request: the caller hands in what it found, and carries out what the
//! library decides. The one thing it talks to is SQLite.

pub mod cli;
pub mod clock;
pub mod commands;
pub mod config;
pub mod registry;
pub mod storage;
pub mod tally;
pub mod text;
pub mod types;
