//! The prompt store.

pub mod checks;
pub mod database;
pub mod decode;
pub mod jsonl;
pub mod model;
pub mod plan;
pub mod read;
pub mod schema;
pub mod sql;

pub use database::{db_path, Database, StoreError, StoreErrorKind};
pub use jsonl::{export_jsonl, export_of, import_jsonl, JsonlMeta, MetaInfo};
pub use schema::{CREATE_SCHEMA, DROP_SCHEMA, SCHEMA_VERSION};
