//! The data model.

pub mod bundle;
pub mod config;
pub mod credentials;
pub mod prompt;
pub mod registry;
pub mod search;

pub use prompt::{Prompt, PromptSummary, PromptVariable, PromptView, VariableType, VariableView};
pub use registry::{Registry, RegistryLoadResult, RegistryMeta, RegistrySource};
