//! What the commands compute before they print.

pub mod bundles;
pub mod doctor;
pub mod export;
pub mod refresh;
pub mod render;
pub mod search;
pub mod settings;
pub mod suggest;
