//! Edits of the user configuration (`config.toml`), on a model of its TOML
//! tree.

pub mod config_text;
pub mod model_config;
pub mod reports;
pub mod settings;
pub mod table;
pub mod toml_text;
