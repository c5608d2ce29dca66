//! Pairing subtitle files with video files and reading episode metadata
//! out of unreliable text.

pub mod bangumi;
pub mod executor;
pub mod extract;
pub mod files;
pub mod json;
pub mod llm_recognition;
pub mod rename;
pub mod schema;
pub mod settings;
pub mod text;
pub mod types;
pub mod utils;
