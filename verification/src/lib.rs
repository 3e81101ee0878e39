//! Codex CLI session accounting: token counts, live activity and the live monitor panel.

pub mod activity;
pub mod counting;
pub mod current;
pub mod entry;
pub mod file;
pub mod headless;
pub mod json;
pub mod laws;
pub mod message;
pub mod now;
pub mod repository;
pub mod text;
pub mod timestamps;
pub mod tokens;
