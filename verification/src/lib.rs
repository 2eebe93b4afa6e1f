//! Glossa: the verified core of an LLM-backed English learning helper.

pub mod text;
pub mod templates;
pub mod config;
pub mod prompts;
pub mod json;
pub mod llm;
pub mod session;
pub mod windows;
pub mod popup;
pub mod server;
pub mod popclip;
pub mod speech;
pub mod history;
