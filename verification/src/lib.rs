//! Command interception for a commit wrapper around a version-control client.

pub mod app_config;
pub mod commit_types;
pub mod customer_llm_backend;
pub mod git_command;
pub mod git_utils;
pub mod llm;
pub mod scan_laws;
pub mod session;
pub mod text;
