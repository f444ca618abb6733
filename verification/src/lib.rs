pub mod text;
pub mod build_types;
pub mod ctx;
pub mod prompts;
pub mod table;
pub mod config;
pub mod profile;
pub mod cli;
pub mod repo;
pub mod wraps;
pub mod detect;
pub mod header;
pub mod npm;
pub mod mono_config;
pub mod plan;
pub mod runner;
pub mod scripts;
pub mod hoist;
pub mod dispatch;
pub mod interactive;
pub mod handlers;
pub mod loading;
pub mod modes;
pub mod setup;
pub mod laws;
