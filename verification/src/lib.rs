pub mod cli;
pub mod client;
pub mod commands;
pub mod config;
pub mod error;
pub mod format;
pub mod mcp;
pub mod text;
pub mod trust;
pub mod wait;
